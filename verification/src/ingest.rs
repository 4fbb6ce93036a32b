//! The fetch operation without its input and output: from what the request
//! brought to the file that is to be written.

use crate::decode::Decode;
use crate::delimited::{lemma_read_table, read_table, table_bytes};
use crate::error::DecodeError;
use crate::json::Doc;
use crate::models::general::{Element, General};
use crate::payload::{decode, is_dataset, parsed};
use crate::schema::{row_of, row_text};
use crate::table::{element_header, element_records, table_file, table_path, TableFile};
use vstd::prelude::*;

verus! {

/// The player documents of a dataset document.
pub open spec fn element_docs(d: Doc) -> Seq<Doc> {
    d.member("elements"@)->0->List_0
}

/// The records of the table of players as a dataset document gives them: the
/// header, then for each player the text of what the player's document holds
/// under each column.
pub open spec fn document_records(d: Doc) -> Seq<Seq<Seq<u8>>> {
    seq![element_header()] + Seq::new(
        element_docs(d).len(),
        |i: int| row_text(row_of(element_docs(d)[i], Element::columns())),
    )
}

/// Turns what the request brought into the file of the table of players.
///
/// `body` is the body of the response, or nothing where the request failed.
/// A failed request is reported as such, and a body that is no dataset as
/// malformed; in both cases there is no file, so nothing is written. A body
/// that is a dataset gives the whole table, under `table_name`.
pub fn ingest(body: Option<&[u8]>, table_name: &str) -> (r: Result<TableFile, DecodeError>)
    ensures
        match r {
            Ok(file) => body matches Some(bytes) && is_dataset(bytes@) && file.path@ == table_path(
                table_name@,
            ) && file.contents@ == table_bytes(document_records(parsed(bytes@)->0)),
            Err(e) => match body {
                None => e == DecodeError::Network,
                Some(bytes) => e == DecodeError::Malformed && !is_dataset(bytes@),
            },
        },
{
    match body {
        None => Err(DecodeError::Network),
        Some(bytes) => match decode(bytes) {
            Ok(dataset) => {
                proof {
                    let d = parsed(bytes@)->0;
                    assert(dataset.agrees(d));
                    assert(element_records(dataset.elements@) =~= document_records(d));
                }
                Ok(table_file(&dataset.elements, table_name))
            },
            Err(e) => Err(e),
        },
    }
}

/// A dataset that is decoded and written reads back as what its document
/// holds: the table has the header and one record for each player, and each
/// field of a record is the text of the cell that the player's document
/// holds under the field's column.
pub proof fn lemma_ingested_table_reads_back(d: Doc)
    requires
        General::accepts(d),
    ensures
        read_table(table_bytes(document_records(d))) == Some(document_records(d)),
        document_records(d).len() == element_docs(d).len() + 1,
        document_records(d)[0] == element_header(),
        forall|i: int|
            0 <= i < element_docs(d).len() ==> #[trigger] document_records(d)[i + 1] == row_text(
                row_of(element_docs(d)[i], Element::columns()),
            ),
{
    let records = document_records(d);
    Element::lemma_columns();
    assert forall|i: int| 0 <= i < records.len() implies (#[trigger] records[i]).len() >= 1 by {}
    lemma_read_table(records);
}

} // verus!
