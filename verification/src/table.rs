//! The table of players: its file, its text, and what reading it back
//! gives.

use crate::delimited::{lemma_read_table, read_table, record_bytes, table_bytes, write_record};
use crate::models::general::Element;
use crate::schema::{
    cell_text, header_text, render_header, render_row, row_text, texts_of, Cell,
};
use crate::text::{int_text, lemma_int_text_nonempty};
use vstd::prelude::*;
use vstd::string::StringExecFns;
use vstd::utf8::{decode_utf8, encode_utf8_decode_utf8};

verus! {

/// The header of the table of players: the names of its columns.
pub open spec fn element_header() -> Seq<Seq<u8>> {
    header_text(Element::columns())
}

/// The records of the table of `rows`: the header, then one record for each
/// row, which holds the text of each of its cells.
pub open spec fn element_records(rows: Seq<Element>) -> Seq<Seq<Seq<u8>>> {
    seq![element_header()] + Seq::new(rows.len(), |i: int| row_text(rows[i].cells()))
}

/// The text of the table of `rows`.
pub open spec fn element_table(rows: Seq<Element>) -> Seq<u8> {
    table_bytes(element_records(rows))
}

/// Where the table called `name` is kept.
pub open spec fn table_path(name: Seq<char>) -> Seq<char> {
    "./data/"@ + name + ".csv"@
}

/// A record more at the end of a table is its text more at the end of the
/// table's text.
pub proof fn lemma_table_push(records: Seq<Seq<Seq<u8>>>, record: Seq<Seq<u8>>)
    ensures
        table_bytes(records.push(record)) == table_bytes(records) + record_bytes(record),
    decreases records.len(),
{
    let longer = records.push(record);
    if records.len() == 0 {
        reveal_with_fuel(table_bytes, 2);
        assert(longer.skip(1) =~= Seq::empty());
        assert(table_bytes(longer) =~= record_bytes(record));
        assert(table_bytes(records) + record_bytes(record) =~= record_bytes(record));
    } else {
        lemma_table_push(records.skip(1), record);
        assert(longer.skip(1) =~= records.skip(1).push(record));
        assert(table_bytes(longer) =~= table_bytes(records) + record_bytes(record));
    }
}

/// Renders the table of `rows`: a header line with the name of every column
/// and one line for each row, in the order given.
pub fn render_table(rows: &Vec<Element>) -> (out: Vec<u8>)
    ensures
        out@ == element_table(rows@),
{
    let header = render_header(&Element::schema());
    let mut out = write_record(&header);
    let ghost mut records: Seq<Seq<Seq<u8>>> = seq![element_header()];
    proof {
        lemma_table_push(Seq::empty(), element_header());
        assert(records =~= Seq::<Seq<Seq<u8>>>::empty().push(element_header()));
    }
    let mut i: usize = 0;
    while i < rows.len()
        invariant
            i <= rows@.len(),
            out@ == table_bytes(records),
            records == seq![element_header()] + Seq::new(
                i as nat,
                |k: int| row_text(rows@[k].cells()),
            ),
        decreases rows@.len() - i,
    {
        let row = render_row(&rows[i].fields());
        let mut line = write_record(&row);
        proof {
            lemma_table_push(records, texts_of(row@));
            assert(records.push(texts_of(row@)) =~= seq![element_header()] + Seq::new(
                (i + 1) as nat,
                |k: int| row_text(rows@[k].cells()),
            ));
            records = records.push(texts_of(row@));
        }
        out.append(&mut line);
        i += 1;
    }
    out
}

/// A file as the caller is to write it: where, and what.
#[derive(Debug, Clone, PartialEq)]
pub struct TableFile {
    pub path: String,
    pub contents: Vec<u8>,
}

/// The file that holds the table of `rows` under the name `table_name`. The
/// caller writes it in place of any file that is already there.
pub fn table_file(rows: &Vec<Element>, table_name: &str) -> (file: TableFile)
    ensures
        file.path@ == table_path(table_name@),
        file.contents@ == element_table(rows@),
{
    let path = String::from_str("./data/").concat(table_name).concat(".csv");
    TableFile { path, contents: render_table(rows) }
}

/// Reading a written table gives back the header and, for each row, the
/// text of each cell, byte for byte and in the order of the columns. The
/// table has one record for each row and one for the header.
pub proof fn lemma_table_reads_back(rows: Seq<Element>)
    ensures
        read_table(element_table(rows)) == Some(element_records(rows)),
        element_records(rows).len() == rows.len() + 1,
        element_records(rows)[0] == element_header(),
        forall|i: int|
            0 <= i < rows.len() ==> #[trigger] element_records(rows)[i + 1] == row_text(
                rows[i].cells(),
            ),
{
    let records = element_records(rows);
    Element::lemma_columns();
    assert forall|i: int| 0 <= i < records.len() implies (#[trigger] records[i]).len() >= 1 by {
        if i > 0 {
            rows[i - 1].lemma_cells();
        }
    }
    lemma_read_table(records);
}

/// The text of a cell gives the cell's text back: no character is changed
/// on the way into a table.
pub proof fn lemma_text_cell_reads_back(t: Seq<char>)
    ensures
        decode_utf8(cell_text(Cell::Text(t))) == t,
{
    encode_utf8_decode_utf8(t);
}

/// A cell shows as nothing only where there is nothing to show: where the
/// value is absent or is the empty text. An absent value is never written as
/// a word or as a zero, and a number or a boolean is never written as nothing.
pub proof fn lemma_empty_cell(c: Cell)
    ensures
        cell_text(c).len() == 0 <==> c is Absent || c == Cell::Text(Seq::<char>::empty()),
{
    match c {
        Cell::Int(n) => {
            lemma_int_text_nonempty(n as int);
        },
        Cell::Bool(_) => {},
        Cell::Text(t) => {
            encode_utf8_decode_utf8(t);
            if t.len() == 0 {
                assert(t =~= Seq::<char>::empty());
            }
        },
        Cell::Absent => {},
    }
}

/// The two columns on a player's chance of playing are empty where the
/// chance is not known, and hold the number in decimal where it is.
pub proof fn lemma_chance_of_playing(e: Element)
    ensures
        row_text(e.cells())[0] == match e.chance_of_playing_next_round {
            Some(n) => int_text(n as int),
            None => Seq::<u8>::empty(),
        },
        row_text(e.cells())[1] == match e.chance_of_playing_this_round {
            Some(n) => int_text(n as int),
            None => Seq::<u8>::empty(),
        },
{
    e.lemma_cells();
}

} // verus!
