//! The delimited-text format of a table: how records are written, how they
//! are read back, and the proof that reading returns what was written.

use crate::schema::texts_of;
use vstd::prelude::*;

verus! {

/// The field delimiter.
pub const COMMA: u8 = 44;

/// The quote character.
pub const QUOTE: u8 = 34;

/// The carriage return.
pub const CR: u8 = 13;

/// The line feed, which ends a record.
pub const LF: u8 = 10;

/// Whether a byte forces the field that holds it into quotes.
pub open spec fn is_special(b: u8) -> bool {
    b == COMMA || b == QUOTE || b == CR || b == LF
}

/// Whether a field must be written in quotes: it holds a delimiter, a quote
/// or a line break.
pub open spec fn needs_quotes(field: Seq<u8>) -> bool {
    exists|i: int| 0 <= i < field.len() && is_special(#[trigger] field[i])
}

/// The field with each quote written twice.
pub open spec fn doubled(field: Seq<u8>) -> Seq<u8>
    decreases field.len(),
{
    if field.len() == 0 {
        Seq::empty()
    } else if field[0] == QUOTE {
        seq![QUOTE, QUOTE] + doubled(field.skip(1))
    } else {
        seq![field[0]] + doubled(field.skip(1))
    }
}

/// A field as it is written: as it stands, or in quotes with its own quotes
/// doubled where it needs them.
pub open spec fn field_bytes(field: Seq<u8>) -> Seq<u8> {
    if needs_quotes(field) {
        seq![QUOTE] + doubled(field) + seq![QUOTE]
    } else {
        field
    }
}

/// The written fields of a record, with a comma between each two.
pub open spec fn joined(fields: Seq<Seq<u8>>) -> Seq<u8>
    decreases fields.len(),
{
    if fields.len() == 0 {
        Seq::empty()
    } else if fields.len() == 1 {
        field_bytes(fields[0])
    } else {
        field_bytes(fields[0]) + seq![COMMA] + joined(fields.skip(1))
    }
}

/// A record as it is written: its fields, then a line feed. A record of
/// which nothing would show, that is one without fields or with a single
/// empty field, is written as a pair of quotes.
pub open spec fn record_bytes(fields: Seq<Seq<u8>>) -> Seq<u8> {
    if joined(fields).len() == 0 {
        seq![QUOTE, QUOTE, LF]
    } else {
        joined(fields) + seq![LF]
    }
}

/// A table as it is written: its records, one after the other.
pub open spec fn table_bytes(records: Seq<Seq<Seq<u8>>>) -> Seq<u8>
    decreases records.len(),
{
    if records.len() == 0 {
        Seq::empty()
    } else {
        record_bytes(records[0]) + table_bytes(records.skip(1))
    }
}

/// Reads a field that is not quoted: the bytes before the next comma or line
/// feed. Gives the field and the text that follows it.
pub open spec fn read_plain(s: Seq<u8>) -> (Seq<u8>, Seq<u8>)
    decreases s.len(),
{
    if s.len() == 0 || s[0] == COMMA || s[0] == LF {
        (Seq::empty(), s)
    } else {
        let (field, rest) = read_plain(s.skip(1));
        (seq![s[0]] + field, rest)
    }
}

/// Reads a quoted field from behind its opening quote: the bytes before the
/// closing quote, a doubled quote standing for one. Gives the field and the
/// text behind the closing quote, or nothing where no quote closes it.
pub open spec fn read_quoted(s: Seq<u8>) -> Option<(Seq<u8>, Seq<u8>)>
    decreases s.len(),
{
    if s.len() == 0 {
        None
    } else if s[0] == QUOTE {
        if s.len() >= 2 && s[1] == QUOTE {
            match read_quoted(s.skip(2)) {
                Some((field, rest)) => Some((seq![QUOTE] + field, rest)),
                None => None,
            }
        } else {
            Some((Seq::empty(), s.skip(1)))
        }
    } else {
        match read_quoted(s.skip(1)) {
            Some((field, rest)) => Some((seq![s[0]] + field, rest)),
            None => None,
        }
    }
}

/// Reads one field, quoted or not.
pub open spec fn read_field(s: Seq<u8>) -> Option<(Seq<u8>, Seq<u8>)> {
    if s.len() > 0 && s[0] == QUOTE {
        read_quoted(s.skip(1))
    } else {
        Some(read_plain(s))
    }
}

/// Reads one record: fields with a comma between each two, then a line feed.
/// Gives the fields and the text behind the line feed, or nothing where the
/// text is no record.
pub open spec fn read_record(s: Seq<u8>) -> Option<(Seq<Seq<u8>>, Seq<u8>)>
    decreases s.len(),
{
    match read_field(s) {
        None => None,
        Some((field, rest)) => {
            if rest.len() > 0 && rest[0] == LF {
                Some((seq![field], rest.skip(1)))
            } else if rest.len() > 0 && rest[0] == COMMA {
                proof {
                    lemma_read_field_shrinks(s);
                }
                match read_record(rest.skip(1)) {
                    Some((fields, after)) => Some((seq![field] + fields, after)),
                    None => None,
                }
            } else {
                None
            }
        },
    }
}

/// Reads a table: records up to the end of the text. Gives nothing where
/// some part of the text is no record.
pub open spec fn read_table(s: Seq<u8>) -> Option<Seq<Seq<Seq<u8>>>>
    decreases s.len(),
{
    if s.len() == 0 {
        Some(Seq::empty())
    } else {
        match read_record(s) {
            None => None,
            Some((fields, rest)) => {
                proof {
                    lemma_read_record_shrinks(s);
                }
                match read_table(rest) {
                    Some(records) => Some(seq![fields] + records),
                    None => None,
                }
            },
        }
    }
}

/// What follows a plain field is no longer than the text it was read from.
pub proof fn lemma_read_plain_shrinks(s: Seq<u8>)
    ensures
        read_plain(s).1.len() <= s.len(),
    decreases s.len(),
{
    if !(s.len() == 0 || s[0] == COMMA || s[0] == LF) {
        lemma_read_plain_shrinks(s.skip(1));
    }
}

/// What follows a quoted field is shorter than the text it was read from.
pub proof fn lemma_read_quoted_shrinks(s: Seq<u8>)
    ensures
        read_quoted(s) matches Some((_, rest)) ==> rest.len() < s.len(),
    decreases s.len(),
{
    if s.len() == 0 {
    } else if s[0] == QUOTE {
        if s.len() >= 2 && s[1] == QUOTE {
            lemma_read_quoted_shrinks(s.skip(2));
        }
    } else {
        lemma_read_quoted_shrinks(s.skip(1));
    }
}

/// What follows a field is no longer than the text it was read from.
pub proof fn lemma_read_field_shrinks(s: Seq<u8>)
    ensures
        read_field(s) matches Some((_, rest)) ==> rest.len() <= s.len(),
{
    if s.len() > 0 && s[0] == QUOTE {
        lemma_read_quoted_shrinks(s.skip(1));
    } else {
        lemma_read_plain_shrinks(s);
    }
}

/// What follows a record is shorter than the text it was read from.
pub proof fn lemma_read_record_shrinks(s: Seq<u8>)
    ensures
        read_record(s) matches Some((_, rest)) ==> rest.len() < s.len(),
    decreases s.len(),
{
    lemma_read_field_shrinks(s);
    match read_field(s) {
        None => {},
        Some((field, rest)) => {
            if rest.len() > 0 && rest[0] == LF {
            } else if rest.len() > 0 && rest[0] == COMMA {
                lemma_read_record_shrinks(rest.skip(1));
            }
        },
    }
}

/// A field that needs no quotes is read back as it stands.
pub proof fn lemma_read_plain(field: Seq<u8>, rest: Seq<u8>)
    requires
        !needs_quotes(field),
        rest.len() == 0 || rest[0] == COMMA || rest[0] == LF,
    ensures
        read_plain(field + rest) == (field, rest),
    decreases field.len(),
{
    let s = field + rest;
    if field.len() == 0 {
        assert(s =~= rest);
        assert(field =~= Seq::empty());
    } else {
        assert(is_special(field[0]) ==> needs_quotes(field));
        assert(s[0] == field[0]);
        let tail = field.skip(1);
        assert forall|i: int| 0 <= i < tail.len() implies !is_special(#[trigger] tail[i]) by {
            assert(tail[i] == field[i + 1]);
        }
        lemma_read_plain(tail, rest);
        assert(s.skip(1) =~= tail + rest);
        assert(seq![s[0]] + tail =~= field);
    }
}

/// A quoted field is read back from behind its opening quote as it was
/// before its quotes were doubled.
pub proof fn lemma_read_quoted(field: Seq<u8>, rest: Seq<u8>)
    requires
        rest.len() == 0 || rest[0] != QUOTE,
    ensures
        read_quoted(doubled(field) + seq![QUOTE] + rest) == Some((field, rest)),
    decreases field.len(),
{
    let s = doubled(field) + seq![QUOTE] + rest;
    if field.len() == 0 {
        assert(s =~= seq![QUOTE] + rest);
        assert(s.skip(1) =~= rest);
        assert(field =~= Seq::empty());
    } else {
        let tail = field.skip(1);
        lemma_read_quoted(tail, rest);
        let t = doubled(tail) + seq![QUOTE] + rest;
        if field[0] == QUOTE {
            assert(s =~= seq![QUOTE, QUOTE] + t);
            assert(s.skip(2) =~= t);
            assert(seq![QUOTE] + tail =~= field);
        } else {
            assert(s =~= seq![field[0]] + t);
            assert(s.skip(1) =~= t);
            assert(seq![s[0]] + tail =~= field);
        }
    }
}

/// A written field that a comma or a line feed follows is read back as it
/// was.
pub proof fn lemma_read_field(field: Seq<u8>, rest: Seq<u8>)
    requires
        rest.len() > 0,
        rest[0] == COMMA || rest[0] == LF,
    ensures
        read_field(field_bytes(field) + rest) == Some((field, rest)),
{
    let s = field_bytes(field) + rest;
    if needs_quotes(field) {
        lemma_read_quoted(field, rest);
        assert(s.skip(1) =~= doubled(field) + seq![QUOTE] + rest);
    } else {
        lemma_read_plain(field, rest);
        if field.len() > 0 {
            assert(is_special(field[0]) ==> needs_quotes(field));
        }
    }
}

/// The written fields of a record that has a field, with the line feed
/// behind them, are read back as they were.
pub proof fn lemma_read_joined(fields: Seq<Seq<u8>>, rest: Seq<u8>)
    requires
        fields.len() >= 1,
    ensures
        read_record(joined(fields) + seq![LF] + rest) == Some((fields, rest)),
    decreases fields.len(),
{
    let s = joined(fields) + seq![LF] + rest;
    let first = fields[0];
    if fields.len() == 1 {
        let after = seq![LF] + rest;
        lemma_read_field(first, after);
        assert(s =~= field_bytes(first) + after);
        assert(after.skip(1) =~= rest);
        assert(seq![first] =~= fields);
    } else {
        let tail = fields.skip(1);
        let after = seq![COMMA] + joined(tail) + seq![LF] + rest;
        lemma_read_field(first, after);
        assert(s =~= field_bytes(first) + after);
        lemma_read_joined(tail, rest);
        assert(after.skip(1) =~= joined(tail) + seq![LF] + rest);
        assert(seq![first] + tail =~= fields);
    }
}

/// A written record that has a field is read back as it was.
pub proof fn lemma_read_record(fields: Seq<Seq<u8>>, rest: Seq<u8>)
    requires
        fields.len() >= 1,
    ensures
        read_record(record_bytes(fields) + rest) == Some((fields, rest)),
{
    let s = record_bytes(fields) + rest;
    if joined(fields).len() == 0 {
        let first = fields[0];
        if fields.len() > 1 {
            assert(joined(fields).len() > 0);
        }
        assert(first =~= Seq::empty());
        let after = seq![LF] + rest;
        lemma_read_quoted(first, after);
        assert(doubled(first) =~= Seq::empty());
        assert(s.skip(1) =~= doubled(first) + seq![QUOTE] + after);
        assert(after.skip(1) =~= rest);
        assert(seq![first] =~= fields);
    } else {
        lemma_read_joined(fields, rest);
        assert(s =~= joined(fields) + seq![LF] + rest);
    }
}

/// Reading a written table gives back its records, field for field and
/// byte for byte, provided that each record has a field.
pub proof fn lemma_read_table(records: Seq<Seq<Seq<u8>>>)
    requires
        forall|i: int| 0 <= i < records.len() ==> (#[trigger] records[i]).len() >= 1,
    ensures
        read_table(table_bytes(records)) == Some(records),
    decreases records.len(),
{
    if records.len() == 0 {
        assert(records =~= Seq::empty());
    } else {
        let tail = records.skip(1);
        assert forall|i: int| 0 <= i < tail.len() implies (#[trigger] tail[i]).len() >= 1 by {
            assert(tail[i] == records[i + 1]);
        }
        lemma_read_table(tail);
        lemma_read_record(records[0], table_bytes(tail));
        assert(seq![records[0]] + tail =~= records);
    }
}

/// Writes one record with `csv::Writer::write_record`, into a writer that
/// `csv::Writer::from_writer` has just made over an empty `Vec<u8>`, and
/// takes the bytes back with `csv::Writer::into_inner`.
///
/// The contract states what the writer does in its default configuration:
/// it quotes a field that holds a comma, a quote, a carriage return or a line
/// feed, doubles the quotes inside it, puts a comma between fields and a
/// line feed at the end, and writes a record that would otherwise show
/// nothing as a pair of quotes. Writing into memory does not fail, and a new
/// writer holds no field count against its first record.
#[verifier::external_body]
pub(crate) fn write_record(fields: &Vec<Vec<u8>>) -> (out: Vec<u8>)
    ensures
        out@ == record_bytes(texts_of(fields@)),
{
    let mut writer = csv::Writer::from_writer(Vec::new());
    writer.write_record(fields).expect("a new writer takes any record");
    writer.into_inner().expect("memory takes any write")
}

} // verus!
