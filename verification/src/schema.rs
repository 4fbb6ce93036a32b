//! The row schema: named, typed columns, and the cells that a record holds
//! under them.

use crate::error::DecodeError;
use crate::json::{Doc, Json};
use crate::text::{bool_text, int_text, render_bool, render_int};
use vstd::prelude::*;
use vstd::string::StrSliceExecFns;
use vstd::utf8::encode_utf8;

verus! {

/// The semantic type of a column.
#[derive(Clone, Copy, Debug, PartialEq, Eq, Structural)]
pub enum Kind {
    Integer,
    OptionalInteger,
    Boolean,
    Text,
    /// Text that looks like a number. It is carried as text and never read
    /// as a number, since the source may send a placeholder in its place.
    NumericText,
    OptionalText,
}

/// A column: the key of a field on the wire, which is also its name in the
/// header of a table, and the field's semantic type.
pub struct Column {
    pub name: Seq<char>,
    pub kind: Kind,
}

/// The column called `name` of type `kind`.
pub open spec fn col(name: &str, kind: Kind) -> Column {
    Column { name: name@, kind }
}

/// What a record holds under one column.
pub enum Cell {
    Int(i64),
    Bool(bool),
    Text(Seq<char>),
    /// An optional field that is not there. It is no zero and no empty text.
    Absent,
}

/// The cell of an optional integer.
pub open spec fn opt_int_cell(v: Option<i64>) -> Cell {
    match v {
        Some(n) => Cell::Int(n),
        None => Cell::Absent,
    }
}

/// The cell of an optional text.
pub open spec fn opt_text_cell(v: Option<String>) -> Cell {
    match v {
        Some(t) => Cell::Text(t@),
        None => Cell::Absent,
    }
}

/// The cell that the record `d` holds under `column`, or `None` where the
/// field does not fit the column: a required field that is missing or null,
/// or a field of another kind than the column's. An optional field that is
/// missing or null is `Absent`.
pub open spec fn cell_of(d: Doc, column: Column) -> Option<Cell> {
    match column.kind {
        Kind::Integer => match d.member(column.name) {
            Some(Doc::Int(n)) => Some(Cell::Int(n)),
            _ => None,
        },
        Kind::OptionalInteger => match d.member(column.name) {
            None => Some(Cell::Absent),
            Some(Doc::Null) => Some(Cell::Absent),
            Some(Doc::Int(n)) => Some(Cell::Int(n)),
            _ => None,
        },
        Kind::Boolean => match d.member(column.name) {
            Some(Doc::Bool(b)) => Some(Cell::Bool(b)),
            _ => None,
        },
        Kind::Text => match d.member(column.name) {
            Some(Doc::Text(t)) => Some(Cell::Text(t)),
            _ => None,
        },
        Kind::NumericText => match d.member(column.name) {
            Some(Doc::Text(t)) => Some(Cell::Text(t)),
            _ => None,
        },
        Kind::OptionalText => match d.member(column.name) {
            None => Some(Cell::Absent),
            Some(Doc::Null) => Some(Cell::Absent),
            Some(Doc::Text(t)) => Some(Cell::Text(t)),
            _ => None,
        },
    }
}

/// Whether `d` is a record that fits every one of `columns`.
pub open spec fn fits(d: Doc, columns: Seq<Column>) -> bool {
    &&& d is Record
    &&& forall|i: int| 0 <= i < columns.len() ==> cell_of(d, #[trigger] columns[i]) is Some
}

/// The cells that `d` holds under `columns`, in the columns' order.
pub open spec fn row_of(d: Doc, columns: Seq<Column>) -> Seq<Cell>
    recommends
        fits(d, columns),
{
    Seq::new(columns.len(), |i: int| cell_of(d, columns[i])->0)
}

/// The text of a cell as a table shows it: an integer in decimal, a boolean
/// as `true` or `false`, a text as its UTF-8 bytes, and nothing at all for
/// an absent value.
pub open spec fn cell_text(c: Cell) -> Seq<u8> {
    match c {
        Cell::Int(n) => int_text(n as int),
        Cell::Bool(b) => bool_text(b),
        Cell::Text(t) => encode_utf8(t),
        Cell::Absent => Seq::empty(),
    }
}

/// The texts of a row of cells.
pub open spec fn row_text(cells: Seq<Cell>) -> Seq<Seq<u8>> {
    Seq::new(cells.len(), |i: int| cell_text(cells[i]))
}

/// The names of `columns` as the header of a table shows them.
pub open spec fn header_text(columns: Seq<Column>) -> Seq<Seq<u8>> {
    Seq::new(columns.len(), |i: int| encode_utf8(columns[i].name))
}

/// Whether a cell is of a form that a column of type `kind` can hold.
pub open spec fn cell_fits(c: Cell, kind: Kind) -> bool {
    match kind {
        Kind::Integer => c is Int,
        Kind::OptionalInteger => c is Int || c is Absent,
        Kind::Boolean => c is Bool,
        Kind::Text => c is Text,
        Kind::NumericText => c is Text,
        Kind::OptionalText => c is Text || c is Absent,
    }
}

/// Whether `cells` is a row under `columns`: one cell for each column, each
/// of a form that its column can hold.
pub open spec fn conforms(cells: Seq<Cell>, columns: Seq<Column>) -> bool {
    &&& cells.len() == columns.len()
    &&& forall|i: int| 0 <= i < cells.len() ==> cell_fits(#[trigger] cells[i], columns[i].kind)
}

/// The row of a record that fits its columns is a row under these columns.
pub proof fn lemma_row_conforms(d: Doc, columns: Seq<Column>)
    requires
        fits(d, columns),
    ensures
        conforms(row_of(d, columns), columns),
{
    assert forall|i: int| 0 <= i < columns.len() implies cell_fits(
        #[trigger] row_of(d, columns)[i],
        columns[i].kind,
    ) by {
        assert(cell_of(d, columns[i]) is Some);
    }
}

/// A column as the program holds it.
#[derive(Clone, Copy, Debug)]
pub struct Heading {
    pub name: &'static str,
    pub kind: Kind,
}

impl View for Heading {
    type V = Column;

    open spec fn view(&self) -> Column {
        col(self.name, self.kind)
    }
}

/// The columns that `headings` stand for.
pub open spec fn columns_of(headings: Seq<Heading>) -> Seq<Column> {
    Seq::new(headings.len(), |i: int| headings[i]@)
}

/// A cell as the program holds it.
#[derive(Clone, Debug, PartialEq)]
pub enum Field {
    Int(i64),
    Bool(bool),
    Text(String),
    Absent,
}

impl View for Field {
    type V = Cell;

    open spec fn view(&self) -> Cell {
        match self {
            Field::Int(n) => Cell::Int(*n),
            Field::Bool(b) => Cell::Bool(*b),
            Field::Text(t) => Cell::Text(t@),
            Field::Absent => Cell::Absent,
        }
    }
}

/// The cells that `fields` stand for.
pub open spec fn cells_of(fields: Seq<Field>) -> Seq<Cell> {
    Seq::new(fields.len(), |i: int| fields[i]@)
}

impl Field {
    /// The cell of an optional integer.
    pub fn from_optional_integer(v: Option<i64>) -> (f: Field)
        ensures
            f@ == opt_int_cell(v),
    {
        match v {
            Some(n) => Field::Int(n),
            None => Field::Absent,
        }
    }

    /// The cell of an optional text.
    pub fn from_optional_text(v: &Option<String>) -> (f: Field)
        ensures
            f@ == opt_text_cell(*v),
    {
        match v {
            Some(t) => Field::Text(t.clone()),
            None => Field::Absent,
        }
    }

    /// The integer of a cell that holds one.
    pub fn integer(&self) -> (n: i64)
        requires
            self@ is Int,
        ensures
            self@ == Cell::Int(n),
    {
        match self {
            Field::Int(n) => *n,
            _ => vstd::pervasive::unreached(),
        }
    }

    /// The integer of a cell that holds one or is absent.
    pub fn optional_integer(&self) -> (v: Option<i64>)
        requires
            self@ is Int || self@ is Absent,
        ensures
            self@ == opt_int_cell(v),
    {
        match self {
            Field::Int(n) => Some(*n),
            _ => None,
        }
    }

    /// The boolean of a cell that holds one.
    pub fn boolean(&self) -> (b: bool)
        requires
            self@ is Bool,
        ensures
            self@ == Cell::Bool(b),
    {
        match self {
            Field::Bool(b) => *b,
            _ => vstd::pervasive::unreached(),
        }
    }

    /// A copy of the text of a cell that holds one.
    pub fn text(&self) -> (t: String)
        requires
            self@ is Text,
        ensures
            self@ == Cell::Text(t@),
    {
        match self {
            Field::Text(t) => t.clone(),
            _ => vstd::pervasive::unreached(),
        }
    }

    /// A copy of the text of a cell that holds one or is absent.
    pub fn optional_text(&self) -> (v: Option<String>)
        requires
            self@ is Text || self@ is Absent,
        ensures
            self@ == opt_text_cell(v),
    {
        match self {
            Field::Text(t) => Some(t.clone()),
            _ => None,
        }
    }

    /// Renders the cell as a table shows it.
    pub fn render(&self) -> (out: Vec<u8>)
        ensures
            out@ == cell_text(self@),
    {
        match self {
            Field::Int(n) => render_int(*n),
            Field::Bool(b) => render_bool(*b),
            Field::Text(t) => t.as_str().as_bytes_vec(),
            Field::Absent => Vec::new(),
        }
    }
}

/// Reads the cell that the record `j` holds under `heading`.
pub fn read_cell(j: &Json, heading: &Heading) -> (r: Result<Field, DecodeError>)
    ensures
        match r {
            Ok(f) => cell_of(j@, heading@) == Some(f@),
            Err(e) => e == DecodeError::Malformed && cell_of(j@, heading@) is None,
        },
{
    let found = j.member(heading.name);
    match heading.kind {
        Kind::Integer => match found {
            Some(Json::Int(n)) => Ok(Field::Int(*n)),
            _ => Err(DecodeError::Malformed),
        },
        Kind::OptionalInteger => match found {
            None => Ok(Field::Absent),
            Some(Json::Null) => Ok(Field::Absent),
            Some(Json::Int(n)) => Ok(Field::Int(*n)),
            _ => Err(DecodeError::Malformed),
        },
        Kind::Boolean => match found {
            Some(Json::Bool(b)) => Ok(Field::Bool(*b)),
            _ => Err(DecodeError::Malformed),
        },
        Kind::Text => match found {
            Some(Json::Text(t)) => Ok(Field::Text(t.clone())),
            _ => Err(DecodeError::Malformed),
        },
        Kind::NumericText => match found {
            Some(Json::Text(t)) => Ok(Field::Text(t.clone())),
            _ => Err(DecodeError::Malformed),
        },
        Kind::OptionalText => match found {
            None => Ok(Field::Absent),
            Some(Json::Null) => Ok(Field::Absent),
            Some(Json::Text(t)) => Ok(Field::Text(t.clone())),
            _ => Err(DecodeError::Malformed),
        },
    }
}

/// Reads the row that the record `j` holds under `headings`. It fails where
/// `j` is no record or one of its fields does not fit its column.
pub fn read_row(j: &Json, headings: &Vec<Heading>) -> (r: Result<Vec<Field>, DecodeError>)
    ensures
        match r {
            Ok(fields) => fits(j@, columns_of(headings@)) && cells_of(fields@) == row_of(
                j@,
                columns_of(headings@),
            ),
            Err(e) => e == DecodeError::Malformed && !fits(j@, columns_of(headings@)),
        },
{
    if !j.is_record() {
        return Err(DecodeError::Malformed);
    }
    let ghost columns = columns_of(headings@);
    let mut fields: Vec<Field> = Vec::new();
    let mut i: usize = 0;
    while i < headings.len()
        invariant
            i <= headings@.len(),
            columns == columns_of(headings@),
            fields@.len() == i,
            forall|k: int| 0 <= k < i ==> cell_of(j@, #[trigger] columns[k]) == Some(fields@[k]@),
        decreases headings@.len() - i,
    {
        match read_cell(j, &headings[i]) {
            Ok(f) => {
                fields.push(f);
            },
            Err(e) => {
                proof {
                    assert(cell_of(j@, columns[i as int]) is None);
                }
                return Err(e);
            },
        }
        i += 1;
    }
    proof {
        assert(cells_of(fields@) =~= row_of(j@, columns));
    }
    Ok(fields)
}

/// The byte strings that `texts` hold.
pub open spec fn texts_of(texts: Seq<Vec<u8>>) -> Seq<Seq<u8>> {
    Seq::new(texts.len(), |i: int| texts[i]@)
}

/// Renders a row of cells as a table shows them.
pub fn render_row(fields: &Vec<Field>) -> (out: Vec<Vec<u8>>)
    ensures
        texts_of(out@) == row_text(cells_of(fields@)),
{
    let mut out: Vec<Vec<u8>> = Vec::new();
    let mut i: usize = 0;
    while i < fields.len()
        invariant
            i <= fields@.len(),
            out@.len() == i,
            forall|k: int| 0 <= k < i ==> (#[trigger] out@[k])@ == cell_text(fields@[k]@),
        decreases fields@.len() - i,
    {
        out.push(fields[i].render());
        i += 1;
    }
    proof {
        assert(texts_of(out@) =~= row_text(cells_of(fields@)));
    }
    out
}

/// Renders the names of `headings` as the header of a table shows them.
pub fn render_header(headings: &Vec<Heading>) -> (out: Vec<Vec<u8>>)
    ensures
        texts_of(out@) == header_text(columns_of(headings@)),
{
    let mut out: Vec<Vec<u8>> = Vec::new();
    let mut i: usize = 0;
    while i < headings.len()
        invariant
            i <= headings@.len(),
            out@.len() == i,
            forall|k: int| 0 <= k < i ==> (#[trigger] out@[k])@ == encode_utf8(headings@[k].name@),
        decreases headings@.len() - i,
    {
        out.push(headings[i].name.as_bytes_vec());
        i += 1;
    }
    proof {
        assert(texts_of(out@) =~= header_text(columns_of(headings@)));
    }
    out
}

} // verus!
