//! Plain-value representation of one column of one database row.
//!
//! The trusted query wrappers hand every result row out as a vector of
//! `Cell`s; everything after that — positional decoding into entities,
//! type checks, error reporting — is verified code over these values.

use vstd::prelude::*;

verus! {

/// One column value as SQLite hands it back: an integer, a text value,
/// NULL, or something the store never writes (a real or a blob).
#[derive(Debug, Clone)]
pub enum Cell {
    Null,
    Int(i64),
    Text(String),
    Other,
}

/// The mathematical value of a cell.
pub enum CellV {
    Null,
    Int(int),
    Text(Seq<char>),
    Other,
}

impl View for Cell {
    type V = CellV;

    open spec fn view(&self) -> CellV {
        match self {
            Cell::Null => CellV::Null,
            Cell::Int(x) => CellV::Int(*x as int),
            Cell::Text(s) => CellV::Text(s@),
            Cell::Other => CellV::Other,
        }
    }
}

/// The values of a whole row of cells.
pub open spec fn cells_v(s: Seq<Cell>) -> Seq<CellV> {
    s.map_values(|c: Cell| c@)
}

/// The cell an optional text value is stored as: its text, or NULL.
pub open spec fn opt_text_cell(o: Option<Seq<char>>) -> CellV {
    match o {
        Option::Some(s) => CellV::Text(s),
        Option::None => CellV::Null,
    }
}

/// The cell a flag is stored as: integer one or zero.
pub open spec fn bool_cell(b: bool) -> CellV {
    CellV::Int(
        if b {
            1
        } else {
            0
        },
    )
}

/// The text a cell carries (the empty sequence when it is not text).
pub open spec fn text_of(c: CellV) -> Seq<char> {
    match c {
        CellV::Text(s) => s,
        _ => Seq::empty(),
    }
}

/// The value of an optional owned string.
pub open spec fn opt_str_view(o: Option<String>) -> Option<Seq<char>> {
    match o {
        Option::Some(s) => Option::Some(s@),
        Option::None => Option::None,
    }
}

/// A cell holding an integer in the 64-bit signed range.
pub open spec fn is_i64_cell(c: CellV) -> bool {
    c matches CellV::Int(v) && i64::MIN <= v <= i64::MAX
}

/// A cell holding an integer in the 32-bit signed range.
pub open spec fn is_i32_cell(c: CellV) -> bool {
    c matches CellV::Int(v) && i32::MIN <= v <= i32::MAX
}

/// A cell a nullable text column can hold.
pub open spec fn is_opt_text_cell(c: CellV) -> bool {
    c is Text || c is Null
}

/// A cell a flag column can hold: integer one or zero.
pub open spec fn is_flag_cell(c: CellV) -> bool {
    c == bool_cell(true) || c == bool_cell(false)
}

/// Reads an integer cell.
pub fn cell_i64(c: &Cell) -> (r: Option<i64>)
    ensures
        match r {
            Some(x) => c@ == CellV::Int(x as int),
            None => !(c@ is Int),
        },
{
    match c {
        Cell::Int(x) => Some(*x),
        _ => None,
    }
}

/// Reads an integer cell that must fit a 32-bit value.
pub fn cell_i32(c: &Cell) -> (r: Option<i32>)
    ensures
        match r {
            Some(x) => c@ == CellV::Int(x as int),
            None => !(c@ matches CellV::Int(v) && i32::MIN <= v <= i32::MAX),
        },
{
    match c {
        Cell::Int(x) => {
            if i32::MIN as i64 <= *x && *x <= i32::MAX as i64 {
                Some(*x as i32)
            } else {
                None
            }
        },
        _ => None,
    }
}

/// Reads a text cell.
pub fn cell_text(c: &Cell) -> (r: Option<String>)
    ensures
        match r {
            Some(s) => c@ == CellV::Text(s@),
            None => !(c@ is Text),
        },
{
    match c {
        Cell::Text(s) => Some(s.clone()),
        _ => None,
    }
}

/// Reads a nullable text cell.
pub fn cell_opt_text(c: &Cell) -> (r: Option<Option<String>>)
    ensures
        match r {
            Some(o) => c@ == opt_text_cell(
                match o {
                    Option::Some(s) => Option::Some(s@),
                    Option::None => Option::None,
                },
            ),
            None => !(c@ is Text) && !(c@ is Null),
        },
{
    match c {
        Cell::Text(s) => Some(Some(s.clone())),
        Cell::Null => Some(None),
        _ => None,
    }
}

/// Reads a flag cell: the store writes flags as integer one or zero.
pub fn cell_bool(c: &Cell) -> (r: Option<bool>)
    ensures
        match r {
            Some(b) => c@ == bool_cell(b),
            None => c@ != bool_cell(true) && c@ != bool_cell(false),
        },
{
    match c {
        Cell::Int(x) => {
            if *x == 0 {
                Some(false)
            } else if *x == 1 {
                Some(true)
            } else {
                None
            }
        },
        _ => None,
    }
}

} // verus!
