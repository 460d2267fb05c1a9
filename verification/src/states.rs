//! The Indian state reference data and its lookups.
//!
//! The indian_states table is read-only for this store: the schema
//! script seeds it with the GST state codes, and the operations list the
//! active rows name-ordered or look one up by its two-digit code.

use vstd::prelude::*;
use vstd::string::StringExecFns;
use crate::cells::{
    bool_cell, cell_bool, cell_i64, cell_text, cells_v, is_flag_cell, is_i64_cell, text_of, Cell,
    CellV,
};
use crate::error::ApiError;
use crate::store::{db_err, row_cells, Database};
use crate::strutil::lex_leq;

verus! {

/// One Indian state or union territory, with its GST state code.
#[derive(Debug, Clone)]
pub struct IndianState {
    pub id: Option<i64>,
    pub state_code: String,
    pub state_name: String,
    pub is_union_territory: bool,
    pub is_active: bool,
}

/// The data of one indian_states row.
#[verifier::ext_equal]
pub struct StateRec {
    pub state_code: Seq<char>,
    pub state_name: Seq<char>,
    pub is_union_territory: bool,
    pub is_active: bool,
}

/// The row data a state value carries.
pub open spec fn strec_of(s: IndianState) -> StateRec {
    StateRec {
        state_code: s.state_code@,
        state_name: s.state_name@,
        is_union_territory: s.is_union_territory,
        is_active: s.is_active,
    }
}

/// The indian_states table: row id to row data.
pub uninterp spec fn states_of(db: Database) -> Map<i64, StateRec>;

/// `cells` encodes some row of `m` carrying the state code `code`.
pub open spec fn state_code_cells(m: Map<i64, StateRec>, cells: Seq<CellV>, code: Seq<char>) -> bool {
    exists|id: i64|
        #[trigger] m.contains_key(id) && cells == state_cells(id, m[id]) && m[id].state_code
            == code
}

/// No row of `m` carries the state code `code`.
pub open spec fn no_state_with_code(m: Map<i64, StateRec>, code: Seq<char>) -> bool {
    forall|id: i64| #[trigger] m.contains_key(id) ==> m[id].state_code != code
}

/// Some row of `m` carries the state code `code`.
pub open spec fn state_code_present(m: Map<i64, StateRec>, code: Seq<char>) -> bool {
    exists|id: i64| #[trigger] m.contains_key(id) && m[id].state_code == code
}

/// Every GST state code the schema script seeds has a row in `m`.
pub open spec fn seeded_states_present(m: Map<i64, StateRec>) -> bool {
    &&& state_code_present(m, "01"@)
    &&& state_code_present(m, "02"@)
    &&& state_code_present(m, "03"@)
    &&& state_code_present(m, "04"@)
    &&& state_code_present(m, "05"@)
    &&& state_code_present(m, "06"@)
    &&& state_code_present(m, "07"@)
    &&& state_code_present(m, "08"@)
    &&& state_code_present(m, "09"@)
    &&& state_code_present(m, "10"@)
    &&& state_code_present(m, "11"@)
    &&& state_code_present(m, "12"@)
    &&& state_code_present(m, "13"@)
    &&& state_code_present(m, "14"@)
    &&& state_code_present(m, "15"@)
    &&& state_code_present(m, "16"@)
    &&& state_code_present(m, "17"@)
    &&& state_code_present(m, "18"@)
    &&& state_code_present(m, "19"@)
    &&& state_code_present(m, "20"@)
    &&& state_code_present(m, "21"@)
    &&& state_code_present(m, "22"@)
    &&& state_code_present(m, "23"@)
    &&& state_code_present(m, "24"@)
    &&& state_code_present(m, "26"@)
    &&& state_code_present(m, "27"@)
    &&& state_code_present(m, "29"@)
    &&& state_code_present(m, "30"@)
    &&& state_code_present(m, "31"@)
    &&& state_code_present(m, "32"@)
    &&& state_code_present(m, "33"@)
    &&& state_code_present(m, "34"@)
    &&& state_code_present(m, "35"@)
    &&& state_code_present(m, "36"@)
    &&& state_code_present(m, "37"@)
    &&& state_code_present(m, "38"@)
}

/// The cells of one indian_states row in column order, id first.
pub open spec fn state_cells(id: i64, d: StateRec) -> Seq<CellV> {
    seq![
        CellV::Int(id as int),
        CellV::Text(d.state_code),
        CellV::Text(d.state_name),
        bool_cell(d.is_union_territory),
        bool_cell(d.is_active),
    ]
}

/// The shape a cell row must have to decode as an indian_states row.
pub open spec fn state_has_shape(s: Seq<CellV>) -> bool {
    &&& s.len() == 5
    &&& is_i64_cell(s[0])
    &&& s[1] is Text
    &&& s[2] is Text
    &&& is_flag_cell(s[3])
    &&& is_flag_cell(s[4])
}

/// Row encodings are injective: equal cell rows come from the same id
/// and the same data.
pub proof fn lemma_state_cells_injective(a: i64, x: StateRec, b: i64, y: StateRec)
    requires
        state_cells(a, x) == state_cells(b, y),
    ensures
        a == b,
        x == y,
{
    let s = state_cells(a, x);
    let t = state_cells(b, y);
    assert(s[0] == t[0]);
    assert(s[1] == t[1]);
    assert(s[2] == t[2]);
    assert(s[3] == t[3]);
    assert(s[4] == t[4]);
    assert(x =~= y);
}

/// Decodes one result row into a state value. Succeeds exactly on rows
/// of the indian_states shape, and then returns the one value whose
/// encoding the row is.
pub fn state_from_cells(cells: &Vec<Cell>) -> (r: Option<IndianState>)
    ensures
        match r {
            Some(s) => s.id matches Some(i) && cells_v(cells@) == state_cells(i, strec_of(s)),
            None => !state_has_shape(cells_v(cells@)),
        },
{
    proof {
        assert(forall|k: int| 0 <= k < cells@.len() ==> cells_v(cells@)[k] == (
        #[trigger] cells@[k])@);
    }
    if cells.len() != 5 {
        return None;
    }
    let id = match cell_i64(&cells[0]) {
        Some(x) => x,
        None => {
            return None;
        },
    };
    let state_code = match cell_text(&cells[1]) {
        Some(x) => x,
        None => {
            return None;
        },
    };
    let state_name = match cell_text(&cells[2]) {
        Some(x) => x,
        None => {
            return None;
        },
    };
    let is_union_territory = match cell_bool(&cells[3]) {
        Some(x) => x,
        None => {
            return None;
        },
    };
    let is_active = match cell_bool(&cells[4]) {
        Some(x) => x,
        None => {
            return None;
        },
    };
    let s = IndianState { id: Some(id), state_code, state_name, is_union_territory, is_active };
    proof {
        assert(cells_v(cells@) =~= state_cells(id, strec_of(s)));
    }
    Some(s)
}

/// A decoded state stands for a row of the model.
pub open spec fn state_listed(m: Map<i64, StateRec>, s: IndianState) -> bool {
    s.id matches Some(id) && m.contains_key(id) && m[id] == strec_of(s)
}

/// One decoded state against the result row it came from.
pub open spec fn state_entry(s: IndianState, row: Vec<Cell>) -> bool {
    s.id matches Some(id) && cells_v(row@) == state_cells(id, strec_of(s))
}

/// The result row stands for some active row of the model.
pub open spec fn state_row_of(m: Map<i64, StateRec>, row: Vec<Cell>) -> bool {
    exists|id: i64|
        #[trigger] m.contains_key(id) && cells_v(row@) == state_cells(id, m[id])
            && m[id].is_active
}

/// What the state listing returns: the active rows of the model,
/// name-ordered, all of them.
#[verifier::opaque]
pub open spec fn state_rows_ok(db: Database, rows: Seq<Vec<Cell>>) -> bool {
    let m = states_of(db);
    &&& forall|i: int| 0 <= i < rows.len() ==> state_row_of(m, #[trigger] rows[i])
    &&& forall|i: int, j: int|
        0 <= i < j < rows.len() ==> lex_leq(
            text_of(cells_v(rows[i]@)[2]),
            text_of(cells_v(rows[j]@)[2]),
        )
    &&& forall|id: i64|
        #[trigger] m.contains_key(id) && m[id].is_active ==> exists|i: int|
            0 <= i < rows.len() && cells_v((#[trigger] rows[i])@) == state_cells(id, m[id])
}

/// A decoded value standing for some modelled row is a row of the model.
proof fn lemma_srow_to_listed(m: Map<i64, StateRec>, row: Vec<Cell>, s: IndianState)
    requires
        state_row_of(m, row),
        state_entry(s, row),
    ensures
        state_listed(m, s),
        s.is_active,
{
    let id0 = choose|id: i64|
        #[trigger] m.contains_key(id) && cells_v(row@) == state_cells(id, m[id])
            && m[id].is_active;
    lemma_state_cells_injective(s.id->0, strec_of(s), id0, m[id0]);
}

/// A decoded value of a row that encodes the model entry `id` carries
/// that identity and that data.
proof fn lemma_srow_encoding_to_id(m: Map<i64, StateRec>, row: Vec<Cell>, s: IndianState, id: i64)
    requires
        m.contains_key(id),
        cells_v(row@) == state_cells(id, m[id]),
        state_entry(s, row),
    ensures
        s.id == Some(id),
        strec_of(s) == m[id],
{
    lemma_state_cells_injective(s.id->0, strec_of(s), id, m[id]);
}

/// The name column of the row a decoded value came from is its name.
proof fn lemma_sentry_name(s: IndianState, row: Vec<Cell>)
    requires
        state_entry(s, row),
    ensures
        text_of(cells_v(row@)[2]) == s.state_name@,
{
}

/// Carries the listing wrapper's guarantees over to the decoded values.
#[verifier::spinoff_prover]
proof fn lemma_states_post(db: Database, rows: Seq<Vec<Cell>>, ss: Seq<IndianState>)
    requires
        state_rows_ok(db, rows),
        ss.len() == rows.len(),
        forall|i: int| 0 <= i < ss.len() ==> state_entry(#[trigger] ss[i], rows[i]),
    ensures
        forall|i: int|
            0 <= i < ss.len() ==> state_listed(states_of(db), #[trigger] ss[i])
                && ss[i].is_active,
        forall|i: int, j: int|
            0 <= i < j < ss.len() ==> lex_leq(ss[i].state_name@, ss[j].state_name@),
        forall|id: i64|
            #[trigger] states_of(db).contains_key(id) && states_of(db)[id].is_active
                ==> exists|i: int| 0 <= i < ss.len() && (#[trigger] ss[i]).id == Some(id),
{
    reveal(state_rows_ok);
    let m = states_of(db);
    assert forall|i: int| 0 <= i < ss.len() implies state_listed(m, #[trigger] ss[i])
        && ss[i].is_active by {
        lemma_srow_to_listed(m, rows[i], ss[i]);
    }
    assert forall|i: int, j: int| 0 <= i < j < ss.len() implies lex_leq(
        ss[i].state_name@,
        ss[j].state_name@,
    ) by {
        lemma_sentry_name(ss[i], rows[i]);
        lemma_sentry_name(ss[j], rows[j]);
        assert(lex_leq(text_of(cells_v(rows[i]@)[2]), text_of(cells_v(rows[j]@)[2])));
    }
    assert forall|id: i64|
        #[trigger] m.contains_key(id) && m[id].is_active implies exists|i: int|
        0 <= i < ss.len() && (#[trigger] ss[i]).id == Some(id) by {
        let i0 = choose|i: int|
            0 <= i < rows.len() && cells_v((#[trigger] rows[i])@) == state_cells(id, m[id]);
        lemma_srow_encoding_to_id(m, rows[i0], ss[i0], id);
        assert(0 <= i0 < ss.len() && ss[i0].id == Some(id));
    }
}

impl Database {
    /// Relies on rusqlite (`prepare`, `query`, `Rows::next`) running
    /// `SELECT ... FROM indian_states WHERE is_active = 1 ORDER BY
    /// state_name ASC`: all active rows, name-ordered.
    #[verifier::external_body]
    fn q_states(&self) -> (r: Result<Vec<Vec<Cell>>, rusqlite::Error>)
        ensures
            r matches Ok(rows) ==> state_rows_ok(*self, rows@),
    {
        let mut stmt = self.conn.prepare(
            "SELECT id, state_code, state_name, is_union_territory, is_active FROM indian_states WHERE is_active = 1 ORDER BY state_name ASC",
        )?;
        let mut rows = stmt.query([])?;
        let mut out: Vec<Vec<Cell>> = Vec::new();
        while let Some(row) = rows.next()? {
            out.push(row_cells(row, 5)?);
        }
        Ok(out)
    }

    /// Relies on rusqlite (`prepare`, `query`, `Rows::next`) running
    /// `SELECT ... FROM indian_states WHERE state_code = ?1`: some row
    /// carrying that code, or nothing when no row does (the code column
    /// is unique, so at most one row can).
    #[verifier::external_body]
    fn q_state_by_code(&self, code: &str) -> (r: Result<Option<Vec<Cell>>, rusqlite::Error>)
        ensures
            r matches Ok(Some(cells)) ==> state_code_cells(states_of(*self), cells_v(cells@), code@),
            r matches Ok(None) ==> no_state_with_code(states_of(*self), code@),
    {
        let mut stmt = self.conn.prepare(
            "SELECT id, state_code, state_name, is_union_territory, is_active FROM indian_states WHERE state_code = ?1",
        )?;
        let mut rows = stmt.query((&code,))?;
        match rows.next()? {
            Some(row) => Ok(Some(row_cells(row, 5)?)),
            None => Ok(None),
        }
    }

    /// Lists the active states and union territories, name-ordered,
    /// completely.
    pub fn get_indian_states(&self) -> (r: Result<Vec<IndianState>, ApiError>)
        ensures
            r matches Err(e) ==> e.error@ == "DatabaseError"@,
            r matches Ok(ss) ==> {
                let m = states_of(*self);
                &&& forall|i: int|
                    0 <= i < ss@.len() ==> state_listed(m, #[trigger] ss@[i]) && ss@[i].is_active
                &&& forall|i: int, j: int|
                    0 <= i < j < ss@.len() ==> lex_leq(ss@[i].state_name@, ss@[j].state_name@)
                &&& forall|id: i64|
                    #[trigger] m.contains_key(id) && m[id].is_active ==> exists|i: int|
                        0 <= i < ss@.len() && (#[trigger] ss@[i]).id == Some(id)
            },
    {
        let rows = match self.q_states() {
            Ok(rs) => rs,
            Err(e) => {
                return Err(db_err(e));
            },
        };
        let ss = match states_from_rows(&rows) {
            Some(ss) => ss,
            None => {
                return Err(ApiError::database(String::from_str("malformed indian_states row")));
            },
        };
        proof {
            lemma_states_post(*self, rows@, ss@);
        }
        Ok(ss)
    }

    /// Looks a state up by its GST state code; absence is a result, not
    /// an error.
    pub fn get_state_by_code(&self, state_code: &str) -> (r: Result<Option<IndianState>, ApiError>)
        ensures
            r matches Err(e) ==> e.error@ == "DatabaseError"@,
            r matches Ok(Some(s)) ==> state_listed(states_of(*self), s) && s.state_code@
                == state_code@,
            r matches Ok(None) ==> no_state_with_code(states_of(*self), state_code@),
    {
        let cells = match self.q_state_by_code(state_code) {
            Ok(o) => o,
            Err(e) => {
                return Err(db_err(e));
            },
        };
        match cells {
            None => Ok(None),
            Some(cs) => match state_from_cells(&cs) {
                Some(s) => {
                    proof {
                        let id0 = choose|id: i64|
                            #[trigger] states_of(*self).contains_key(id) && cells_v(cs@)
                                == state_cells(id, states_of(*self)[id]) && states_of(
                                *self,
                            )[id].state_code == state_code@;
                        lemma_state_cells_injective(
                            s.id->0,
                            strec_of(s),
                            id0,
                            states_of(*self)[id0],
                        );
                    }
                    Ok(Some(s))
                },
                None => Err(
                    ApiError::database(String::from_str("malformed indian_states row")),
                ),
            },
        }
    }
}

/// Decodes a whole result set; succeeds only when every row decodes.
fn states_from_rows(rows: &Vec<Vec<Cell>>) -> (r: Option<Vec<IndianState>>)
    ensures
        r matches Some(ss) ==> ss@.len() == rows@.len() && forall|i: int|
            0 <= i < ss@.len() ==> state_entry(#[trigger] ss@[i], rows@[i]),
{
    let n = rows.len();
    let mut out: Vec<IndianState> = Vec::new();
    let mut i: usize = 0;
    while i < n
        invariant
            n == rows@.len(),
            i <= n,
            out@.len() == i,
            forall|k: int| 0 <= k < i ==> state_entry(#[trigger] out@[k], rows@[k]),
        decreases n - i,
    {
        match state_from_cells(&rows[i]) {
            Some(s) => out.push(s),
            None => {
                return None;
            },
        }
        i = i + 1;
    }
    Some(out)
}

} // verus!
