//! Customer records and their store operations.
//!
//! The customers table is modelled as a map from row id to the
//! caller-supplied row data (`CustomerRec`). Lookups return exactly the
//! modelled row, saves insert under a fresh id or update in place by id,
//! and deletes remove the row — the hard delete the store specifies for
//! customers.

use vstd::prelude::*;
use vstd::string::StringExecFns;
use crate::cells::{
    bool_cell, cell_bool, cell_i32, cell_i64, cell_opt_text, cell_text, cells_v, is_flag_cell,
    is_i32_cell, is_i64_cell, is_opt_text_cell, opt_str_view, opt_text_cell, text_of, Cell, CellV,
};
use crate::counts::invoice_items_of;
use crate::error::ApiError;
use crate::products::products_of;
use crate::settings::settings_of;
use crate::states::states_of;
use crate::store::{db_err, invoices_of, max_int, min_int, row_cells, Database};
use crate::strutil::{contains_seq, lex_leq, plain_query, upper};

verus! {

/// A customer, as callers supply and receive it. The identity is absent
/// until the first save assigns one. Monetary amounts are whole minor
/// units (paise).
#[derive(Debug, Clone)]
pub struct Customer {
    pub id: Option<i64>,
    pub customer_name: String,
    pub gstin: Option<String>,
    pub pan: Option<String>,
    pub customer_type: String,
    pub address_line1: String,
    pub address_line2: Option<String>,
    pub city: String,
    pub state: String,
    pub pincode: String,
    pub phone: Option<String>,
    pub email: Option<String>,
    pub credit_limit: i64,
    pub credit_period_days: i32,
    pub is_active: bool,
}

/// The caller-supplied data of one customers row, as the store model
/// holds it (timestamps, which the database assigns, stay outside the
/// model).
#[verifier::ext_equal]
pub struct CustomerRec {
    pub customer_name: Seq<char>,
    pub gstin: Option<Seq<char>>,
    pub pan: Option<Seq<char>>,
    pub customer_type: Seq<char>,
    pub address_line1: Seq<char>,
    pub address_line2: Option<Seq<char>>,
    pub city: Seq<char>,
    pub state: Seq<char>,
    pub pincode: Seq<char>,
    pub phone: Option<Seq<char>>,
    pub email: Option<Seq<char>>,
    pub credit_limit: int,
    pub credit_period_days: int,
    pub is_active: bool,
}

/// The row data a customer value carries.
pub open spec fn rec_of(c: Customer) -> CustomerRec {
    CustomerRec {
        customer_name: c.customer_name@,
        gstin: opt_str_view(c.gstin),
        pan: opt_str_view(c.pan),
        customer_type: c.customer_type@,
        address_line1: c.address_line1@,
        address_line2: opt_str_view(c.address_line2),
        city: c.city@,
        state: c.state@,
        pincode: c.pincode@,
        phone: opt_str_view(c.phone),
        email: opt_str_view(c.email),
        credit_limit: c.credit_limit as int,
        credit_period_days: c.credit_period_days as int,
        is_active: c.is_active,
    }
}

/// The customers table: row id to row data.
pub uninterp spec fn customers_of(db: Database) -> Map<i64, CustomerRec>;

/// The cells of one customers row in column order, id first.
pub open spec fn customer_cells(id: i64, d: CustomerRec) -> Seq<CellV> {
    seq![
        CellV::Int(id as int),
        CellV::Text(d.customer_name),
        opt_text_cell(d.gstin),
        opt_text_cell(d.pan),
        CellV::Text(d.customer_type),
        CellV::Text(d.address_line1),
        opt_text_cell(d.address_line2),
        CellV::Text(d.city),
        CellV::Text(d.state),
        CellV::Text(d.pincode),
        opt_text_cell(d.phone),
        opt_text_cell(d.email),
        CellV::Int(d.credit_limit),
        CellV::Int(d.credit_period_days),
        bool_cell(d.is_active),
    ]
}

/// The shape a cell row must have to decode as a customers row.
pub open spec fn customer_has_shape(s: Seq<CellV>) -> bool {
    &&& s.len() == 15
    &&& is_i64_cell(s[0])
    &&& s[1] is Text
    &&& is_opt_text_cell(s[2])
    &&& is_opt_text_cell(s[3])
    &&& s[4] is Text
    &&& s[5] is Text
    &&& is_opt_text_cell(s[6])
    &&& s[7] is Text
    &&& s[8] is Text
    &&& s[9] is Text
    &&& is_opt_text_cell(s[10])
    &&& is_opt_text_cell(s[11])
    &&& is_i64_cell(s[12])
    &&& is_i32_cell(s[13])
    &&& is_flag_cell(s[14])
}

/// Row encodings are injective: equal cell rows come from the same id
/// and the same data.
pub proof fn lemma_customer_cells_injective(a: i64, x: CustomerRec, b: i64, y: CustomerRec)
    requires
        customer_cells(a, x) == customer_cells(b, y),
    ensures
        a == b,
        x == y,
{
    let s = customer_cells(a, x);
    let t = customer_cells(b, y);
    assert(s[0] == t[0]);
    assert(s[1] == t[1]);
    assert(s[2] == t[2]);
    assert(s[3] == t[3]);
    assert(s[4] == t[4]);
    assert(s[5] == t[5]);
    assert(s[6] == t[6]);
    assert(s[7] == t[7]);
    assert(s[8] == t[8]);
    assert(s[9] == t[9]);
    assert(s[10] == t[10]);
    assert(s[11] == t[11]);
    assert(s[12] == t[12]);
    assert(s[13] == t[13]);
    assert(s[14] == t[14]);
    assert(x =~= y);
}

/// Decodes one result row, column by column, into a customer. Succeeds
/// exactly on rows of the customers shape, and then returns the one
/// customer whose encoding the row is.
pub fn customer_from_cells(cells: &Vec<Cell>) -> (r: Option<Customer>)
    ensures
        match r {
            Some(c) => c.id matches Some(i) && cells_v(cells@) == customer_cells(i, rec_of(c)),
            None => !customer_has_shape(cells_v(cells@)),
        },
{
    proof {
        assert(forall|k: int| 0 <= k < cells@.len() ==> cells_v(cells@)[k] == (
        #[trigger] cells@[k])@);
    }
    if cells.len() != 15 {
        return None;
    }
    let id = match cell_i64(&cells[0]) {
        Some(x) => x,
        None => {
            return None;
        },
    };
    let customer_name = match cell_text(&cells[1]) {
        Some(x) => x,
        None => {
            return None;
        },
    };
    let gstin = match cell_opt_text(&cells[2]) {
        Some(x) => x,
        None => {
            return None;
        },
    };
    let pan = match cell_opt_text(&cells[3]) {
        Some(x) => x,
        None => {
            return None;
        },
    };
    let customer_type = match cell_text(&cells[4]) {
        Some(x) => x,
        None => {
            return None;
        },
    };
    let address_line1 = match cell_text(&cells[5]) {
        Some(x) => x,
        None => {
            return None;
        },
    };
    let address_line2 = match cell_opt_text(&cells[6]) {
        Some(x) => x,
        None => {
            return None;
        },
    };
    let city = match cell_text(&cells[7]) {
        Some(x) => x,
        None => {
            return None;
        },
    };
    let state = match cell_text(&cells[8]) {
        Some(x) => x,
        None => {
            return None;
        },
    };
    let pincode = match cell_text(&cells[9]) {
        Some(x) => x,
        None => {
            return None;
        },
    };
    let phone = match cell_opt_text(&cells[10]) {
        Some(x) => x,
        None => {
            return None;
        },
    };
    let email = match cell_opt_text(&cells[11]) {
        Some(x) => x,
        None => {
            return None;
        },
    };
    let credit_limit = match cell_i64(&cells[12]) {
        Some(x) => x,
        None => {
            return None;
        },
    };
    let credit_period_days = match cell_i32(&cells[13]) {
        Some(x) => x,
        None => {
            return None;
        },
    };
    let is_active = match cell_bool(&cells[14]) {
        Some(x) => x,
        None => {
            return None;
        },
    };
    let c = Customer {
        id: Some(id),
        customer_name,
        gstin,
        pan,
        customer_type,
        address_line1,
        address_line2,
        city,
        state,
        pincode,
        phone,
        email,
        credit_limit,
        credit_period_days,
        is_active,
    };
    proof {
        assert(cells_v(cells@) =~= customer_cells(id, rec_of(c)));
    }
    Some(c)
}

/// A decoded customer stands for a row of the model.
pub open spec fn customer_listed(m: Map<i64, CustomerRec>, c: Customer) -> bool {
    c.id matches Some(id) && m.contains_key(id) && m[id] == rec_of(c)
}

/// One decoded customer against the result row it came from.
pub open spec fn customer_entry(c: Customer, row: Vec<Cell>) -> bool {
    c.id matches Some(id) && cells_v(row@) == customer_cells(id, rec_of(c))
}

/// The result row stands for some row of the model.
pub open spec fn customer_row_of(m: Map<i64, CustomerRec>, row: Vec<Cell>) -> bool {
    exists|id: i64| #[trigger] m.contains_key(id) && cells_v(row@) == customer_cells(id, m[id])
}

/// What a customers listing returns: rows of the model, name-ordered,
/// no more than `limit`, and — when nothing was skipped or cut off —
/// all of them.
pub open spec fn customer_rows_ok(
    db: Database,
    rows: Seq<Vec<Cell>>,
    limit: int,
    offset: int,
) -> bool {
    let m = customers_of(db);
    &&& forall|i: int| 0 <= i < rows.len() ==> customer_row_of(m, #[trigger] rows[i])
    &&& limit >= 0 ==> rows.len() <= limit
    &&& m.dom().finite()
    &&& (limit >= 0 && offset >= 0) ==> rows.len() == min_int(
        limit,
        max_int(m.len() - offset, 0),
    )
    &&& forall|i: int, j: int|
        0 <= i < j < rows.len() ==> lex_leq(
            text_of(cells_v(rows[i]@)[1]),
            text_of(cells_v(rows[j]@)[1]),
        )
    &&& (offset == 0 && rows.len() < limit) ==> (forall|id: i64|
        #[trigger] m.contains_key(id) ==> exists|i: int|
            0 <= i < rows.len() && cells_v((#[trigger] rows[i])@) == customer_cells(id, m[id]))
}

/// A customers row matches a search query when some searched column —
/// name, GSTIN, phone or email — contains it, ASCII-case-insensitively.
pub open spec fn customer_matches(d: CustomerRec, q: Seq<char>) -> bool {
    ||| contains_seq(upper(d.customer_name), upper(q))
    ||| d.gstin matches Some(s) && contains_seq(upper(s), upper(q))
    ||| d.phone matches Some(s) && contains_seq(upper(s), upper(q))
    ||| d.email matches Some(s) && contains_seq(upper(s), upper(q))
}

/// What a customers search returns: rows of the model, name-ordered;
/// and, for a query without wildcard characters, exactly the matching
/// rows.
#[verifier::opaque]
pub open spec fn customer_search_ok(db: Database, rows: Seq<Vec<Cell>>, q: Seq<char>) -> bool {
    let m = customers_of(db);
    &&& forall|i: int| 0 <= i < rows.len() ==> customer_row_of(m, #[trigger] rows[i])
    &&& forall|i: int, j: int|
        0 <= i < j < rows.len() ==> lex_leq(
            text_of(cells_v(rows[i]@)[1]),
            text_of(cells_v(rows[j]@)[1]),
        )
    &&& plain_query(q) ==> (forall|i: int|
        0 <= i < rows.len() ==> exists|id: i64|
            #[trigger] m.contains_key(id) && cells_v((#[trigger] rows[i])@) == customer_cells(
                id,
                m[id],
            ) && customer_matches(m[id], q))
    &&& plain_query(q) ==> (forall|id: i64|
        #[trigger] m.contains_key(id) && customer_matches(m[id], q) ==> exists|i: int|
            0 <= i < rows.len() && cells_v((#[trigger] rows[i])@) == customer_cells(id, m[id]))
}

/// The default page size when a listing is asked for without one.
pub open spec fn eff_limit(l: Option<i32>) -> int {
    match l {
        Option::Some(x) => x as int,
        Option::None => 100,
    }
}

/// The default offset when a listing is asked for without one.
pub open spec fn eff_offset(o: Option<i32>) -> int {
    match o {
        Option::Some(x) => x as int,
        Option::None => 0,
    }
}

/// A decoded value standing for some modelled row is a row of the model.
proof fn lemma_row_to_listed(m: Map<i64, CustomerRec>, row: Vec<Cell>, c: Customer)
    requires
        customer_row_of(m, row),
        customer_entry(c, row),
    ensures
        customer_listed(m, c),
{
    let id0 = choose|id: i64|
        #[trigger] m.contains_key(id) && cells_v(row@) == customer_cells(id, m[id]);
    lemma_customer_cells_injective(c.id->0, rec_of(c), id0, m[id0]);
}

/// A decoded value of a row that encodes the model entry `id` carries
/// that identity and that data.
proof fn lemma_row_encoding_to_id(m: Map<i64, CustomerRec>, row: Vec<Cell>, c: Customer, id: i64)
    requires
        m.contains_key(id),
        cells_v(row@) == customer_cells(id, m[id]),
        customer_entry(c, row),
    ensures
        c.id == Some(id),
        rec_of(c) == m[id],
{
    lemma_customer_cells_injective(c.id->0, rec_of(c), id, m[id]);
}

/// The name column of the row a decoded value came from is its name.
proof fn lemma_entry_name(c: Customer, row: Vec<Cell>)
    requires
        customer_entry(c, row),
    ensures
        text_of(cells_v(row@)[1]) == c.customer_name@,
{
}

/// Carries the search wrapper's guarantees over to the decoded values.
#[verifier::spinoff_prover]
proof fn lemma_search_post(db: Database, rows: Seq<Vec<Cell>>, cs: Seq<Customer>, q: Seq<char>)
    requires
        customer_search_ok(db, rows, q),
        cs.len() == rows.len(),
        forall|i: int| 0 <= i < cs.len() ==> customer_entry(#[trigger] cs[i], rows[i]),
    ensures
        forall|i: int| 0 <= i < cs.len() ==> customer_listed(customers_of(db), #[trigger] cs[i]),
        forall|i: int, j: int|
            0 <= i < j < cs.len() ==> lex_leq(cs[i].customer_name@, cs[j].customer_name@),
        plain_query(q) ==> (forall|i: int|
            0 <= i < cs.len() ==> customer_matches(rec_of(#[trigger] cs[i]), q)),
        plain_query(q) ==> (forall|id: i64|
            #[trigger] customers_of(db).contains_key(id) && customer_matches(
                customers_of(db)[id],
                q,
            ) ==> exists|i: int| 0 <= i < cs.len() && (#[trigger] cs[i]).id == Some(id)),
{
    reveal(customer_search_ok);
    let m = customers_of(db);
    assert forall|i: int| 0 <= i < cs.len() implies customer_listed(m, #[trigger] cs[i]) by {
        lemma_row_to_listed(m, rows[i], cs[i]);
    }
    assert forall|i: int, j: int| 0 <= i < j < cs.len() implies lex_leq(
        cs[i].customer_name@,
        cs[j].customer_name@,
    ) by {
        lemma_entry_name(cs[i], rows[i]);
        lemma_entry_name(cs[j], rows[j]);
        assert(lex_leq(text_of(cells_v(rows[i]@)[1]), text_of(cells_v(rows[j]@)[1])));
    }
    if plain_query(q) {
        assert forall|i: int| 0 <= i < cs.len() implies customer_matches(
            rec_of(#[trigger] cs[i]),
            q,
        ) by {
            let id0 = choose|id: i64|
                #[trigger] m.contains_key(id) && cells_v(rows[i]@) == customer_cells(id, m[id])
                    && customer_matches(m[id], q);
            lemma_row_encoding_to_id(m, rows[i], cs[i], id0);
        }
        assert forall|id: i64|
            #[trigger] m.contains_key(id) && customer_matches(m[id], q) implies exists|i: int|
            0 <= i < cs.len() && (#[trigger] cs[i]).id == Some(id) by {
            let i0 = choose|i: int|
                0 <= i < rows.len() && cells_v((#[trigger] rows[i])@) == customer_cells(
                    id,
                    m[id],
                );
            lemma_row_encoding_to_id(m, rows[i0], cs[i0], id);
            assert(0 <= i0 < cs.len() && cs[i0].id == Some(id));
        }
    }
}

impl Database {
    /// Relies on rusqlite (`prepare`, `query`, `Rows::next`) running
    /// `SELECT ... FROM customers WHERE id = ?1`: the row keyed `id`, or
    /// nothing when there is none.
    #[verifier::external_body]
    fn q_customer_by_id(&self, id: i64) -> (r: Result<Option<Vec<Cell>>, rusqlite::Error>)
        ensures
            r matches Ok(Some(cells)) ==> customers_of(*self).contains_key(id) && cells_v(cells@)
                == customer_cells(id, customers_of(*self)[id]),
            r matches Ok(None) ==> !customers_of(*self).contains_key(id),
    {
        let mut stmt = self.conn.prepare(
            "SELECT id, customer_name, gstin, pan, customer_type, address_line1, address_line2, city, state, pincode, phone, email, credit_limit, credit_period_days, is_active FROM customers WHERE id = ?1",
        )?;
        let mut rows = stmt.query((id,))?;
        match rows.next()? {
            Some(row) => Ok(Some(row_cells(row, 15)?)),
            None => Ok(None),
        }
    }

    /// Relies on rusqlite (`prepare`, `query`, `Rows::next`) running
    /// `SELECT ... FROM customers ORDER BY customer_name ASC LIMIT ?1
    /// OFFSET ?2`: the modelled rows, name-ordered, windowed by SQLite's
    /// LIMIT/OFFSET rules.
    #[verifier::external_body]
    fn q_customers(&self, limit: i32, offset: i32) -> (r: Result<Vec<Vec<Cell>>, rusqlite::Error>)
        ensures
            r matches Ok(rows) ==> customer_rows_ok(*self, rows@, limit as int, offset as int),
    {
        let mut stmt = self.conn.prepare(
            "SELECT id, customer_name, gstin, pan, customer_type, address_line1, address_line2, city, state, pincode, phone, email, credit_limit, credit_period_days, is_active FROM customers ORDER BY customer_name ASC LIMIT ?1 OFFSET ?2",
        )?;
        let mut rows = stmt.query((limit, offset))?;
        let mut out: Vec<Vec<Cell>> = Vec::new();
        while let Some(row) = rows.next()? {
            out.push(row_cells(row, 15)?);
        }
        Ok(out)
    }

    /// Relies on rusqlite (`prepare`, `query`, `Rows::next`) running
    /// `SELECT ... FROM customers WHERE customer_name LIKE ?1 OR gstin
    /// LIKE ?1 OR phone LIKE ?1 OR email LIKE ?1 ORDER BY customer_name
    /// ASC` with the query wrapped in `%`: LIKE is ASCII-case-insensitive
    /// substring matching when the query itself carries no wildcard.
    #[verifier::external_body]
    fn q_search_customers(&self, query: &str) -> (r: Result<Vec<Vec<Cell>>, rusqlite::Error>)
        ensures
            r matches Ok(rows) ==> customer_search_ok(*self, rows@, query@),
    {
        let pattern = format!("%{}%", query);
        let mut stmt = self.conn.prepare(
            "SELECT id, customer_name, gstin, pan, customer_type, address_line1, address_line2, city, state, pincode, phone, email, credit_limit, credit_period_days, is_active FROM customers WHERE customer_name LIKE ?1 OR gstin LIKE ?1 OR phone LIKE ?1 OR email LIKE ?1 ORDER BY customer_name ASC",
        )?;
        let mut rows = stmt.query((&pattern,))?;
        let mut out: Vec<Vec<Cell>> = Vec::new();
        while let Some(row) = rows.next()? {
            out.push(row_cells(row, 15)?);
        }
        Ok(out)
    }

    /// Relies on `Connection::execute` and `last_insert_rowid` running
    /// `INSERT INTO customers ...`: adds exactly one row holding the
    /// given values under a fresh id, which is returned.
    #[verifier::external_body]
    fn ins_customer(&mut self, c: &Customer) -> (r: Result<i64, rusqlite::Error>)
        ensures
            products_of(*final(self)) == products_of(*old(self)),
            settings_of(*final(self)) == settings_of(*old(self)),
            states_of(*final(self)) == states_of(*old(self)),
            invoices_of(*final(self)) == invoices_of(*old(self)),
            invoice_items_of(*final(self)) == invoice_items_of(*old(self)),
            r matches Ok(id) ==> !customers_of(*old(self)).contains_key(id) && customers_of(
                *final(self),
            ) == customers_of(*old(self)).insert(id, rec_of(*c)),
            r is Err ==> customers_of(*final(self)) == customers_of(*old(self)),
    {
        let r = self.conn.execute(
            "INSERT INTO customers (customer_name, gstin, pan, customer_type, address_line1, address_line2, city, state, pincode, phone, email, credit_limit, credit_period_days, is_active) VALUES (?1, ?2, ?3, ?4, ?5, ?6, ?7, ?8, ?9, ?10, ?11, ?12, ?13, ?14)",
            (&c.customer_name, &c.gstin, &c.pan, &c.customer_type, &c.address_line1,
            &c.address_line2, &c.city, &c.state, &c.pincode, &c.phone, &c.email, &c.credit_limit,
            &c.credit_period_days, &c.is_active),
        );
        match r {
            Ok(_) => Ok(self.conn.last_insert_rowid()),
            Err(e) => Err(e),
        }
    }

    /// Relies on `Connection::execute` running `UPDATE customers SET ...
    /// WHERE id = ?15`: replaces the values of the row keyed `id` when it
    /// exists (touching its update timestamp), affects no row otherwise,
    /// and returns how many rows it touched.
    #[verifier::external_body]
    fn upd_customer(&mut self, id: i64, c: &Customer) -> (r: Result<usize, rusqlite::Error>)
        ensures
            products_of(*final(self)) == products_of(*old(self)),
            settings_of(*final(self)) == settings_of(*old(self)),
            states_of(*final(self)) == states_of(*old(self)),
            invoices_of(*final(self)) == invoices_of(*old(self)),
            invoice_items_of(*final(self)) == invoice_items_of(*old(self)),
            r matches Ok(n) ==> (customers_of(*old(self)).contains_key(id) ==> n == 1
                && customers_of(*final(self)) == customers_of(*old(self)).insert(id, rec_of(*c)))
                && (!customers_of(*old(self)).contains_key(id) ==> n == 0 && customers_of(
                *final(self),
            ) == customers_of(*old(self))),
            r is Err ==> customers_of(*final(self)) == customers_of(*old(self)),
    {
        self.conn.execute(
            "UPDATE customers SET customer_name = ?1, gstin = ?2, pan = ?3, customer_type = ?4, address_line1 = ?5, address_line2 = ?6, city = ?7, state = ?8, pincode = ?9, phone = ?10, email = ?11, credit_limit = ?12, credit_period_days = ?13, is_active = ?14, updated_at = CURRENT_TIMESTAMP WHERE id = ?15",
            (&c.customer_name, &c.gstin, &c.pan, &c.customer_type, &c.address_line1,
            &c.address_line2, &c.city, &c.state, &c.pincode, &c.phone, &c.email, &c.credit_limit,
            &c.credit_period_days, &c.is_active, &id),
        )
    }

    /// Relies on `Connection::execute` running `DELETE FROM customers
    /// WHERE id = ?1`: removes the row keyed `id` when it exists and
    /// returns how many rows went (a referenced row makes the call fail
    /// instead, foreign keys being enforced).
    #[verifier::external_body]
    fn del_customer(&mut self, id: i64) -> (r: Result<usize, rusqlite::Error>)
        ensures
            products_of(*final(self)) == products_of(*old(self)),
            settings_of(*final(self)) == settings_of(*old(self)),
            states_of(*final(self)) == states_of(*old(self)),
            invoices_of(*final(self)) == invoices_of(*old(self)),
            invoice_items_of(*final(self)) == invoice_items_of(*old(self)),
            r matches Ok(n) ==> customers_of(*final(self)) == customers_of(*old(self)).remove(id)
                && n == (if customers_of(*old(self)).contains_key(id) {
                1int
            } else {
                0int
            }),
            r is Err ==> customers_of(*final(self)) == customers_of(*old(self)),
    {
        self.conn.execute("DELETE FROM customers WHERE id = ?1", (&id,))
    }

    /// Looks a customer up by id; absence is a result, not an error.
    pub fn get_customer_by_id(&self, id: i64) -> (r: Result<Option<Customer>, ApiError>)
        ensures
            r matches Err(e) ==> e.error@ == "DatabaseError"@,
            r matches Ok(Some(c)) ==> customers_of(*self).contains_key(id) && c.id == Some(id)
                && customers_of(*self)[id] == rec_of(c),
            r matches Ok(None) ==> !customers_of(*self).contains_key(id),
    {
        let cells = match self.q_customer_by_id(id) {
            Ok(o) => o,
            Err(e) => {
                return Err(db_err(e));
            },
        };
        match cells {
            None => Ok(None),
            Some(cs) => match customer_from_cells(&cs) {
                Some(c) => {
                    proof {
                        let i = c.id->0;
                        lemma_customer_cells_injective(
                            i,
                            rec_of(c),
                            id,
                            customers_of(*self)[id],
                        );
                    }
                    Ok(Some(c))
                },
                None => Err(
                    ApiError::database(String::from_str("malformed customers row")),
                ),
            },
        }
    }

    /// Lists customers, name-ordered, under the given page size and
    /// offset (defaults: 100 and 0). Every returned value is a row of
    /// the store, and when nothing was skipped or cut off, every row of
    /// the store is returned.
    pub fn get_customers(&self, limit: Option<i32>, offset: Option<i32>) -> (r: Result<
        Vec<Customer>,
        ApiError,
    >)
        ensures
            r matches Err(e) ==> e.error@ == "DatabaseError"@,
            r matches Ok(cs) ==> {
                let m = customers_of(*self);
                &&& forall|i: int| 0 <= i < cs@.len() ==> customer_listed(m, #[trigger] cs@[i])
                &&& eff_limit(limit) >= 0 ==> cs@.len() <= eff_limit(limit)
                &&& m.dom().finite()
                &&& (eff_limit(limit) >= 0 && eff_offset(offset) >= 0) ==> cs@.len() == min_int(
                    eff_limit(limit),
                    max_int(m.len() - eff_offset(offset), 0),
                )
                &&& forall|i: int, j: int|
                    0 <= i < j < cs@.len() ==> lex_leq(
                        cs@[i].customer_name@,
                        cs@[j].customer_name@,
                    )
                &&& (eff_offset(offset) == 0 && cs@.len() < eff_limit(limit)) ==> (forall|
                    id: i64,
                |
                    #[trigger] m.contains_key(id) ==> exists|i: int|
                        0 <= i < cs@.len() && (#[trigger] cs@[i]).id == Some(id))
            },
    {
        let l: i32 = match limit {
            Some(x) => x,
            None => 100,
        };
        let o: i32 = match offset {
            Some(x) => x,
            None => 0,
        };
        let rows = match self.q_customers(l, o) {
            Ok(rs) => rs,
            Err(e) => {
                return Err(db_err(e));
            },
        };
        let cs = match customers_from_rows(&rows) {
            Some(cs) => cs,
            None => {
                return Err(ApiError::database(String::from_str("malformed customers row")));
            },
        };
        proof {
            let m = customers_of(*self);
            assert forall|i: int| 0 <= i < cs@.len() implies customer_listed(
                m,
                #[trigger] cs@[i],
            ) by {
                lemma_row_to_listed(m, rows@[i], cs@[i]);
            }
            assert forall|i: int, j: int| 0 <= i < j < cs@.len() implies lex_leq(
                cs@[i].customer_name@,
                cs@[j].customer_name@,
            ) by {
                lemma_entry_name(cs@[i], rows@[i]);
                lemma_entry_name(cs@[j], rows@[j]);
                assert(lex_leq(
                    text_of(cells_v(rows@[i]@)[1]),
                    text_of(cells_v(rows@[j]@)[1]),
                ));
            }
            if eff_offset(offset) == 0 && cs@.len() < eff_limit(limit) {
                assert forall|id: i64| #[trigger] m.contains_key(id) implies exists|i: int|
                    0 <= i < cs@.len() && (#[trigger] cs@[i]).id == Some(id) by {
                    let i0 = choose|i: int|
                        0 <= i < rows@.len() && cells_v((#[trigger] rows@[i])@)
                            == customer_cells(id, m[id]);
                    lemma_row_encoding_to_id(m, rows@[i0], cs@[i0], id);
                    assert(0 <= i0 < cs@.len() && cs@[i0].id == Some(id));
                }
            }
        }
        Ok(cs)
    }

    /// Searches customers by name, GSTIN, phone or email substring,
    /// ASCII-case-insensitively, name-ordered, without pagination. For a
    /// query without wildcard characters the result is exactly the
    /// matching rows.
    #[verifier::spinoff_prover]
    #[verifier::rlimit(30)]
    pub fn search_customers(&self, query: &str) -> (r: Result<Vec<Customer>, ApiError>)
        ensures
            r matches Err(e) ==> e.error@ == "DatabaseError"@,
            r matches Ok(cs) ==> {
                let m = customers_of(*self);
                &&& forall|i: int| 0 <= i < cs@.len() ==> customer_listed(m, #[trigger] cs@[i])
                &&& forall|i: int, j: int|
                    0 <= i < j < cs@.len() ==> lex_leq(
                        cs@[i].customer_name@,
                        cs@[j].customer_name@,
                    )
                &&& plain_query(query@) ==> (forall|i: int|
                    0 <= i < cs@.len() ==> customer_matches(rec_of(#[trigger] cs@[i]), query@))
                &&& plain_query(query@) ==> (forall|id: i64|
                    #[trigger] m.contains_key(id) && customer_matches(m[id], query@)
                        ==> exists|i: int|
                        0 <= i < cs@.len() && (#[trigger] cs@[i]).id == Some(id))
            },
    {
        let rows = match self.q_search_customers(query) {
            Ok(rs) => rs,
            Err(e) => {
                return Err(db_err(e));
            },
        };
        let cs = match customers_from_rows(&rows) {
            Some(cs) => cs,
            None => {
                return Err(ApiError::database(String::from_str("malformed customers row")));
            },
        };
        proof {
            lemma_search_post(*self, rows@, cs@, query@);
        }
        Ok(cs)
    }

    /// Saves a customer: inserts under a fresh identity when none is
    /// present, updates the row in place when one is, and returns the
    /// identity either way. An update of an absent identity changes
    /// nothing.
    pub fn save_customer(&mut self, c: &Customer) -> (r: Result<i64, ApiError>)
        ensures
            products_of(*final(self)) == products_of(*old(self)),
            settings_of(*final(self)) == settings_of(*old(self)),
            states_of(*final(self)) == states_of(*old(self)),
            invoices_of(*final(self)) == invoices_of(*old(self)),
            invoice_items_of(*final(self)) == invoice_items_of(*old(self)),
            r matches Err(e) ==> e.error@ == "DatabaseError"@,
            r matches Ok(id) ==> match c.id {
                Some(cid) => id == cid && (customers_of(*old(self)).contains_key(cid)
                    ==> customers_of(*final(self)) == customers_of(*old(self)).insert(
                    cid,
                    rec_of(*c),
                )) && (!customers_of(*old(self)).contains_key(cid) ==> customers_of(
                    *final(self),
                ) == customers_of(*old(self))),
                None => !customers_of(*old(self)).contains_key(id) && customers_of(*final(self))
                    == customers_of(*old(self)).insert(id, rec_of(*c)),
            },
            r is Err ==> customers_of(*final(self)) == customers_of(*old(self)),
    {
        match c.id {
            Some(cid) => match self.upd_customer(cid, c) {
                Ok(_) => Ok(cid),
                Err(e) => Err(db_err(e)),
            },
            None => match self.ins_customer(c) {
                Ok(id) => Ok(id),
                Err(e) => Err(db_err(e)),
            },
        }
    }

    /// Deletes a customer by id — a hard delete: the row is removed.
    /// Returns whether a row was actually removed; deleting an absent id
    /// is a `false`, not an error.
    pub fn delete_customer(&mut self, id: i64) -> (r: Result<bool, ApiError>)
        ensures
            products_of(*final(self)) == products_of(*old(self)),
            settings_of(*final(self)) == settings_of(*old(self)),
            states_of(*final(self)) == states_of(*old(self)),
            invoices_of(*final(self)) == invoices_of(*old(self)),
            invoice_items_of(*final(self)) == invoice_items_of(*old(self)),
            r matches Err(e) ==> e.error@ == "DatabaseError"@,
            r matches Ok(b) ==> customers_of(*final(self)) == customers_of(*old(self)).remove(id)
                && b == customers_of(*old(self)).contains_key(id),
            r is Err ==> customers_of(*final(self)) == customers_of(*old(self)),
    {
        match self.del_customer(id) {
            Ok(n) => Ok(n > 0),
            Err(e) => Err(db_err(e)),
        }
    }
}

/// Decodes a whole result set; succeeds only when every row decodes.
fn customers_from_rows(rows: &Vec<Vec<Cell>>) -> (r: Option<Vec<Customer>>)
    ensures
        r matches Some(cs) ==> cs@.len() == rows@.len() && forall|i: int|
            0 <= i < cs@.len() ==> customer_entry(#[trigger] cs@[i], rows@[i]),
{
    let n = rows.len();
    let mut out: Vec<Customer> = Vec::new();
    let mut i: usize = 0;
    while i < n
        invariant
            n == rows@.len(),
            i <= n,
            out@.len() == i,
            forall|k: int| 0 <= k < i ==> customer_entry(#[trigger] out@[k], rows@[k]),
        decreases n - i,
    {
        match customer_from_cells(&rows[i]) {
            Some(c) => out.push(c),
            None => {
                return None;
            },
        }
        i = i + 1;
    }
    Some(out)
}

/// Saving a record that carries no identity stores it under a fresh key;
/// saving again under that key replaces the same row in place, keeps the
/// key set unchanged, and a lookup then finds the latest data. This is
/// the save rule the customer, product and settings operations'
/// contracts state, read at the level of the table model, whatever row
/// data the table holds.
pub proof fn lemma_save_assigns_stable_identity<V>(m: Map<i64, V>, id: i64, d1: V, d2: V)
    requires
        !m.contains_key(id),
    ensures
        m.insert(id, d1).contains_key(id),
        m.insert(id, d1)[id] == d1,
        m.insert(id, d1).insert(id, d2)[id] == d2,
        m.insert(id, d1).insert(id, d2).dom() == m.insert(id, d1).dom(),
{
    assert(m.insert(id, d1).insert(id, d2).dom() =~= m.insert(id, d1).dom());
}

/// Deleting a customer removes the row: a lookup under that identity
/// after the delete finds nothing. This is the hard-delete rule the
/// customer operations' contracts state, read at the level of the table
/// model.
pub proof fn lemma_delete_removes_customer(m: Map<i64, CustomerRec>, id: i64)
    ensures
        !m.remove(id).contains_key(id),
{
}

/// Search matching is case-insensitive: a query and its upper-cased form
/// match exactly the same rows.
pub proof fn lemma_search_case_insensitive(d: CustomerRec, q: Seq<char>)
    ensures
        customer_matches(d, q) == customer_matches(d, upper(q)),
{
    crate::strutil::lemma_upper_idempotent(q);
}

/// Search matches substrings anywhere in a column, not only prefixes: a
/// name that carries the query in its middle matches, whatever stands
/// around it.
pub proof fn lemma_search_matches_infix(
    d: CustomerRec,
    a: Seq<char>,
    q: Seq<char>,
    b: Seq<char>,
)
    requires
        d.customer_name == a + q + b,
    ensures
        customer_matches(d, q),
{
    crate::strutil::lemma_upper_concat(a, q);
    crate::strutil::lemma_upper_concat(a + q, b);
    crate::strutil::lemma_contains_infix(upper(a), upper(q), upper(b));
    assert(upper(a + q + b) == upper(a) + upper(q) + upper(b));
}

} // verus!
