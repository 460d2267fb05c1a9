//! Product records and their store operations.
//!
//! The products table is modelled as a map from row id to the
//! caller-supplied row data (`ProductRec`). Deleting a product is a soft
//! delete — the row stays, its active flag drops — and the listing and
//! search operations return active rows only, so historical invoice
//! lines keep a row to refer to.

use vstd::prelude::*;
use vstd::string::StringExecFns;
use crate::cells::{
    bool_cell, cell_bool, cell_i64, cell_opt_text, cell_text, cells_v, is_flag_cell, is_i64_cell,
    is_opt_text_cell, opt_str_view, opt_text_cell, text_of, Cell, CellV,
};
use crate::counts::invoice_items_of;
use crate::error::ApiError;
use crate::settings::settings_of;
use crate::states::states_of;
use crate::store::{db_err, invoices_of, max_int, min_int, row_cells, Database};
use crate::strutil::{contains_seq, lex_leq, plain_query, upper};
use crate::customers::{customers_of, eff_limit, eff_offset};

verus! {

/// A product, as callers supply and receive it. The identity is absent
/// until the first save assigns one. The rate is whole minor units
/// (paise); the GST and cess rates are basis points.
#[derive(Debug, Clone)]
pub struct Product {
    pub id: Option<i64>,
    pub product_code: String,
    pub product_name: String,
    pub description: Option<String>,
    pub hsn_sac_code: String,
    pub product_type: String,
    pub unit_of_measurement: String,
    pub rate: i64,
    pub gst_rate: i64,
    pub cess_rate: i64,
    pub is_active: bool,
}

/// The caller-supplied data of one products row, as the store model
/// holds it.
#[verifier::ext_equal]
pub struct ProductRec {
    pub product_code: Seq<char>,
    pub product_name: Seq<char>,
    pub description: Option<Seq<char>>,
    pub hsn_sac_code: Seq<char>,
    pub product_type: Seq<char>,
    pub unit_of_measurement: Seq<char>,
    pub rate: int,
    pub gst_rate: int,
    pub cess_rate: int,
    pub is_active: bool,
}

/// The row data a product value carries.
pub open spec fn prec_of(p: Product) -> ProductRec {
    ProductRec {
        product_code: p.product_code@,
        product_name: p.product_name@,
        description: opt_str_view(p.description),
        hsn_sac_code: p.hsn_sac_code@,
        product_type: p.product_type@,
        unit_of_measurement: p.unit_of_measurement@,
        rate: p.rate as int,
        gst_rate: p.gst_rate as int,
        cess_rate: p.cess_rate as int,
        is_active: p.is_active,
    }
}

/// The same row with its active flag dropped: what a soft delete leaves.
pub open spec fn deactivated(d: ProductRec) -> ProductRec {
    ProductRec { is_active: false, ..d }
}

/// The products table: row id to row data.
pub uninterp spec fn products_of(db: Database) -> Map<i64, ProductRec>;

/// How many rows of `m` are active.
pub open spec fn active_product_count(m: Map<i64, ProductRec>) -> int {
    m.dom().filter(|id: i64| m[id].is_active).len() as int
}

/// The cells of one products row in column order, id first.
pub open spec fn product_cells(id: i64, d: ProductRec) -> Seq<CellV> {
    seq![
        CellV::Int(id as int),
        CellV::Text(d.product_code),
        CellV::Text(d.product_name),
        opt_text_cell(d.description),
        CellV::Text(d.hsn_sac_code),
        CellV::Text(d.product_type),
        CellV::Text(d.unit_of_measurement),
        CellV::Int(d.rate),
        CellV::Int(d.gst_rate),
        CellV::Int(d.cess_rate),
        bool_cell(d.is_active),
    ]
}

/// The shape a cell row must have to decode as a products row.
pub open spec fn product_has_shape(s: Seq<CellV>) -> bool {
    &&& s.len() == 11
    &&& is_i64_cell(s[0])
    &&& s[1] is Text
    &&& s[2] is Text
    &&& is_opt_text_cell(s[3])
    &&& s[4] is Text
    &&& s[5] is Text
    &&& s[6] is Text
    &&& is_i64_cell(s[7])
    &&& is_i64_cell(s[8])
    &&& is_i64_cell(s[9])
    &&& is_flag_cell(s[10])
}

/// Row encodings are injective: equal cell rows come from the same id
/// and the same data.
pub proof fn lemma_product_cells_injective(a: i64, x: ProductRec, b: i64, y: ProductRec)
    requires
        product_cells(a, x) == product_cells(b, y),
    ensures
        a == b,
        x == y,
{
    let s = product_cells(a, x);
    let t = product_cells(b, y);
    assert(s[0] == t[0]);
    assert(s[1] == t[1]);
    assert(s[2] == t[2]);
    assert(s[3] == t[3]);
    assert(s[4] == t[4]);
    assert(s[5] == t[5]);
    assert(s[6] == t[6]);
    assert(s[7] == t[7]);
    assert(s[8] == t[8]);
    assert(s[9] == t[9]);
    assert(s[10] == t[10]);
    assert(x =~= y);
}

/// Decodes one result row, column by column, into a product. Succeeds
/// exactly on rows of the products shape, and then returns the one
/// product whose encoding the row is.
pub fn product_from_cells(cells: &Vec<Cell>) -> (r: Option<Product>)
    ensures
        match r {
            Some(p) => p.id matches Some(i) && cells_v(cells@) == product_cells(i, prec_of(p)),
            None => !product_has_shape(cells_v(cells@)),
        },
{
    proof {
        assert(forall|k: int| 0 <= k < cells@.len() ==> cells_v(cells@)[k] == (
        #[trigger] cells@[k])@);
    }
    if cells.len() != 11 {
        return None;
    }
    let id = match cell_i64(&cells[0]) {
        Some(x) => x,
        None => {
            return None;
        },
    };
    let product_code = match cell_text(&cells[1]) {
        Some(x) => x,
        None => {
            return None;
        },
    };
    let product_name = match cell_text(&cells[2]) {
        Some(x) => x,
        None => {
            return None;
        },
    };
    let description = match cell_opt_text(&cells[3]) {
        Some(x) => x,
        None => {
            return None;
        },
    };
    let hsn_sac_code = match cell_text(&cells[4]) {
        Some(x) => x,
        None => {
            return None;
        },
    };
    let product_type = match cell_text(&cells[5]) {
        Some(x) => x,
        None => {
            return None;
        },
    };
    let unit_of_measurement = match cell_text(&cells[6]) {
        Some(x) => x,
        None => {
            return None;
        },
    };
    let rate = match cell_i64(&cells[7]) {
        Some(x) => x,
        None => {
            return None;
        },
    };
    let gst_rate = match cell_i64(&cells[8]) {
        Some(x) => x,
        None => {
            return None;
        },
    };
    let cess_rate = match cell_i64(&cells[9]) {
        Some(x) => x,
        None => {
            return None;
        },
    };
    let is_active = match cell_bool(&cells[10]) {
        Some(x) => x,
        None => {
            return None;
        },
    };
    let p = Product {
        id: Some(id),
        product_code,
        product_name,
        description,
        hsn_sac_code,
        product_type,
        unit_of_measurement,
        rate,
        gst_rate,
        cess_rate,
        is_active,
    };
    proof {
        assert(cells_v(cells@) =~= product_cells(id, prec_of(p)));
    }
    Some(p)
}

/// A decoded product stands for an active row of the model.
pub open spec fn product_listed(m: Map<i64, ProductRec>, p: Product) -> bool {
    p.id matches Some(id) && m.contains_key(id) && m[id] == prec_of(p)
}

/// One decoded product against the result row it came from.
pub open spec fn product_entry(p: Product, row: Vec<Cell>) -> bool {
    p.id matches Some(id) && cells_v(row@) == product_cells(id, prec_of(p))
}

/// The result row stands for some active row of the model.
pub open spec fn product_row_of(m: Map<i64, ProductRec>, row: Vec<Cell>) -> bool {
    exists|id: i64|
        #[trigger] m.contains_key(id) && cells_v(row@) == product_cells(id, m[id])
            && m[id].is_active
}

/// What a products listing returns: active rows of the model,
/// name-ordered, no more than `limit`, and — when nothing was skipped or
/// cut off — all active rows.
#[verifier::opaque]
pub open spec fn product_rows_ok(
    db: Database,
    rows: Seq<Vec<Cell>>,
    limit: int,
    offset: int,
) -> bool {
    let m = products_of(db);
    &&& forall|i: int| 0 <= i < rows.len() ==> product_row_of(m, #[trigger] rows[i])
    &&& limit >= 0 ==> rows.len() <= limit
    &&& m.dom().finite()
    &&& (limit >= 0 && offset >= 0) ==> rows.len() == min_int(
        limit,
        max_int(active_product_count(m) - offset, 0),
    )
    &&& forall|i: int, j: int|
        0 <= i < j < rows.len() ==> lex_leq(
            text_of(cells_v(rows[i]@)[2]),
            text_of(cells_v(rows[j]@)[2]),
        )
    &&& (offset == 0 && rows.len() < limit) ==> (forall|id: i64|
        #[trigger] m.contains_key(id) && m[id].is_active ==> exists|i: int|
            0 <= i < rows.len() && cells_v((#[trigger] rows[i])@) == product_cells(id, m[id]))
}

/// A products row matches a search query when its name, code or HSN/SAC
/// code contains it, ASCII-case-insensitively.
pub open spec fn product_matches(d: ProductRec, q: Seq<char>) -> bool {
    ||| contains_seq(upper(d.product_name), upper(q))
    ||| contains_seq(upper(d.product_code), upper(q))
    ||| contains_seq(upper(d.hsn_sac_code), upper(q))
}

/// What a products search returns: active rows of the model,
/// name-ordered; and, for a query without wildcard characters, exactly
/// the matching active rows.
#[verifier::opaque]
pub open spec fn product_search_ok(db: Database, rows: Seq<Vec<Cell>>, q: Seq<char>) -> bool {
    let m = products_of(db);
    &&& forall|i: int| 0 <= i < rows.len() ==> product_row_of(m, #[trigger] rows[i])
    &&& forall|i: int, j: int|
        0 <= i < j < rows.len() ==> lex_leq(
            text_of(cells_v(rows[i]@)[2]),
            text_of(cells_v(rows[j]@)[2]),
        )
    &&& plain_query(q) ==> (forall|i: int|
        0 <= i < rows.len() ==> exists|id: i64|
            #[trigger] m.contains_key(id) && cells_v((#[trigger] rows[i])@) == product_cells(
                id,
                m[id],
            ) && product_matches(m[id], q))
    &&& plain_query(q) ==> (forall|id: i64|
        #[trigger] m.contains_key(id) && m[id].is_active && product_matches(m[id], q)
            ==> exists|i: int|
            0 <= i < rows.len() && cells_v((#[trigger] rows[i])@) == product_cells(id, m[id]))
}

/// A decoded value standing for some modelled row is a row of the model.
proof fn lemma_prow_to_listed(m: Map<i64, ProductRec>, row: Vec<Cell>, p: Product)
    requires
        product_row_of(m, row),
        product_entry(p, row),
    ensures
        product_listed(m, p),
        p.is_active,
{
    let id0 = choose|id: i64|
        #[trigger] m.contains_key(id) && cells_v(row@) == product_cells(id, m[id])
            && m[id].is_active;
    lemma_product_cells_injective(p.id->0, prec_of(p), id0, m[id0]);
}

/// A decoded value of a row that encodes the model entry `id` carries
/// that identity and that data.
proof fn lemma_prow_encoding_to_id(m: Map<i64, ProductRec>, row: Vec<Cell>, p: Product, id: i64)
    requires
        m.contains_key(id),
        cells_v(row@) == product_cells(id, m[id]),
        product_entry(p, row),
    ensures
        p.id == Some(id),
        prec_of(p) == m[id],
{
    lemma_product_cells_injective(p.id->0, prec_of(p), id, m[id]);
}

/// The name column of the row a decoded value came from is its name.
proof fn lemma_pentry_name(p: Product, row: Vec<Cell>)
    requires
        product_entry(p, row),
    ensures
        text_of(cells_v(row@)[2]) == p.product_name@,
{
}

/// Carries the listing wrapper's guarantees over to the decoded values.
#[verifier::spinoff_prover]
proof fn lemma_products_post(
    db: Database,
    rows: Seq<Vec<Cell>>,
    ps: Seq<Product>,
    limit: int,
    offset: int,
)
    requires
        product_rows_ok(db, rows, limit, offset),
        ps.len() == rows.len(),
        forall|i: int| 0 <= i < ps.len() ==> product_entry(#[trigger] ps[i], rows[i]),
    ensures
        forall|i: int|
            0 <= i < ps.len() ==> product_listed(products_of(db), #[trigger] ps[i])
                && ps[i].is_active,
        limit >= 0 ==> ps.len() <= limit,
        products_of(db).dom().finite(),
        (limit >= 0 && offset >= 0) ==> ps.len() == min_int(
            limit,
            max_int(active_product_count(products_of(db)) - offset, 0),
        ),
        forall|i: int, j: int|
            0 <= i < j < ps.len() ==> lex_leq(ps[i].product_name@, ps[j].product_name@),
        (offset == 0 && ps.len() < limit) ==> (forall|id: i64|
            #[trigger] products_of(db).contains_key(id) && products_of(db)[id].is_active
                ==> exists|i: int| 0 <= i < ps.len() && (#[trigger] ps[i]).id == Some(id)),
{
    reveal(product_rows_ok);
    let m = products_of(db);
    assert forall|i: int| 0 <= i < ps.len() implies product_listed(m, #[trigger] ps[i])
        && ps[i].is_active by {
        lemma_prow_to_listed(m, rows[i], ps[i]);
    }
    assert forall|i: int, j: int| 0 <= i < j < ps.len() implies lex_leq(
        ps[i].product_name@,
        ps[j].product_name@,
    ) by {
        lemma_pentry_name(ps[i], rows[i]);
        lemma_pentry_name(ps[j], rows[j]);
        assert(lex_leq(text_of(cells_v(rows[i]@)[2]), text_of(cells_v(rows[j]@)[2])));
    }
    if offset == 0 && ps.len() < limit {
        assert forall|id: i64|
            #[trigger] m.contains_key(id) && m[id].is_active implies exists|i: int|
            0 <= i < ps.len() && (#[trigger] ps[i]).id == Some(id) by {
            let i0 = choose|i: int|
                0 <= i < rows.len() && cells_v((#[trigger] rows[i])@) == product_cells(
                    id,
                    m[id],
                );
            lemma_prow_encoding_to_id(m, rows[i0], ps[i0], id);
            assert(0 <= i0 < ps.len() && ps[i0].id == Some(id));
        }
    }
}

/// Carries the search wrapper's guarantees over to the decoded values.
#[verifier::spinoff_prover]
proof fn lemma_products_search_post(db: Database, rows: Seq<Vec<Cell>>, ps: Seq<Product>, q: Seq<char>)
    requires
        product_search_ok(db, rows, q),
        ps.len() == rows.len(),
        forall|i: int| 0 <= i < ps.len() ==> product_entry(#[trigger] ps[i], rows[i]),
    ensures
        forall|i: int|
            0 <= i < ps.len() ==> product_listed(products_of(db), #[trigger] ps[i])
                && ps[i].is_active,
        forall|i: int, j: int|
            0 <= i < j < ps.len() ==> lex_leq(ps[i].product_name@, ps[j].product_name@),
        plain_query(q) ==> (forall|i: int|
            0 <= i < ps.len() ==> product_matches(prec_of(#[trigger] ps[i]), q)),
        plain_query(q) ==> (forall|id: i64|
            #[trigger] products_of(db).contains_key(id) && products_of(db)[id].is_active
                && product_matches(products_of(db)[id], q) ==> exists|i: int|
                0 <= i < ps.len() && (#[trigger] ps[i]).id == Some(id)),
{
    reveal(product_search_ok);
    let m = products_of(db);
    assert forall|i: int| 0 <= i < ps.len() implies product_listed(m, #[trigger] ps[i])
        && ps[i].is_active by {
        lemma_prow_to_listed(m, rows[i], ps[i]);
    }
    assert forall|i: int, j: int| 0 <= i < j < ps.len() implies lex_leq(
        ps[i].product_name@,
        ps[j].product_name@,
    ) by {
        lemma_pentry_name(ps[i], rows[i]);
        lemma_pentry_name(ps[j], rows[j]);
        assert(lex_leq(text_of(cells_v(rows[i]@)[2]), text_of(cells_v(rows[j]@)[2])));
    }
    if plain_query(q) {
        assert forall|i: int| 0 <= i < ps.len() implies product_matches(
            prec_of(#[trigger] ps[i]),
            q,
        ) by {
            let id0 = choose|id: i64|
                #[trigger] m.contains_key(id) && cells_v(rows[i]@) == product_cells(id, m[id])
                    && product_matches(m[id], q);
            lemma_prow_encoding_to_id(m, rows[i], ps[i], id0);
        }
        assert forall|id: i64|
            #[trigger] m.contains_key(id) && m[id].is_active && product_matches(m[id], q)
                implies exists|i: int|
            0 <= i < ps.len() && (#[trigger] ps[i]).id == Some(id) by {
            let i0 = choose|i: int|
                0 <= i < rows.len() && cells_v((#[trigger] rows[i])@) == product_cells(
                    id,
                    m[id],
                );
            lemma_prow_encoding_to_id(m, rows[i0], ps[i0], id);
            assert(0 <= i0 < ps.len() && ps[i0].id == Some(id));
        }
    }
}

impl Database {
    /// Relies on rusqlite (`prepare`, `query`, `Rows::next`) running
    /// `SELECT ... FROM products WHERE id = ?1`: the row keyed `id`, or
    /// nothing when there is none.
    #[verifier::external_body]
    fn q_product_by_id(&self, id: i64) -> (r: Result<Option<Vec<Cell>>, rusqlite::Error>)
        ensures
            r matches Ok(Some(cells)) ==> products_of(*self).contains_key(id) && cells_v(cells@)
                == product_cells(id, products_of(*self)[id]),
            r matches Ok(None) ==> !products_of(*self).contains_key(id),
    {
        let mut stmt = self.conn.prepare(
            "SELECT id, product_code, product_name, description, hsn_sac_code, product_type, unit_of_measurement, rate, gst_rate, cess_rate, is_active FROM products WHERE id = ?1",
        )?;
        let mut rows = stmt.query((id,))?;
        match rows.next()? {
            Some(row) => Ok(Some(row_cells(row, 11)?)),
            None => Ok(None),
        }
    }

    /// Relies on rusqlite (`prepare`, `query`, `Rows::next`) running
    /// `SELECT ... FROM products WHERE is_active = 1 ORDER BY
    /// product_name ASC LIMIT ?1 OFFSET ?2`: the active modelled rows,
    /// name-ordered, windowed by SQLite's LIMIT/OFFSET rules.
    #[verifier::external_body]
    fn q_products(&self, limit: i32, offset: i32) -> (r: Result<Vec<Vec<Cell>>, rusqlite::Error>)
        ensures
            r matches Ok(rows) ==> product_rows_ok(*self, rows@, limit as int, offset as int),
    {
        let mut stmt = self.conn.prepare(
            "SELECT id, product_code, product_name, description, hsn_sac_code, product_type, unit_of_measurement, rate, gst_rate, cess_rate, is_active FROM products WHERE is_active = 1 ORDER BY product_name ASC LIMIT ?1 OFFSET ?2",
        )?;
        let mut rows = stmt.query((limit, offset))?;
        let mut out: Vec<Vec<Cell>> = Vec::new();
        while let Some(row) = rows.next()? {
            out.push(row_cells(row, 11)?);
        }
        Ok(out)
    }

    /// Relies on rusqlite (`prepare`, `query`, `Rows::next`) running
    /// `SELECT ... FROM products WHERE is_active = 1 AND (product_name
    /// LIKE ?1 OR product_code LIKE ?1 OR hsn_sac_code LIKE ?1) ORDER BY
    /// product_name ASC` with the query wrapped in `%`: LIKE is
    /// ASCII-case-insensitive substring matching when the query itself
    /// carries no wildcard.
    #[verifier::external_body]
    fn q_search_products(&self, query: &str) -> (r: Result<Vec<Vec<Cell>>, rusqlite::Error>)
        ensures
            r matches Ok(rows) ==> product_search_ok(*self, rows@, query@),
    {
        let pattern = format!("%{}%", query);
        let mut stmt = self.conn.prepare(
            "SELECT id, product_code, product_name, description, hsn_sac_code, product_type, unit_of_measurement, rate, gst_rate, cess_rate, is_active FROM products WHERE is_active = 1 AND (product_name LIKE ?1 OR product_code LIKE ?1 OR hsn_sac_code LIKE ?1) ORDER BY product_name ASC",
        )?;
        let mut rows = stmt.query((&pattern,))?;
        let mut out: Vec<Vec<Cell>> = Vec::new();
        while let Some(row) = rows.next()? {
            out.push(row_cells(row, 11)?);
        }
        Ok(out)
    }

    /// Relies on `Connection::execute` and `last_insert_rowid` running
    /// `INSERT INTO products ...`: adds exactly one row holding the
    /// given values under a fresh id, which is returned.
    #[verifier::external_body]
    fn ins_product(&mut self, p: &Product) -> (r: Result<i64, rusqlite::Error>)
        ensures
            customers_of(*final(self)) == customers_of(*old(self)),
            settings_of(*final(self)) == settings_of(*old(self)),
            states_of(*final(self)) == states_of(*old(self)),
            invoices_of(*final(self)) == invoices_of(*old(self)),
            invoice_items_of(*final(self)) == invoice_items_of(*old(self)),
            r matches Ok(id) ==> !products_of(*old(self)).contains_key(id) && products_of(
                *final(self),
            ) == products_of(*old(self)).insert(id, prec_of(*p)),
            r is Err ==> products_of(*final(self)) == products_of(*old(self)),
    {
        let r = self.conn.execute(
            "INSERT INTO products (product_code, product_name, description, hsn_sac_code, product_type, unit_of_measurement, rate, gst_rate, cess_rate, is_active) VALUES (?1, ?2, ?3, ?4, ?5, ?6, ?7, ?8, ?9, ?10)",
            (&p.product_code, &p.product_name, &p.description, &p.hsn_sac_code, &p.product_type,
            &p.unit_of_measurement, &p.rate, &p.gst_rate, &p.cess_rate, &p.is_active),
        );
        match r {
            Ok(_) => Ok(self.conn.last_insert_rowid()),
            Err(e) => Err(e),
        }
    }

    /// Relies on `Connection::execute` running `UPDATE products SET ...
    /// WHERE id = ?11`: replaces the values of the row keyed `id` when
    /// it exists (touching its update timestamp), affects no row
    /// otherwise, and returns how many rows it touched.
    #[verifier::external_body]
    fn upd_product(&mut self, id: i64, p: &Product) -> (r: Result<usize, rusqlite::Error>)
        ensures
            customers_of(*final(self)) == customers_of(*old(self)),
            settings_of(*final(self)) == settings_of(*old(self)),
            states_of(*final(self)) == states_of(*old(self)),
            invoices_of(*final(self)) == invoices_of(*old(self)),
            invoice_items_of(*final(self)) == invoice_items_of(*old(self)),
            r matches Ok(n) ==> (products_of(*old(self)).contains_key(id) ==> n == 1
                && products_of(*final(self)) == products_of(*old(self)).insert(id, prec_of(*p)))
                && (!products_of(*old(self)).contains_key(id) ==> n == 0 && products_of(
                *final(self),
            ) == products_of(*old(self))),
            r is Err ==> products_of(*final(self)) == products_of(*old(self)),
    {
        self.conn.execute(
            "UPDATE products SET product_code = ?1, product_name = ?2, description = ?3, hsn_sac_code = ?4, product_type = ?5, unit_of_measurement = ?6, rate = ?7, gst_rate = ?8, cess_rate = ?9, is_active = ?10, updated_at = CURRENT_TIMESTAMP WHERE id = ?11",
            (&p.product_code, &p.product_name, &p.description, &p.hsn_sac_code, &p.product_type,
            &p.unit_of_measurement, &p.rate, &p.gst_rate, &p.cess_rate, &p.is_active, &id),
        )
    }

    /// Relies on `Connection::execute` running `UPDATE products SET
    /// is_active = 0 WHERE id = ?1`: drops the active flag of the row
    /// keyed `id` when it exists, leaves the table unchanged otherwise,
    /// and returns how many rows it touched.
    #[verifier::external_body]
    fn deact_product(&mut self, id: i64) -> (r: Result<usize, rusqlite::Error>)
        ensures
            customers_of(*final(self)) == customers_of(*old(self)),
            settings_of(*final(self)) == settings_of(*old(self)),
            states_of(*final(self)) == states_of(*old(self)),
            invoices_of(*final(self)) == invoices_of(*old(self)),
            invoice_items_of(*final(self)) == invoice_items_of(*old(self)),
            r matches Ok(n) ==> (products_of(*old(self)).contains_key(id) ==> n == 1
                && products_of(*final(self)) == products_of(*old(self)).insert(
                id,
                deactivated(products_of(*old(self))[id]),
            )) && (!products_of(*old(self)).contains_key(id) ==> n == 0 && products_of(
                *final(self),
            ) == products_of(*old(self))),
            r is Err ==> products_of(*final(self)) == products_of(*old(self)),
    {
        self.conn.execute("UPDATE products SET is_active = 0 WHERE id = ?1", (&id,))
    }

    /// Looks a product up by id, active or not; absence is a result, not
    /// an error.
    pub fn get_product_by_id(&self, id: i64) -> (r: Result<Option<Product>, ApiError>)
        ensures
            r matches Err(e) ==> e.error@ == "DatabaseError"@,
            r matches Ok(Some(p)) ==> products_of(*self).contains_key(id) && p.id == Some(id)
                && products_of(*self)[id] == prec_of(p),
            r matches Ok(None) ==> !products_of(*self).contains_key(id),
    {
        let cells = match self.q_product_by_id(id) {
            Ok(o) => o,
            Err(e) => {
                return Err(db_err(e));
            },
        };
        match cells {
            None => Ok(None),
            Some(cs) => match product_from_cells(&cs) {
                Some(p) => {
                    proof {
                        lemma_product_cells_injective(
                            p.id->0,
                            prec_of(p),
                            id,
                            products_of(*self)[id],
                        );
                    }
                    Ok(Some(p))
                },
                None => Err(ApiError::database(String::from_str("malformed products row"))),
            },
        }
    }

    /// Lists active products, name-ordered, under the given page size
    /// and offset (defaults: 100 and 0). Every returned value is an
    /// active row of the store, and when nothing was skipped or cut off,
    /// every active row is returned.
    pub fn get_products(&self, limit: Option<i32>, offset: Option<i32>) -> (r: Result<
        Vec<Product>,
        ApiError,
    >)
        ensures
            r matches Err(e) ==> e.error@ == "DatabaseError"@,
            r matches Ok(ps) ==> {
                let m = products_of(*self);
                &&& forall|i: int|
                    0 <= i < ps@.len() ==> product_listed(m, #[trigger] ps@[i])
                        && ps@[i].is_active
                &&& eff_limit(limit) >= 0 ==> ps@.len() <= eff_limit(limit)
                &&& m.dom().finite()
                &&& (eff_limit(limit) >= 0 && eff_offset(offset) >= 0) ==> ps@.len() == min_int(
                    eff_limit(limit),
                    max_int(active_product_count(m) - eff_offset(offset), 0),
                )
                &&& forall|i: int, j: int|
                    0 <= i < j < ps@.len() ==> lex_leq(
                        ps@[i].product_name@,
                        ps@[j].product_name@,
                    )
                &&& (eff_offset(offset) == 0 && ps@.len() < eff_limit(limit)) ==> (forall|
                    id: i64,
                |
                    #[trigger] m.contains_key(id) && m[id].is_active ==> exists|i: int|
                        0 <= i < ps@.len() && (#[trigger] ps@[i]).id == Some(id))
            },
    {
        let l: i32 = match limit {
            Some(x) => x,
            None => 100,
        };
        let o: i32 = match offset {
            Some(x) => x,
            None => 0,
        };
        let rows = match self.q_products(l, o) {
            Ok(rs) => rs,
            Err(e) => {
                return Err(db_err(e));
            },
        };
        let ps = match products_from_rows(&rows) {
            Some(ps) => ps,
            None => {
                return Err(ApiError::database(String::from_str("malformed products row")));
            },
        };
        proof {
            lemma_products_post(*self, rows@, ps@, eff_limit(limit), eff_offset(offset));
        }
        Ok(ps)
    }

    /// Searches active products by name, code or HSN/SAC code substring,
    /// ASCII-case-insensitively, name-ordered, without pagination. For a
    /// query without wildcard characters the result is exactly the
    /// matching active rows.
    pub fn search_products(&self, query: &str) -> (r: Result<Vec<Product>, ApiError>)
        ensures
            r matches Err(e) ==> e.error@ == "DatabaseError"@,
            r matches Ok(ps) ==> {
                let m = products_of(*self);
                &&& forall|i: int|
                    0 <= i < ps@.len() ==> product_listed(m, #[trigger] ps@[i])
                        && ps@[i].is_active
                &&& forall|i: int, j: int|
                    0 <= i < j < ps@.len() ==> lex_leq(
                        ps@[i].product_name@,
                        ps@[j].product_name@,
                    )
                &&& plain_query(query@) ==> (forall|i: int|
                    0 <= i < ps@.len() ==> product_matches(prec_of(#[trigger] ps@[i]), query@))
                &&& plain_query(query@) ==> (forall|id: i64|
                    #[trigger] m.contains_key(id) && m[id].is_active && product_matches(
                        m[id],
                        query@,
                    ) ==> exists|i: int|
                        0 <= i < ps@.len() && (#[trigger] ps@[i]).id == Some(id))
            },
    {
        let rows = match self.q_search_products(query) {
            Ok(rs) => rs,
            Err(e) => {
                return Err(db_err(e));
            },
        };
        let ps = match products_from_rows(&rows) {
            Some(ps) => ps,
            None => {
                return Err(ApiError::database(String::from_str("malformed products row")));
            },
        };
        proof {
            lemma_products_search_post(*self, rows@, ps@, query@);
        }
        Ok(ps)
    }

    /// Saves a product: inserts under a fresh identity when none is
    /// present, updates the row in place when one is, and returns the
    /// identity either way. An update of an absent identity changes
    /// nothing.
    pub fn save_product(&mut self, p: &Product) -> (r: Result<i64, ApiError>)
        ensures
            customers_of(*final(self)) == customers_of(*old(self)),
            settings_of(*final(self)) == settings_of(*old(self)),
            states_of(*final(self)) == states_of(*old(self)),
            invoices_of(*final(self)) == invoices_of(*old(self)),
            invoice_items_of(*final(self)) == invoice_items_of(*old(self)),
            r matches Err(e) ==> e.error@ == "DatabaseError"@,
            r matches Ok(id) ==> match p.id {
                Some(pid) => id == pid && (products_of(*old(self)).contains_key(pid)
                    ==> products_of(*final(self)) == products_of(*old(self)).insert(
                    pid,
                    prec_of(*p),
                )) && (!products_of(*old(self)).contains_key(pid) ==> products_of(*final(self))
                    == products_of(*old(self))),
                None => !products_of(*old(self)).contains_key(id) && products_of(*final(self))
                    == products_of(*old(self)).insert(id, prec_of(*p)),
            },
            r is Err ==> products_of(*final(self)) == products_of(*old(self)),
    {
        match p.id {
            Some(pid) => match self.upd_product(pid, p) {
                Ok(_) => Ok(pid),
                Err(e) => Err(db_err(e)),
            },
            None => match self.ins_product(p) {
                Ok(id) => Ok(id),
                Err(e) => Err(db_err(e)),
            },
        }
    }

    /// Deletes a product by id — a soft delete: the row is kept and only
    /// its active flag drops, so historical invoice lines stay valid.
    /// Returns whether a row was actually touched.
    pub fn delete_product(&mut self, id: i64) -> (r: Result<bool, ApiError>)
        ensures
            customers_of(*final(self)) == customers_of(*old(self)),
            settings_of(*final(self)) == settings_of(*old(self)),
            states_of(*final(self)) == states_of(*old(self)),
            invoices_of(*final(self)) == invoices_of(*old(self)),
            invoice_items_of(*final(self)) == invoice_items_of(*old(self)),
            r matches Err(e) ==> e.error@ == "DatabaseError"@,
            r matches Ok(b) ==> b == products_of(*old(self)).contains_key(id) && (products_of(
                *old(self),
            ).contains_key(id) ==> products_of(*final(self)) == products_of(*old(self)).insert(
                id,
                deactivated(products_of(*old(self))[id]),
            )) && (!products_of(*old(self)).contains_key(id) ==> products_of(*final(self))
                == products_of(*old(self))),
            r is Err ==> products_of(*final(self)) == products_of(*old(self)),
    {
        match self.deact_product(id) {
            Ok(n) => Ok(n > 0),
            Err(e) => Err(db_err(e)),
        }
    }
}

/// Decodes a whole result set; succeeds only when every row decodes.
fn products_from_rows(rows: &Vec<Vec<Cell>>) -> (r: Option<Vec<Product>>)
    ensures
        r matches Some(ps) ==> ps@.len() == rows@.len() && forall|i: int|
            0 <= i < ps@.len() ==> product_entry(#[trigger] ps@[i], rows@[i]),
{
    let n = rows.len();
    let mut out: Vec<Product> = Vec::new();
    let mut i: usize = 0;
    while i < n
        invariant
            n == rows@.len(),
            i <= n,
            out@.len() == i,
            forall|k: int| 0 <= k < i ==> product_entry(#[trigger] out@[k], rows@[k]),
        decreases n - i,
    {
        match product_from_cells(&rows[i]) {
            Some(p) => out.push(p),
            None => {
                return None;
            },
        }
        i = i + 1;
    }
    Some(out)
}

/// Product search matching is case-insensitive: a query and its
/// upper-cased form match exactly the same rows.
pub proof fn lemma_product_search_case_insensitive(d: ProductRec, q: Seq<char>)
    ensures
        product_matches(d, q) == product_matches(d, upper(q)),
{
    crate::strutil::lemma_upper_idempotent(q);
}

/// Product search matches substrings anywhere in a column, not only
/// prefixes: a name that carries the query in its middle matches,
/// whatever stands around it.
pub proof fn lemma_product_search_matches_infix(
    d: ProductRec,
    a: Seq<char>,
    q: Seq<char>,
    b: Seq<char>,
)
    requires
        d.product_name == a + q + b,
    ensures
        product_matches(d, q),
{
    crate::strutil::lemma_upper_concat(a, q);
    crate::strutil::lemma_upper_concat(a + q, b);
    crate::strutil::lemma_contains_infix(upper(a), upper(q), upper(b));
    assert(upper(a + q + b) == upper(a) + upper(q) + upper(b));
}

/// A soft delete never removes the row: after it, the row is still
/// there under the same identity, only no longer active — so an
/// active-only listing excludes it while a lookup by id still finds it.
/// This is the soft-delete rule the product operations' contracts state,
/// read at the level of the table model.
pub proof fn lemma_delete_product_keeps_row(m: Map<i64, ProductRec>, id: i64)
    requires
        m.contains_key(id),
    ensures
        m.insert(id, deactivated(m[id])).contains_key(id),
        !m.insert(id, deactivated(m[id]))[id].is_active,
        m.insert(id, deactivated(m[id])).dom() == m.dom(),
{
    assert(m.insert(id, deactivated(m[id])).dom() =~= m.dom());
}

} // verus!
