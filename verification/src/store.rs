//! The record store handle.
//!
//! `Database` owns one SQLite connection. The contents of each table are
//! modelled as a map from row id to row data; the model functions are
//! declared here and in the per-entity modules, and every trusted wrapper
//! around a database call states over them what the statement it runs
//! does. The store is the only writer of its file, so the model is a
//! function of the handle alone.

use vstd::prelude::*;
use crate::cells::Cell;
use crate::counts::invoice_items_of;
use crate::customers::customers_of;
use crate::error::ApiError;
use crate::numbering::{next_invoice_number_from, spec_next_invoice_number};
use crate::products::products_of;
use crate::settings::settings_of;
use crate::states::{seeded_states_present, states_of};

verus! {

#[verifier::external_type_specification]
#[verifier::external_body]
pub struct ExConnection(rusqlite::Connection);

#[verifier::external_type_specification]
#[verifier::external_body]
pub struct ExSqliteError(rusqlite::Error);

#[verifier::external_type_specification]
#[verifier::external_body]
pub struct ExRow<'a>(rusqlite::Row<'a>);

/// The fixed relational layout the store works against, plus the Indian
/// state reference rows. Creating is idempotent: existing tables and rows
/// are left alone.
pub const SCHEMA_SQL: &'static str = "
CREATE TABLE IF NOT EXISTS company_settings (
    id INTEGER PRIMARY KEY AUTOINCREMENT,
    company_name TEXT NOT NULL,
    gstin TEXT NOT NULL,
    pan TEXT NOT NULL,
    address_line1 TEXT NOT NULL,
    address_line2 TEXT,
    city TEXT NOT NULL,
    state TEXT NOT NULL,
    pincode TEXT NOT NULL,
    phone TEXT,
    email TEXT,
    website TEXT,
    bank_name TEXT,
    account_number TEXT,
    ifsc_code TEXT,
    logo_path TEXT,
    created_at TEXT DEFAULT CURRENT_TIMESTAMP,
    updated_at TEXT DEFAULT CURRENT_TIMESTAMP
);
CREATE TABLE IF NOT EXISTS customers (
    id INTEGER PRIMARY KEY AUTOINCREMENT,
    customer_name TEXT NOT NULL,
    gstin TEXT,
    pan TEXT,
    customer_type TEXT NOT NULL,
    address_line1 TEXT NOT NULL,
    address_line2 TEXT,
    city TEXT NOT NULL,
    state TEXT NOT NULL,
    pincode TEXT NOT NULL,
    phone TEXT,
    email TEXT,
    credit_limit INTEGER NOT NULL DEFAULT 0,
    credit_period_days INTEGER NOT NULL DEFAULT 0,
    is_active INTEGER NOT NULL DEFAULT 1,
    created_at TEXT DEFAULT CURRENT_TIMESTAMP,
    updated_at TEXT DEFAULT CURRENT_TIMESTAMP
);
CREATE TABLE IF NOT EXISTS products (
    id INTEGER PRIMARY KEY AUTOINCREMENT,
    product_code TEXT NOT NULL,
    product_name TEXT NOT NULL,
    description TEXT,
    hsn_sac_code TEXT NOT NULL,
    product_type TEXT NOT NULL,
    unit_of_measurement TEXT NOT NULL,
    rate INTEGER NOT NULL DEFAULT 0,
    gst_rate INTEGER NOT NULL DEFAULT 0,
    cess_rate INTEGER NOT NULL DEFAULT 0,
    is_active INTEGER NOT NULL DEFAULT 1,
    created_at TEXT DEFAULT CURRENT_TIMESTAMP,
    updated_at TEXT DEFAULT CURRENT_TIMESTAMP
);
CREATE TABLE IF NOT EXISTS invoices (
    id INTEGER PRIMARY KEY AUTOINCREMENT,
    invoice_number TEXT NOT NULL UNIQUE,
    invoice_date TEXT NOT NULL,
    customer_id INTEGER NOT NULL REFERENCES customers(id),
    invoice_type TEXT NOT NULL,
    place_of_supply TEXT NOT NULL,
    reverse_charge INTEGER NOT NULL DEFAULT 0,
    subtotal INTEGER NOT NULL DEFAULT 0,
    total_discount INTEGER NOT NULL DEFAULT 0,
    taxable_amount INTEGER NOT NULL DEFAULT 0,
    cgst_amount INTEGER NOT NULL DEFAULT 0,
    sgst_amount INTEGER NOT NULL DEFAULT 0,
    igst_amount INTEGER NOT NULL DEFAULT 0,
    cess_amount INTEGER NOT NULL DEFAULT 0,
    total_tax INTEGER NOT NULL DEFAULT 0,
    total_amount INTEGER NOT NULL DEFAULT 0,
    round_off INTEGER NOT NULL DEFAULT 0,
    final_amount INTEGER NOT NULL DEFAULT 0,
    payment_terms TEXT,
    due_date TEXT,
    status TEXT NOT NULL,
    notes TEXT,
    terms_conditions TEXT,
    pdf_path TEXT,
    created_at TEXT DEFAULT CURRENT_TIMESTAMP,
    updated_at TEXT DEFAULT CURRENT_TIMESTAMP
);
CREATE TABLE IF NOT EXISTS invoice_items (
    id INTEGER PRIMARY KEY AUTOINCREMENT,
    invoice_id INTEGER NOT NULL REFERENCES invoices(id),
    product_id INTEGER NOT NULL REFERENCES products(id),
    line_number INTEGER NOT NULL,
    product_code TEXT NOT NULL,
    product_name TEXT NOT NULL,
    description TEXT,
    hsn_sac_code TEXT NOT NULL,
    quantity INTEGER NOT NULL DEFAULT 0,
    unit_price INTEGER NOT NULL DEFAULT 0,
    discount_percent INTEGER NOT NULL DEFAULT 0,
    discount_amount INTEGER NOT NULL DEFAULT 0,
    taxable_amount INTEGER NOT NULL DEFAULT 0,
    gst_rate INTEGER NOT NULL DEFAULT 0,
    cgst_rate INTEGER NOT NULL DEFAULT 0,
    sgst_rate INTEGER NOT NULL DEFAULT 0,
    igst_rate INTEGER NOT NULL DEFAULT 0,
    cess_rate INTEGER NOT NULL DEFAULT 0,
    cgst_amount INTEGER NOT NULL DEFAULT 0,
    sgst_amount INTEGER NOT NULL DEFAULT 0,
    igst_amount INTEGER NOT NULL DEFAULT 0,
    cess_amount INTEGER NOT NULL DEFAULT 0,
    total_tax INTEGER NOT NULL DEFAULT 0,
    line_total INTEGER NOT NULL DEFAULT 0,
    created_at TEXT DEFAULT CURRENT_TIMESTAMP
);
CREATE TABLE IF NOT EXISTS indian_states (
    id INTEGER PRIMARY KEY AUTOINCREMENT,
    state_code TEXT NOT NULL UNIQUE,
    state_name TEXT NOT NULL,
    is_union_territory INTEGER NOT NULL DEFAULT 0,
    is_active INTEGER NOT NULL DEFAULT 1
);
INSERT OR IGNORE INTO indian_states (state_code, state_name, is_union_territory, is_active) VALUES
    ('01', 'Jammu and Kashmir', 1, 1),
    ('02', 'Himachal Pradesh', 0, 1),
    ('03', 'Punjab', 0, 1),
    ('04', 'Chandigarh', 1, 1),
    ('05', 'Uttarakhand', 0, 1),
    ('06', 'Haryana', 0, 1),
    ('07', 'Delhi', 1, 1),
    ('08', 'Rajasthan', 0, 1),
    ('09', 'Uttar Pradesh', 0, 1),
    ('10', 'Bihar', 0, 1),
    ('11', 'Sikkim', 0, 1),
    ('12', 'Arunachal Pradesh', 0, 1),
    ('13', 'Nagaland', 0, 1),
    ('14', 'Manipur', 0, 1),
    ('15', 'Mizoram', 0, 1),
    ('16', 'Tripura', 0, 1),
    ('17', 'Meghalaya', 0, 1),
    ('18', 'Assam', 0, 1),
    ('19', 'West Bengal', 0, 1),
    ('20', 'Jharkhand', 0, 1),
    ('21', 'Odisha', 0, 1),
    ('22', 'Chhattisgarh', 0, 1),
    ('23', 'Madhya Pradesh', 0, 1),
    ('24', 'Gujarat', 0, 1),
    ('26', 'Dadra and Nagar Haveli and Daman and Diu', 1, 1),
    ('27', 'Maharashtra', 0, 1),
    ('29', 'Karnataka', 0, 1),
    ('30', 'Goa', 0, 1),
    ('31', 'Lakshadweep', 1, 1),
    ('32', 'Kerala', 0, 1),
    ('33', 'Tamil Nadu', 0, 1),
    ('34', 'Puducherry', 1, 1),
    ('35', 'Andaman and Nicobar Islands', 1, 1),
    ('36', 'Telangana', 0, 1),
    ('37', 'Andhra Pradesh', 0, 1),
    ('38', 'Ladakh', 1, 1);
";

/// The record store: one exclusive SQLite connection.
pub struct Database {
    pub(crate) conn: rusqlite::Connection,
}

/// The invoice numbers the store holds, keyed by row id (row ids grow in
/// insertion order, so the greatest key is the most recent number).
pub uninterp spec fn invoices_of(db: Database) -> Map<i64, Seq<char>>;

/// Relies on `rusqlite::Connection::open`: opens, creating it when
/// absent, the database file at `path`.
#[verifier::external_body]
fn open_connection(path: &str) -> (r: Result<rusqlite::Connection, rusqlite::Error>) {
    rusqlite::Connection::open(path)
}

/// Relies on `rusqlite::Connection::open_in_memory`: opens a fresh
/// in-memory database, which holds no table and so no row of any kind.
#[verifier::external_body]
fn open_memory_db() -> (r: Result<Database, rusqlite::Error>)
    ensures
        r matches Ok(db) ==> settings_of(db).dom() == Set::<i64>::empty(),
        r matches Ok(db) ==> customers_of(db).dom() == Set::<i64>::empty(),
        r matches Ok(db) ==> products_of(db).dom() == Set::<i64>::empty(),
        r matches Ok(db) ==> invoices_of(db).dom() == Set::<i64>::empty(),
        r matches Ok(db) ==> invoice_items_of(db).dom() == Set::<i64>::empty(),
        r matches Ok(db) ==> states_of(db).dom() == Set::<i64>::empty(),
{
    Ok(Database { conn: rusqlite::Connection::open_in_memory()? })
}

/// Relies on `rusqlite::Connection::execute` running
/// `PRAGMA foreign_keys = ON`: switches foreign key enforcement on for
/// this connection.
#[verifier::external_body]
fn enable_foreign_keys(conn: &rusqlite::Connection) -> (r: Result<(), rusqlite::Error>) {
    match conn.execute("PRAGMA foreign_keys = ON", []) {
        Ok(_) => Ok(()),
        Err(e) => Err(e),
    }
}

/// The smaller of two values.
pub open spec fn min_int(a: int, b: int) -> int {
    if a < b {
        a
    } else {
        b
    }
}

/// The greater of two values.
pub open spec fn max_int(a: int, b: int) -> int {
    if a > b {
        a
    } else {
        b
    }
}

/// Relies on `rusqlite::Error`'s `Display` implementation: renders the
/// driver's own description of the failure.
#[verifier::external_body]
pub(crate) fn sqlite_error_message(e: &rusqlite::Error) -> String {
    e.to_string()
}

/// Maps a driver error into the uniform error shape, message passed
/// through verbatim.
pub(crate) fn db_err(e: rusqlite::Error) -> (r: ApiError)
    ensures
        r.error@ == "DatabaseError"@,
{
    ApiError::database(sqlite_error_message(&e))
}

/// Relies on `rusqlite::Row::get_ref`: copies the first `n` columns of a
/// result row out as plain values.
#[verifier::external_body]
pub(crate) fn row_cells(row: &rusqlite::Row, n: usize) -> (r: Result<Vec<Cell>, rusqlite::Error>) {
    let mut v: Vec<Cell> = Vec::new();
    for i in 0..n {
        v.push(match row.get_ref(i)? {
            rusqlite::types::ValueRef::Null => Cell::Null,
            rusqlite::types::ValueRef::Integer(x) => Cell::Int(x),
            rusqlite::types::ValueRef::Text(t) => Cell::Text(String::from_utf8_lossy(t).into_owned()),
            _ => Cell::Other,
        });
    }
    Ok(v)
}

/// Relies on `chrono::Utc::now` and chrono's `Datelike` accessors: the
/// current UTC year, and the month, which chrono documents as lying in
/// 1 through 12.
#[verifier::external_body]
fn current_year_month() -> (r: (i64, u32))
    ensures
        1 <= r.1 <= 12,
{
    let now = chrono::Utc::now();
    (chrono::Datelike::year(&now) as i64, chrono::Datelike::month(&now))
}

/// `last` is the invoice number with the greatest row id among `m`, or
/// nothing when the store holds no invoice at all.
pub open spec fn is_last_invoice_number(m: Map<i64, Seq<char>>, last: Option<Seq<char>>) -> bool {
    match last {
        Option::None => m == Map::<i64, Seq<char>>::empty(),
        Option::Some(s) => exists|id: i64|
            #[trigger] m.contains_pair(id, s) && (forall|k: i64|
                #[trigger] m.contains_key(k) ==> k <= id),
    }
}

impl Database {
    /// Opens (or creates) the database file at `path` and switches
    /// foreign key enforcement on. Nothing is assumed of the contents an
    /// existing file already holds. The store model relies on this being
    /// the file's only open handle and this process its only writer, as
    /// the single-process, single-writer scope of the store demands: a
    /// second handle on the same path, or an outside writer, is outside
    /// the model.
    pub fn new(path: &str) -> (r: Result<Database, ApiError>)
        ensures
            r matches Err(e) ==> e.error@ == "DatabaseError"@,
    {
        let conn = match open_connection(path) {
            Ok(c) => c,
            Err(e) => {
                return Err(db_err(e));
            },
        };
        match enable_foreign_keys(&conn) {
            Ok(_) => (),
            Err(e) => {
                return Err(db_err(e));
            },
        }
        Ok(Database { conn })
    }

    /// Opens a fresh in-memory store — every table model empty — for
    /// isolated instances in tests, and switches foreign key enforcement
    /// on.
    pub fn open_in_memory() -> (r: Result<Database, ApiError>)
        ensures
            r matches Err(e) ==> e.error@ == "DatabaseError"@,
            r matches Ok(db) ==> settings_of(db).dom() == Set::<i64>::empty(),
            r matches Ok(db) ==> customers_of(db).dom() == Set::<i64>::empty(),
            r matches Ok(db) ==> products_of(db).dom() == Set::<i64>::empty(),
            r matches Ok(db) ==> invoices_of(db).dom() == Set::<i64>::empty(),
            r matches Ok(db) ==> invoice_items_of(db).dom() == Set::<i64>::empty(),
            r matches Ok(db) ==> states_of(db).dom() == Set::<i64>::empty(),
    {
        let db = match open_memory_db() {
            Ok(db) => db,
            Err(e) => {
                return Err(db_err(e));
            },
        };
        match enable_foreign_keys(&db.conn) {
            Ok(_) => (),
            Err(e) => {
                return Err(db_err(e));
            },
        }
        Ok(db)
    }

    /// Relies on `rusqlite::Connection::execute_batch` running the schema
    /// script (`CREATE TABLE IF NOT EXISTS` plus `INSERT OR IGNORE` into
    /// the unique state-code column): on success every seeded state code
    /// has a row; no statement of the script touches any other table's
    /// rows, whether the run succeeds or stops partway.
    #[verifier::external_body]
    fn exec_schema(&mut self) -> (r: Result<(), rusqlite::Error>)
        ensures
            r is Ok ==> seeded_states_present(states_of(*final(self))),
            settings_of(*final(self)) == settings_of(*old(self)),
            customers_of(*final(self)) == customers_of(*old(self)),
            products_of(*final(self)) == products_of(*old(self)),
            invoices_of(*final(self)) == invoices_of(*old(self)),
            invoice_items_of(*final(self)) == invoice_items_of(*old(self)),
    {
        self.conn.execute_batch(SCHEMA_SQL)
    }

    /// Applies the fixed schema: creates any missing table and seeds the
    /// Indian state list, leaving existing rows alone. On success every
    /// seeded GST state code is present; no other table's rows change.
    pub fn initialize_schema(&mut self) -> (r: Result<(), ApiError>)
        ensures
            r matches Err(e) ==> e.error@ == "DatabaseError"@,
            r is Ok ==> seeded_states_present(states_of(*final(self))),
            settings_of(*final(self)) == settings_of(*old(self)),
            customers_of(*final(self)) == customers_of(*old(self)),
            products_of(*final(self)) == products_of(*old(self)),
            invoices_of(*final(self)) == invoices_of(*old(self)),
            invoice_items_of(*final(self)) == invoice_items_of(*old(self)),
    {
        match self.exec_schema() {
            Ok(_) => Ok(()),
            Err(e) => Err(db_err(e)),
        }
    }

    /// Relies on rusqlite (`prepare`, `query`, `Rows::next`, `Row::get`)
    /// running `SELECT invoice_number FROM invoices ORDER BY id DESC
    /// LIMIT 1`: the number of the row with the greatest id, or nothing
    /// when the table is empty.
    #[verifier::external_body]
    fn q_last_invoice_number(&self) -> (r: Result<Option<String>, rusqlite::Error>)
        ensures
            r matches Ok(Some(s)) ==> is_last_invoice_number(
                invoices_of(*self),
                Option::Some(s@),
            ),
            r matches Ok(None) ==> is_last_invoice_number(invoices_of(*self), Option::None),
    {
        let mut stmt = self.conn.prepare(
            "SELECT invoice_number FROM invoices ORDER BY id DESC LIMIT 1",
        )?;
        let mut rows = stmt.query([])?;
        match rows.next()? {
            Some(row) => {
                let s: String = row.get(0)?;
                Ok(Some(s))
            },
            None => Ok(None),
        }
    }

    /// Computes the next invoice number: one more than the trailing digit
    /// run of the most recently inserted number, stamped with the current
    /// wall-clock year and month. The `format` parameter is accepted for
    /// interface compatibility but not interpolated: the layout is always
    /// `INV-{year}-{month:02}-{sequence:04}`.
    pub fn get_next_invoice_number(&self, format: &str) -> (r: Result<String, ApiError>)
        ensures
            r matches Err(e) ==> e.error@ == "DatabaseError"@,
            r matches Ok(s) ==> exists|last: Option<Seq<char>>, y: int, mo: int|
                is_last_invoice_number(invoices_of(*self), last) && 1 <= mo <= 12 && s@
                    == spec_next_invoice_number(last, y, mo),
    {
        let last = match self.q_last_invoice_number() {
            Ok(l) => l,
            Err(e) => {
                return Err(db_err(e));
            },
        };
        let (y, mo) = current_year_month();
        let next = match &last {
            Some(s) => next_invoice_number_from(Some(s), y, mo),
            None => next_invoice_number_from(None, y, mo),
        };
        proof {
            let lastv = match last {
                Option::Some(s) => Option::Some(s@),
                Option::None => Option::<Seq<char>>::None,
            };
            assert(is_last_invoice_number(invoices_of(*self), lastv) && 1 <= mo as int <= 12
                && next@ == spec_next_invoice_number(lastv, y as int, mo as int));
        }
        Ok(next)
    }
}

} // verus!
