//! The company profile and its store operations.
//!
//! The company_settings table is modelled as a map from row id to row
//! data. The profile is a singleton by convention only: reading returns
//! the most recently created row — the one with the greatest id — and
//! saving inserts a fresh row or updates one in place by id.

use vstd::prelude::*;
use vstd::string::StringExecFns;
use crate::cells::{
    cell_i64, cell_opt_text, cell_text, cells_v, is_i64_cell, is_opt_text_cell, opt_str_view,
    opt_text_cell, Cell, CellV,
};
use crate::counts::invoice_items_of;
use crate::customers::customers_of;
use crate::error::ApiError;
use crate::products::products_of;
use crate::states::states_of;
use crate::store::{db_err, invoices_of, row_cells, Database};

verus! {

/// The company profile, as callers supply and receive it.
#[derive(Debug, Clone)]
pub struct CompanySettings {
    pub id: Option<i64>,
    pub company_name: String,
    pub gstin: String,
    pub pan: String,
    pub address_line1: String,
    pub address_line2: Option<String>,
    pub city: String,
    pub state: String,
    pub pincode: String,
    pub phone: Option<String>,
    pub email: Option<String>,
    pub website: Option<String>,
    pub bank_name: Option<String>,
    pub account_number: Option<String>,
    pub ifsc_code: Option<String>,
    pub logo_path: Option<String>,
}

/// The caller-supplied data of one company_settings row. The GSTIN and
/// PAN are opaque strings here: they are not validated at persistence
/// time.
#[verifier::ext_equal]
pub struct SettingsRec {
    pub company_name: Seq<char>,
    pub gstin: Seq<char>,
    pub pan: Seq<char>,
    pub address_line1: Seq<char>,
    pub address_line2: Option<Seq<char>>,
    pub city: Seq<char>,
    pub state: Seq<char>,
    pub pincode: Seq<char>,
    pub phone: Option<Seq<char>>,
    pub email: Option<Seq<char>>,
    pub website: Option<Seq<char>>,
    pub bank_name: Option<Seq<char>>,
    pub account_number: Option<Seq<char>>,
    pub ifsc_code: Option<Seq<char>>,
    pub logo_path: Option<Seq<char>>,
}

/// The row data a settings value carries.
pub open spec fn srec_of(c: CompanySettings) -> SettingsRec {
    SettingsRec {
        company_name: c.company_name@,
        gstin: c.gstin@,
        pan: c.pan@,
        address_line1: c.address_line1@,
        address_line2: opt_str_view(c.address_line2),
        city: c.city@,
        state: c.state@,
        pincode: c.pincode@,
        phone: opt_str_view(c.phone),
        email: opt_str_view(c.email),
        website: opt_str_view(c.website),
        bank_name: opt_str_view(c.bank_name),
        account_number: opt_str_view(c.account_number),
        ifsc_code: opt_str_view(c.ifsc_code),
        logo_path: opt_str_view(c.logo_path),
    }
}

/// The company_settings table: row id to row data.
pub uninterp spec fn settings_of(db: Database) -> Map<i64, SettingsRec>;

/// `cells` encodes the settings row with the greatest id.
pub open spec fn latest_settings_cells(db: Database, cells: Seq<CellV>) -> bool {
    exists|id: i64|
        #[trigger] settings_of(db).contains_key(id) && cells == settings_cells(
            id,
            settings_of(db)[id],
        ) && (forall|k: i64| #[trigger] settings_of(db).contains_key(k) ==> k <= id)
}

/// `id` is fresh and greater than every key of `m`: what AUTOINCREMENT
/// assigns to a new settings row.
pub open spec fn settings_id_above(m: Map<i64, SettingsRec>, id: i64) -> bool {
    !m.contains_key(id) && (forall|k: i64| #[trigger] m.contains_key(k) ==> k < id)
}

/// The cells of one company_settings row in column order, id first.
pub open spec fn settings_cells(id: i64, d: SettingsRec) -> Seq<CellV> {
    seq![
        CellV::Int(id as int),
        CellV::Text(d.company_name),
        CellV::Text(d.gstin),
        CellV::Text(d.pan),
        CellV::Text(d.address_line1),
        opt_text_cell(d.address_line2),
        CellV::Text(d.city),
        CellV::Text(d.state),
        CellV::Text(d.pincode),
        opt_text_cell(d.phone),
        opt_text_cell(d.email),
        opt_text_cell(d.website),
        opt_text_cell(d.bank_name),
        opt_text_cell(d.account_number),
        opt_text_cell(d.ifsc_code),
        opt_text_cell(d.logo_path),
    ]
}

/// The shape a cell row must have to decode as a company_settings row.
pub open spec fn settings_has_shape(s: Seq<CellV>) -> bool {
    &&& s.len() == 16
    &&& is_i64_cell(s[0])
    &&& s[1] is Text
    &&& s[2] is Text
    &&& s[3] is Text
    &&& s[4] is Text
    &&& is_opt_text_cell(s[5])
    &&& s[6] is Text
    &&& s[7] is Text
    &&& s[8] is Text
    &&& is_opt_text_cell(s[9])
    &&& is_opt_text_cell(s[10])
    &&& is_opt_text_cell(s[11])
    &&& is_opt_text_cell(s[12])
    &&& is_opt_text_cell(s[13])
    &&& is_opt_text_cell(s[14])
    &&& is_opt_text_cell(s[15])
}

/// Row encodings are injective: equal cell rows come from the same id
/// and the same data.
pub proof fn lemma_settings_cells_injective(a: i64, x: SettingsRec, b: i64, y: SettingsRec)
    requires
        settings_cells(a, x) == settings_cells(b, y),
    ensures
        a == b,
        x == y,
{
    let s = settings_cells(a, x);
    let t = settings_cells(b, y);
    assert(s[0] == t[0]);
    assert(s[1] == t[1]);
    assert(s[2] == t[2]);
    assert(s[3] == t[3]);
    assert(s[4] == t[4]);
    assert(s[5] == t[5]);
    assert(s[6] == t[6]);
    assert(s[7] == t[7]);
    assert(s[8] == t[8]);
    assert(s[9] == t[9]);
    assert(s[10] == t[10]);
    assert(s[11] == t[11]);
    assert(s[12] == t[12]);
    assert(s[13] == t[13]);
    assert(s[14] == t[14]);
    assert(s[15] == t[15]);
    assert(x =~= y);
}

/// Decodes one result row, column by column, into a settings value.
/// Succeeds exactly on rows of the company_settings shape, and then
/// returns the one value whose encoding the row is.
pub fn settings_from_cells(cells: &Vec<Cell>) -> (r: Option<CompanySettings>)
    ensures
        match r {
            Some(c) => c.id matches Some(i) && cells_v(cells@) == settings_cells(i, srec_of(c)),
            None => !settings_has_shape(cells_v(cells@)),
        },
{
    proof {
        assert(forall|k: int| 0 <= k < cells@.len() ==> cells_v(cells@)[k] == (
        #[trigger] cells@[k])@);
    }
    if cells.len() != 16 {
        return None;
    }
    let id = match cell_i64(&cells[0]) {
        Some(x) => x,
        None => {
            return None;
        },
    };
    let company_name = match cell_text(&cells[1]) {
        Some(x) => x,
        None => {
            return None;
        },
    };
    let gstin = match cell_text(&cells[2]) {
        Some(x) => x,
        None => {
            return None;
        },
    };
    let pan = match cell_text(&cells[3]) {
        Some(x) => x,
        None => {
            return None;
        },
    };
    let address_line1 = match cell_text(&cells[4]) {
        Some(x) => x,
        None => {
            return None;
        },
    };
    let address_line2 = match cell_opt_text(&cells[5]) {
        Some(x) => x,
        None => {
            return None;
        },
    };
    let city = match cell_text(&cells[6]) {
        Some(x) => x,
        None => {
            return None;
        },
    };
    let state = match cell_text(&cells[7]) {
        Some(x) => x,
        None => {
            return None;
        },
    };
    let pincode = match cell_text(&cells[8]) {
        Some(x) => x,
        None => {
            return None;
        },
    };
    let phone = match cell_opt_text(&cells[9]) {
        Some(x) => x,
        None => {
            return None;
        },
    };
    let email = match cell_opt_text(&cells[10]) {
        Some(x) => x,
        None => {
            return None;
        },
    };
    let website = match cell_opt_text(&cells[11]) {
        Some(x) => x,
        None => {
            return None;
        },
    };
    let bank_name = match cell_opt_text(&cells[12]) {
        Some(x) => x,
        None => {
            return None;
        },
    };
    let account_number = match cell_opt_text(&cells[13]) {
        Some(x) => x,
        None => {
            return None;
        },
    };
    let ifsc_code = match cell_opt_text(&cells[14]) {
        Some(x) => x,
        None => {
            return None;
        },
    };
    let logo_path = match cell_opt_text(&cells[15]) {
        Some(x) => x,
        None => {
            return None;
        },
    };
    let c = CompanySettings {
        id: Some(id),
        company_name,
        gstin,
        pan,
        address_line1,
        address_line2,
        city,
        state,
        pincode,
        phone,
        email,
        website,
        bank_name,
        account_number,
        ifsc_code,
        logo_path,
    };
    proof {
        assert(cells_v(cells@) =~= settings_cells(id, srec_of(c)));
    }
    Some(c)
}

impl Database {
    /// Relies on rusqlite (`prepare`, `query`, `Rows::next`) running
    /// `SELECT ... FROM company_settings ORDER BY id DESC LIMIT 1`: the
    /// row with the greatest id — the most recently created profile —
    /// or nothing when the table is empty.
    #[verifier::external_body]
    fn q_settings_latest(&self) -> (r: Result<Option<Vec<Cell>>, rusqlite::Error>)
        ensures
            r matches Ok(Some(cells)) ==> latest_settings_cells(*self, cells_v(cells@)),
            r matches Ok(None) ==> settings_of(*self).dom() == Set::<i64>::empty(),
    {
        let mut stmt = self.conn.prepare(
            "SELECT id, company_name, gstin, pan, address_line1, address_line2, city, state, pincode, phone, email, website, bank_name, account_number, ifsc_code, logo_path FROM company_settings ORDER BY id DESC LIMIT 1",
        )?;
        let mut rows = stmt.query([])?;
        match rows.next()? {
            Some(row) => Ok(Some(row_cells(row, 16)?)),
            None => Ok(None),
        }
    }

    /// Relies on `Connection::execute` and `last_insert_rowid` running
    /// `INSERT INTO company_settings ...`: adds exactly one row holding
    /// the given values under a fresh id, greater than every existing
    /// one (row ids grow monotonically under AUTOINCREMENT), which is
    /// returned.
    #[verifier::external_body]
    fn ins_settings(&mut self, c: &CompanySettings) -> (r: Result<i64, rusqlite::Error>)
        ensures
            customers_of(*final(self)) == customers_of(*old(self)),
            products_of(*final(self)) == products_of(*old(self)),
            states_of(*final(self)) == states_of(*old(self)),
            invoices_of(*final(self)) == invoices_of(*old(self)),
            invoice_items_of(*final(self)) == invoice_items_of(*old(self)),
            r matches Ok(id) ==> settings_id_above(settings_of(*old(self)), id) && settings_of(
                *final(self),
            ) == settings_of(*old(self)).insert(id, srec_of(*c)),
            r is Err ==> settings_of(*final(self)) == settings_of(*old(self)),
    {
        let r = self.conn.execute(
            "INSERT INTO company_settings (company_name, gstin, pan, address_line1, address_line2, city, state, pincode, phone, email, website, bank_name, account_number, ifsc_code, logo_path) VALUES (?1, ?2, ?3, ?4, ?5, ?6, ?7, ?8, ?9, ?10, ?11, ?12, ?13, ?14, ?15)",
            (&c.company_name, &c.gstin, &c.pan, &c.address_line1, &c.address_line2, &c.city,
            &c.state, &c.pincode, &c.phone, &c.email, &c.website, &c.bank_name, &c.account_number,
            &c.ifsc_code, &c.logo_path),
        );
        match r {
            Ok(_) => Ok(self.conn.last_insert_rowid()),
            Err(e) => Err(e),
        }
    }

    /// Relies on `Connection::execute` running `UPDATE company_settings
    /// SET ... WHERE id = ?16`: replaces the values of the row keyed
    /// `id` when it exists (touching its update timestamp), affects no
    /// row otherwise, and returns how many rows it touched.
    #[verifier::external_body]
    fn upd_settings(&mut self, id: i64, c: &CompanySettings) -> (r: Result<
        usize,
        rusqlite::Error,
    >)
        ensures
            customers_of(*final(self)) == customers_of(*old(self)),
            products_of(*final(self)) == products_of(*old(self)),
            states_of(*final(self)) == states_of(*old(self)),
            invoices_of(*final(self)) == invoices_of(*old(self)),
            invoice_items_of(*final(self)) == invoice_items_of(*old(self)),
            r matches Ok(n) ==> (settings_of(*old(self)).contains_key(id) ==> n == 1
                && settings_of(*final(self)) == settings_of(*old(self)).insert(id, srec_of(*c)))
                && (!settings_of(*old(self)).contains_key(id) ==> n == 0 && settings_of(
                *final(self),
            ) == settings_of(*old(self))),
            r is Err ==> settings_of(*final(self)) == settings_of(*old(self)),
    {
        self.conn.execute(
            "UPDATE company_settings SET company_name = ?1, gstin = ?2, pan = ?3, address_line1 = ?4, address_line2 = ?5, city = ?6, state = ?7, pincode = ?8, phone = ?9, email = ?10, website = ?11, bank_name = ?12, account_number = ?13, ifsc_code = ?14, logo_path = ?15, updated_at = CURRENT_TIMESTAMP WHERE id = ?16",
            (&c.company_name, &c.gstin, &c.pan, &c.address_line1, &c.address_line2, &c.city,
            &c.state, &c.pincode, &c.phone, &c.email, &c.website, &c.bank_name, &c.account_number,
            &c.ifsc_code, &c.logo_path, &id),
        )
    }

    /// Reads the company profile: the most recently created row — the
    /// one with the greatest id — or nothing when none was ever saved.
    pub fn get_company_settings(&self) -> (r: Result<Option<CompanySettings>, ApiError>)
        ensures
            r matches Err(e) ==> e.error@ == "DatabaseError"@,
            r matches Ok(Some(c)) ==> (c.id matches Some(id) && settings_of(*self).contains_key(
                id,
            ) && settings_of(*self)[id] == srec_of(c) && (forall|k: i64|
                #[trigger] settings_of(*self).contains_key(k) ==> k <= id)),
            r matches Ok(None) ==> settings_of(*self).dom() == Set::<i64>::empty(),
    {
        let cells = match self.q_settings_latest() {
            Ok(o) => o,
            Err(e) => {
                return Err(db_err(e));
            },
        };
        match cells {
            None => Ok(None),
            Some(cs) => match settings_from_cells(&cs) {
                Some(c) => {
                    proof {
                        let id0 = choose|id: i64|
                            #[trigger] settings_of(*self).contains_key(id) && cells_v(cs@)
                                == settings_cells(id, settings_of(*self)[id]) && (forall|k: i64|
                                #[trigger] settings_of(*self).contains_key(k) ==> k <= id);
                        assert(latest_settings_cells(*self, cells_v(cs@)));
                        lemma_settings_cells_injective(
                            c.id->0,
                            srec_of(c),
                            id0,
                            settings_of(*self)[id0],
                        );
                    }
                    Ok(Some(c))
                },
                None => Err(
                    ApiError::database(String::from_str("malformed company_settings row")),
                ),
            },
        }
    }

    /// Saves the company profile: inserts a fresh row when no identity
    /// is present — which then becomes the profile that reads return —
    /// and updates the row in place when one is. Returns the identity
    /// either way.
    pub fn save_company_settings(&mut self, c: &CompanySettings) -> (r: Result<i64, ApiError>)
        ensures
            customers_of(*final(self)) == customers_of(*old(self)),
            products_of(*final(self)) == products_of(*old(self)),
            states_of(*final(self)) == states_of(*old(self)),
            invoices_of(*final(self)) == invoices_of(*old(self)),
            invoice_items_of(*final(self)) == invoice_items_of(*old(self)),
            r matches Err(e) ==> e.error@ == "DatabaseError"@,
            r matches Ok(id) ==> match c.id {
                Some(cid) => id == cid && (settings_of(*old(self)).contains_key(cid)
                    ==> settings_of(*final(self)) == settings_of(*old(self)).insert(
                    cid,
                    srec_of(*c),
                )) && (!settings_of(*old(self)).contains_key(cid) ==> settings_of(*final(self))
                    == settings_of(*old(self))),
                None => settings_id_above(settings_of(*old(self)), id) && settings_of(
                    *final(self),
                ) == settings_of(*old(self)).insert(id, srec_of(*c)),
            },
            r is Err ==> settings_of(*final(self)) == settings_of(*old(self)),
    {
        match c.id {
            Some(cid) => match self.upd_settings(cid, c) {
                Ok(_) => Ok(cid),
                Err(e) => Err(db_err(e)),
            },
            None => match self.ins_settings(c) {
                Ok(id) => Ok(id),
                Err(e) => Err(db_err(e)),
            },
        }
    }
}

/// A freshly saved profile is the one a read then returns: its id is
/// greater than every earlier row's, so it is the most recently created
/// row. This reads the singleton-by-convention rule at the level of the
/// table model.
pub proof fn lemma_saved_settings_is_latest(m: Map<i64, SettingsRec>, id: i64, d: SettingsRec)
    requires
        !m.contains_key(id),
        forall|k: i64| #[trigger] m.contains_key(k) ==> k < id,
    ensures
        m.insert(id, d).contains_key(id),
        m.insert(id, d)[id] == d,
        forall|k: i64| #[trigger] m.insert(id, d).contains_key(k) ==> k <= id,
{
}

} // verus!
