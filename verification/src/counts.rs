//! Row counting over a closed list of table names.
//!
//! The table name a caller hands in is held against a fixed allow-list
//! before any query is built from it: an unrecognized name is rejected,
//! never interpolated into query text.

use vstd::prelude::*;
use vstd::string::StringExecFns;
use crate::customers::customers_of;
use crate::error::ApiError;
use crate::invoices::InvoiceItemRec;
use crate::products::products_of;
use crate::settings::settings_of;
use crate::states::states_of;
use crate::store::{db_err, invoices_of, Database};
use crate::strutil::str_eq;

verus! {

/// The invoice line items the store holds: row id to row data. The
/// store never writes these, but the model carries the full row so that
/// the mutating operations can state that historical line snapshots
/// stay untouched.
pub uninterp spec fn invoice_items_of(db: Database) -> Map<i64, InvoiceItemRec>;

/// The closed list of tables that may be counted.
#[derive(Clone, Copy, Debug, PartialEq, Eq, Structural)]
pub enum TableName {
    CompanySettings,
    Customers,
    Products,
    Invoices,
    InvoiceItems,
    IndianStates,
}

/// The table name a caller-supplied string denotes, if any.
pub open spec fn parsed_table(s: Seq<char>) -> Option<TableName> {
    if s == "company_settings"@ {
        Option::Some(TableName::CompanySettings)
    } else if s == "customers"@ {
        Option::Some(TableName::Customers)
    } else if s == "products"@ {
        Option::Some(TableName::Products)
    } else if s == "invoices"@ {
        Option::Some(TableName::Invoices)
    } else if s == "invoice_items"@ {
        Option::Some(TableName::InvoiceItems)
    } else if s == "indian_states"@ {
        Option::Some(TableName::IndianStates)
    } else {
        Option::None
    }
}

/// The row counts the utility operations report.
#[derive(Debug, Clone)]
pub struct RecordCounts {
    pub customers: i64,
    pub products: i64,
    pub invoices: i64,
}

impl Database {
    /// Relies on rusqlite (`prepare`, `query`, `Rows::next`, `Row::get`)
    /// running `SELECT COUNT(*)` against the named table: SQLite returns
    /// the number of rows it holds.
    #[verifier::external_body]
    fn q_count(&self, t: TableName) -> (r: Result<i64, rusqlite::Error>)
        ensures
            r matches Ok(n) ==> n >= 0,
            r matches Ok(n) ==> t == TableName::CompanySettings ==> n == settings_of(*self).len(),
            r matches Ok(n) ==> t == TableName::Customers ==> n == customers_of(*self).len(),
            r matches Ok(n) ==> t == TableName::Products ==> n == products_of(*self).len(),
            r matches Ok(n) ==> t == TableName::Invoices ==> n == invoices_of(*self).len(),
            r matches Ok(n) ==> t == TableName::InvoiceItems ==> n == invoice_items_of(*self).len(),
            r matches Ok(n) ==> t == TableName::IndianStates ==> n == states_of(*self).len(),
    {
        let sql = match t {
            TableName::CompanySettings => "SELECT COUNT(*) FROM company_settings",
            TableName::Customers => "SELECT COUNT(*) FROM customers",
            TableName::Products => "SELECT COUNT(*) FROM products",
            TableName::Invoices => "SELECT COUNT(*) FROM invoices",
            TableName::InvoiceItems => "SELECT COUNT(*) FROM invoice_items",
            TableName::IndianStates => "SELECT COUNT(*) FROM indian_states",
        };
        let mut stmt = self.conn.prepare(sql)?;
        let mut rows = stmt.query([])?;
        match rows.next()? {
            Some(row) => row.get(0),
            None => Ok(0),
        }
    }

    /// Counts the rows of a named table. The name is held against the
    /// closed allow-list first: an unrecognized name is an error, and no
    /// query is ever built from it.
    pub fn count_records(&self, table: &str) -> (r: Result<i64, ApiError>)
        ensures
            r matches Err(e) ==> e.error@ == "DatabaseError"@,
            parsed_table(table@) is None ==> (r matches Err(e) && e.error@ == "DatabaseError"@
                && e.message@ == "unrecognized table name"@),
            r matches Ok(n) ==> n >= 0 && parsed_table(table@) is Some,
            r matches Ok(n) ==> parsed_table(table@) == Some(TableName::CompanySettings) ==> n
                == settings_of(*self).len(),
            r matches Ok(n) ==> parsed_table(table@) == Some(TableName::Customers) ==> n
                == customers_of(*self).len(),
            r matches Ok(n) ==> parsed_table(table@) == Some(TableName::Products) ==> n
                == products_of(*self).len(),
            r matches Ok(n) ==> parsed_table(table@) == Some(TableName::Invoices) ==> n
                == invoices_of(*self).len(),
            r matches Ok(n) ==> parsed_table(table@) == Some(TableName::InvoiceItems) ==> n
                == invoice_items_of(*self).len(),
            r matches Ok(n) ==> parsed_table(table@) == Some(TableName::IndianStates) ==> n
                == states_of(*self).len(),
    {
        let t: TableName = if str_eq(table, "company_settings") {
            TableName::CompanySettings
        } else if str_eq(table, "customers") {
            TableName::Customers
        } else if str_eq(table, "products") {
            TableName::Products
        } else if str_eq(table, "invoices") {
            TableName::Invoices
        } else if str_eq(table, "invoice_items") {
            TableName::InvoiceItems
        } else if str_eq(table, "indian_states") {
            TableName::IndianStates
        } else {
            return Err(ApiError::database(String::from_str("unrecognized table name")));
        };
        match self.q_count(t) {
            Ok(n) => Ok(n),
            Err(e) => Err(db_err(e)),
        }
    }

    /// Reports how many customers, products and invoices the store
    /// holds.
    pub fn get_record_counts(&self) -> (r: Result<RecordCounts, ApiError>)
        ensures
            r matches Err(e) ==> e.error@ == "DatabaseError"@,
            r matches Ok(c) ==> c.customers == customers_of(*self).len() && c.products
                == products_of(*self).len() && c.invoices == invoices_of(*self).len()
                && c.customers >= 0 && c.products >= 0 && c.invoices >= 0,
    {
        let customers = match self.q_count(TableName::Customers) {
            Ok(n) => n,
            Err(e) => {
                return Err(db_err(e));
            },
        };
        let products = match self.q_count(TableName::Products) {
            Ok(n) => n,
            Err(e) => {
                return Err(db_err(e));
            },
        };
        let invoices = match self.q_count(TableName::Invoices) {
            Ok(n) => n,
            Err(e) => {
                return Err(db_err(e));
            },
        };
        Ok(RecordCounts { customers, products, invoices })
    }
}

} // verus!
