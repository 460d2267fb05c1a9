//! The application-facing command layer.
//!
//! One `AppState` guards a lazily-initialized store handle: before
//! initialization every operation fails with the store-not-initialized
//! error, after it each command delegates to the store operation of the
//! same name. The caller (the application shell) is expected to hold the
//! state under one exclusive lock, so no operation overlaps another.

use vstd::prelude::*;
use crate::counts::{invoice_items_of, RecordCounts};
use crate::customers::{customers_of, rec_of, customer_listed, Customer};
use crate::error::ApiError;
use crate::numbering::spec_next_invoice_number;
use crate::products::{deactivated, prec_of, product_listed, products_of, Product};
use crate::settings::{settings_id_above, settings_of, srec_of, CompanySettings};
use crate::states::{no_state_with_code, seeded_states_present, state_listed, states_of, IndianState};
use crate::store::{invoices_of, is_last_invoice_number, Database};

verus! {

/// The lazily-initialized store handle all commands go through.
pub struct AppState {
    pub db: Option<Database>,
}

impl AppState {
    /// A state with no store attached yet.
    pub fn new() -> (r: AppState)
        ensures
            r.db is None,
    {
        AppState { db: None }
    }

    /// Opens (or creates) the database file at `path`, applies the
    /// schema, and attaches the handle: from here on the commands work.
    pub fn initialize_database(&mut self, path: &str) -> (r: Result<bool, ApiError>)
        ensures
            r matches Err(e) ==> e.error@ == "DatabaseError"@,
            r matches Ok(b) ==> b && (final(self).db matches Some(d) && seeded_states_present(
                states_of(d),
            )),
    {
        let mut db = match Database::new(path) {
            Ok(db) => db,
            Err(e) => {
                return Err(e);
            },
        };
        match db.initialize_schema() {
            Ok(_) => (),
            Err(e) => {
                return Err(e);
            },
        }
        self.db = Some(db);
        Ok(true)
    }

    /// Attaches an already-opened store — the constructor-injected path
    /// that lets tests run against an isolated in-memory instance.
    pub fn attach(&mut self, db: Database)
        ensures
            final(self).db == Some(db),
    {
        self.db = Some(db);
    }

    /// True when a store is attached and a trivial count against the
    /// company profile table succeeds; false when none is attached.
    pub fn check_database_health(&self) -> (r: Result<bool, ApiError>)
        ensures
            self.db is None ==> (r matches Ok(b) && !b),
            self.db is Some ==> (r matches Ok(b) ==> b),
            self.db is Some ==> (r matches Err(e) ==> e.error@ == "DatabaseError"@),
            r matches Ok(b) ==> b ==> self.db is Some,
    {
        match &self.db {
            None => Ok(false),
            Some(d) => match d.count_records("company_settings") {
                Ok(_) => Ok(true),
                Err(e) => Err(e),
            },
        }
    }

    /// Reads the company profile (see `Database::get_company_settings`).
    pub fn get_company_settings(&self) -> (r: Result<Option<CompanySettings>, ApiError>)
        ensures
            self.db is Some ==> (r matches Err(e) ==> e.error@ == "DatabaseError"@),
            self.db is None ==> (r matches Err(e) && e.error@ == "DatabaseNotInitialized"@ && e.message@
                == "Database not initialized"@),
            self.db matches Some(d) ==> {
                &&& r matches Ok(Some(c)) ==> (c.id matches Some(id) && settings_of(
                    d,
                ).contains_key(id) && settings_of(d)[id] == srec_of(c) && (forall|k: i64|
                    #[trigger] settings_of(d).contains_key(k) ==> k <= id))
                &&& r matches Ok(None) ==> settings_of(d).dom() == Set::<i64>::empty()
            },
    {
        match &self.db {
            None => Err(ApiError::not_initialized()),
            Some(d) => d.get_company_settings(),
        }
    }

    /// Saves the company profile (see
    /// `Database::save_company_settings`).
    pub fn save_company_settings(&mut self, settings: &CompanySettings) -> (r: Result<
        i64,
        ApiError,
    >)
        ensures
            old(self).db is Some ==> (r matches Err(e) ==> e.error@ == "DatabaseError"@),
            old(self).db is None ==> *final(self) == *old(self) && (r matches Err(e) && e.error@
                == "DatabaseNotInitialized"@),
            old(self).db matches Some(d) ==> (final(self).db matches Some(d2) && (r matches Ok(
                id,
            ) ==> match settings.id {
                Some(cid) => id == cid && (settings_of(d).contains_key(cid) ==> settings_of(d2)
                    == settings_of(d).insert(cid, srec_of(*settings))) && (!settings_of(
                    d,
                ).contains_key(cid) ==> settings_of(d2) == settings_of(d)),
                None => settings_id_above(settings_of(d), id) && settings_of(d2) == settings_of(
                    d,
                ).insert(id, srec_of(*settings)),
            }) && (r is Err ==> settings_of(d2) == settings_of(d)) && customers_of(d2) == customers_of(d) && products_of(d2) == products_of(d) && states_of(d2) == states_of(d) && invoices_of(d2) == invoices_of(d) && invoice_items_of(d2) == invoice_items_of(d)),
    {
        match &mut self.db {
            None => Err(ApiError::not_initialized()),
            Some(d) => d.save_company_settings(settings),
        }
    }

    /// Lists customers (see `Database::get_customers`).
    pub fn get_customers(&self, limit: Option<i32>, offset: Option<i32>) -> (r: Result<
        Vec<Customer>,
        ApiError,
    >)
        ensures
            self.db is Some ==> (r matches Err(e) ==> e.error@ == "DatabaseError"@),
            self.db is None ==> (r matches Err(e) && e.error@ == "DatabaseNotInitialized"@ && e.message@
                == "Database not initialized"@),
            self.db matches Some(d) ==> (r matches Ok(cs) ==> forall|i: int|
                0 <= i < cs@.len() ==> customer_listed(customers_of(d), #[trigger] cs@[i])),
    {
        match &self.db {
            None => Err(ApiError::not_initialized()),
            Some(d) => d.get_customers(limit, offset),
        }
    }

    /// Looks a customer up by id (see `Database::get_customer_by_id`).
    pub fn get_customer_by_id(&self, id: i64) -> (r: Result<Option<Customer>, ApiError>)
        ensures
            self.db is Some ==> (r matches Err(e) ==> e.error@ == "DatabaseError"@),
            self.db is None ==> (r matches Err(e) && e.error@ == "DatabaseNotInitialized"@ && e.message@
                == "Database not initialized"@),
            self.db matches Some(d) ==> {
                &&& r matches Ok(Some(c)) ==> customers_of(d).contains_key(id) && c.id == Some(
                    id,
                ) && customers_of(d)[id] == rec_of(c)
                &&& r matches Ok(None) ==> !customers_of(d).contains_key(id)
            },
    {
        match &self.db {
            None => Err(ApiError::not_initialized()),
            Some(d) => d.get_customer_by_id(id),
        }
    }

    /// Saves a customer (see `Database::save_customer`).
    pub fn save_customer(&mut self, customer: &Customer) -> (r: Result<i64, ApiError>)
        ensures
            old(self).db is Some ==> (r matches Err(e) ==> e.error@ == "DatabaseError"@),
            old(self).db is None ==> *final(self) == *old(self) && (r matches Err(e) && e.error@
                == "DatabaseNotInitialized"@),
            old(self).db matches Some(d) ==> (final(self).db matches Some(d2) && (r matches Ok(
                id,
            ) ==> match customer.id {
                Some(cid) => id == cid && (customers_of(d).contains_key(cid) ==> customers_of(
                    d2,
                ) == customers_of(d).insert(cid, rec_of(*customer))) && (!customers_of(
                    d,
                ).contains_key(cid) ==> customers_of(d2) == customers_of(d)),
                None => !customers_of(d).contains_key(id) && customers_of(d2) == customers_of(
                    d,
                ).insert(id, rec_of(*customer)),
            }) && (r is Err ==> customers_of(d2) == customers_of(d)) && products_of(d2) == products_of(d) && settings_of(d2) == settings_of(d) && states_of(d2) == states_of(d) && invoices_of(d2) == invoices_of(d) && invoice_items_of(d2) == invoice_items_of(d)),
    {
        match &mut self.db {
            None => Err(ApiError::not_initialized()),
            Some(d) => d.save_customer(customer),
        }
    }

    /// Deletes a customer — the hard delete (see
    /// `Database::delete_customer`).
    pub fn delete_customer(&mut self, id: i64) -> (r: Result<bool, ApiError>)
        ensures
            old(self).db is Some ==> (r matches Err(e) ==> e.error@ == "DatabaseError"@),
            old(self).db is None ==> *final(self) == *old(self) && (r matches Err(e) && e.error@
                == "DatabaseNotInitialized"@),
            old(self).db matches Some(d) ==> (final(self).db matches Some(d2) && (r matches Ok(
                b,
            ) ==> customers_of(d2) == customers_of(d).remove(id) && b == customers_of(
                d,
            ).contains_key(id)) && (r is Err ==> customers_of(d2) == customers_of(d)) && products_of(d2) == products_of(d) && settings_of(d2) == settings_of(d) && states_of(d2) == states_of(d) && invoices_of(d2) == invoices_of(d) && invoice_items_of(d2) == invoice_items_of(d)),
    {
        match &mut self.db {
            None => Err(ApiError::not_initialized()),
            Some(d) => d.delete_customer(id),
        }
    }

    /// Searches customers (see `Database::search_customers`).
    pub fn search_customers(&self, query: &str) -> (r: Result<Vec<Customer>, ApiError>)
        ensures
            self.db is Some ==> (r matches Err(e) ==> e.error@ == "DatabaseError"@),
            self.db is None ==> (r matches Err(e) && e.error@ == "DatabaseNotInitialized"@ && e.message@
                == "Database not initialized"@),
            self.db matches Some(d) ==> (r matches Ok(cs) ==> forall|i: int|
                0 <= i < cs@.len() ==> customer_listed(customers_of(d), #[trigger] cs@[i])),
    {
        match &self.db {
            None => Err(ApiError::not_initialized()),
            Some(d) => d.search_customers(query),
        }
    }

    /// Lists active products (see `Database::get_products`).
    pub fn get_products(&self, limit: Option<i32>, offset: Option<i32>) -> (r: Result<
        Vec<Product>,
        ApiError,
    >)
        ensures
            self.db is Some ==> (r matches Err(e) ==> e.error@ == "DatabaseError"@),
            self.db is None ==> (r matches Err(e) && e.error@ == "DatabaseNotInitialized"@ && e.message@
                == "Database not initialized"@),
            self.db matches Some(d) ==> (r matches Ok(ps) ==> forall|i: int|
                0 <= i < ps@.len() ==> product_listed(products_of(d), #[trigger] ps@[i])
                    && ps@[i].is_active),
    {
        match &self.db {
            None => Err(ApiError::not_initialized()),
            Some(d) => d.get_products(limit, offset),
        }
    }

    /// Looks a product up by id (see `Database::get_product_by_id`).
    pub fn get_product_by_id(&self, id: i64) -> (r: Result<Option<Product>, ApiError>)
        ensures
            self.db is Some ==> (r matches Err(e) ==> e.error@ == "DatabaseError"@),
            self.db is None ==> (r matches Err(e) && e.error@ == "DatabaseNotInitialized"@ && e.message@
                == "Database not initialized"@),
            self.db matches Some(d) ==> {
                &&& r matches Ok(Some(p)) ==> products_of(d).contains_key(id) && p.id == Some(
                    id,
                ) && products_of(d)[id] == prec_of(p)
                &&& r matches Ok(None) ==> !products_of(d).contains_key(id)
            },
    {
        match &self.db {
            None => Err(ApiError::not_initialized()),
            Some(d) => d.get_product_by_id(id),
        }
    }

    /// Saves a product (see `Database::save_product`).
    pub fn save_product(&mut self, product: &Product) -> (r: Result<i64, ApiError>)
        ensures
            old(self).db is Some ==> (r matches Err(e) ==> e.error@ == "DatabaseError"@),
            old(self).db is None ==> *final(self) == *old(self) && (r matches Err(e) && e.error@
                == "DatabaseNotInitialized"@),
            old(self).db matches Some(d) ==> (final(self).db matches Some(d2) && (r matches Ok(
                id,
            ) ==> match product.id {
                Some(pid) => id == pid && (products_of(d).contains_key(pid) ==> products_of(d2)
                    == products_of(d).insert(pid, prec_of(*product))) && (!products_of(
                    d,
                ).contains_key(pid) ==> products_of(d2) == products_of(d)),
                None => !products_of(d).contains_key(id) && products_of(d2) == products_of(
                    d,
                ).insert(id, prec_of(*product)),
            }) && (r is Err ==> products_of(d2) == products_of(d)) && customers_of(d2) == customers_of(d) && settings_of(d2) == settings_of(d) && states_of(d2) == states_of(d) && invoices_of(d2) == invoices_of(d) && invoice_items_of(d2) == invoice_items_of(d)),
    {
        match &mut self.db {
            None => Err(ApiError::not_initialized()),
            Some(d) => d.save_product(product),
        }
    }

    /// Deletes a product — the soft delete (see
    /// `Database::delete_product`).
    pub fn delete_product(&mut self, id: i64) -> (r: Result<bool, ApiError>)
        ensures
            old(self).db is Some ==> (r matches Err(e) ==> e.error@ == "DatabaseError"@),
            old(self).db is None ==> *final(self) == *old(self) && (r matches Err(e) && e.error@
                == "DatabaseNotInitialized"@),
            old(self).db matches Some(d) ==> (final(self).db matches Some(d2) && (r matches Ok(
                b,
            ) ==> b == products_of(d).contains_key(id) && (products_of(d).contains_key(id)
                ==> products_of(d2) == products_of(d).insert(
                id,
                deactivated(products_of(d)[id]),
            )) && (!products_of(d).contains_key(id) ==> products_of(d2) == products_of(d))) && (r is Err ==> products_of(d2) == products_of(d)) && customers_of(d2) == customers_of(d) && settings_of(d2) == settings_of(d) && states_of(d2) == states_of(d) && invoices_of(d2) == invoices_of(d) && invoice_items_of(d2) == invoice_items_of(d)),
    {
        match &mut self.db {
            None => Err(ApiError::not_initialized()),
            Some(d) => d.delete_product(id),
        }
    }

    /// Searches active products (see `Database::search_products`).
    pub fn search_products(&self, query: &str) -> (r: Result<Vec<Product>, ApiError>)
        ensures
            self.db is Some ==> (r matches Err(e) ==> e.error@ == "DatabaseError"@),
            self.db is None ==> (r matches Err(e) && e.error@ == "DatabaseNotInitialized"@ && e.message@
                == "Database not initialized"@),
            self.db matches Some(d) ==> (r matches Ok(ps) ==> forall|i: int|
                0 <= i < ps@.len() ==> product_listed(products_of(d), #[trigger] ps@[i])
                    && ps@[i].is_active),
    {
        match &self.db {
            None => Err(ApiError::not_initialized()),
            Some(d) => d.search_products(query),
        }
    }

    /// Lists the active states (see `Database::get_indian_states`).
    pub fn get_indian_states(&self) -> (r: Result<Vec<IndianState>, ApiError>)
        ensures
            self.db is Some ==> (r matches Err(e) ==> e.error@ == "DatabaseError"@),
            self.db is None ==> (r matches Err(e) && e.error@ == "DatabaseNotInitialized"@ && e.message@
                == "Database not initialized"@),
            self.db matches Some(d) ==> (r matches Ok(ss) ==> forall|i: int|
                0 <= i < ss@.len() ==> state_listed(states_of(d), #[trigger] ss@[i])
                    && ss@[i].is_active),
    {
        match &self.db {
            None => Err(ApiError::not_initialized()),
            Some(d) => d.get_indian_states(),
        }
    }

    /// Looks a state up by its GST code (see
    /// `Database::get_state_by_code`).
    pub fn get_state_by_code(&self, state_code: &str) -> (r: Result<
        Option<IndianState>,
        ApiError,
    >)
        ensures
            self.db is Some ==> (r matches Err(e) ==> e.error@ == "DatabaseError"@),
            self.db is None ==> (r matches Err(e) && e.error@ == "DatabaseNotInitialized"@ && e.message@
                == "Database not initialized"@),
            self.db matches Some(d) ==> {
                &&& r matches Ok(Some(s)) ==> state_listed(states_of(d), s) && s.state_code@
                    == state_code@
                &&& r matches Ok(None) ==> no_state_with_code(states_of(d), state_code@)
            },
    {
        match &self.db {
            None => Err(ApiError::not_initialized()),
            Some(d) => d.get_state_by_code(state_code),
        }
    }

    /// Reports the customer, product and invoice row counts (see
    /// `Database::get_record_counts`).
    pub fn get_record_counts(&self) -> (r: Result<RecordCounts, ApiError>)
        ensures
            self.db is Some ==> (r matches Err(e) ==> e.error@ == "DatabaseError"@),
            self.db is None ==> (r matches Err(e) && e.error@ == "DatabaseNotInitialized"@ && e.message@
                == "Database not initialized"@),
            self.db matches Some(d) ==> (r matches Ok(c) ==> c.customers == customers_of(
                d,
            ).len() && c.products == products_of(d).len() && c.invoices == invoices_of(d).len()),
    {
        match &self.db {
            None => Err(ApiError::not_initialized()),
            Some(d) => d.get_record_counts(),
        }
    }

    /// Computes the next invoice number; the format defaults to the
    /// fixed layout and is not interpolated (see
    /// `Database::get_next_invoice_number`).
    pub fn get_next_invoice_number(&self, format: Option<&str>) -> (r: Result<String, ApiError>)
        ensures
            self.db is Some ==> (r matches Err(e) ==> e.error@ == "DatabaseError"@),
            self.db is None ==> (r matches Err(e) && e.error@ == "DatabaseNotInitialized"@ && e.message@
                == "Database not initialized"@),
            self.db matches Some(d) ==> (r matches Ok(s) ==> exists|
                last: Option<Seq<char>>,
                y: int,
                mo: int,
            |
                is_last_invoice_number(invoices_of(d), last) && 1 <= mo <= 12 && s@
                    == spec_next_invoice_number(last, y, mo)),
    {
        let fmt = match format {
            Some(f) => f,
            None => "INV-{YYYY}-{MM}-{####}",
        };
        match &self.db {
            None => Err(ApiError::not_initialized()),
            Some(d) => d.get_next_invoice_number(fmt),
        }
    }
}

} // verus!
