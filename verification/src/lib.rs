//! Persistence and validation core for an Indian GST invoicing application.
//!
//! The crate has two halves:
//!
//! * a record store over an embedded SQLite database (company settings,
//!   customers, products, Indian state reference data, invoice numbering),
//!   whose table contents are modelled as maps from row id to row data and
//!   whose operations carry contracts over that model; and
//! * pure validators for the two Indian tax identifiers a GST invoice
//!   carries: the 15-character GSTIN and the HSN/SAC classification codes.
//!
//! Everything that decides or computes is verified; only the calls into the
//! database driver and the wall clock are trusted, each behind a small
//! wrapper whose contract states what the call does.

pub mod appstate;
pub mod cells;
pub mod counts;
pub mod customers;
pub mod error;
pub mod invoices;
pub mod numbering;
pub mod products;
pub mod settings;
pub mod states;
pub mod store;
pub mod strutil;
pub mod validation;
