//! Printer-supplies inventory core: a stock-movement ledger over catalogs of
//! brands, printers, toners and drums.
//!
//! The heart of the crate is [`store::Store`], an in-memory model of the
//! relational state (catalog tables plus the movement ledger). The write path
//! resolves a polymorphic item id to its catalog table, validates the request,
//! and applies the stock delta together with the ledger append as one
//! all-or-nothing step; the read path denormalizes printer and item details
//! across the two item tables.

pub mod catalog;
pub mod clock;
pub mod error;
pub mod ids;
pub mod movement;
pub mod status;
pub mod stock;
pub mod store;
