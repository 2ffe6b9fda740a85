//! A data-driven test harness.
//!
//! Test logic is written once; the data that drives it (a shared `global`
//! record and an ordered list of `test` records) lives in a TOML document.
//! The crate loads such a document, materialises it into typed records
//! through a layer of value adapters, and invokes a user-supplied check
//! procedure once per test record, in document order.
//!
//! The TOML text itself is parsed by the `toml` crate; everything from the
//! parsed value onward — the value model, the adapters, the record
//! construction and the run loop — is verified.

pub mod adapt;
pub mod document;
pub mod harness;
pub mod records;
pub mod value;
