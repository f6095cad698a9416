//! Export of DNS hosted zones into a stable JSON schema.
//!
//! `model` holds the provider-side data as plain values, `export` maps it
//! field for field into the export schema, `select` resolves the operator's
//! zone choice, `json` renders the export file text, and `document` states
//! what that file holds once read back.

pub mod document;
pub mod export;
pub mod json;
pub mod model;
pub mod select;
