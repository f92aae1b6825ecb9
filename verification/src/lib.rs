//! Invoices: their data model, the rules by which one is decoded from a YAML
//! document, and the computation of their derived totals.
//!
//! - [`model`] holds the invoice and its parts, [`terms`] the enumerated
//!   units and payment types, [`decimal`] the decimal quantities and
//!   [`defaults`] what a document may leave out.
//! - [`yaml`] is the border to `serde_yaml`, which parses the document;
//!   [`decode`] reads a parsed document by the keys of [`schema`], [`rules`]
//!   makes the model out of what was read, and [`load`] goes from text to
//!   invoice. A document that does not fit is refused with an [`error`] that
//!   names the place and the fault.
//! - [`compute`] fills in the total of each line and of the invoice, and
//!   [`output`] names the file that an invoice is rendered to.

pub mod decimal;
pub mod terms;
pub mod defaults;
pub mod schema;
pub mod error;
pub mod field;
pub mod model;
pub mod rules;
pub mod yaml;
pub mod decode;
pub mod load;
pub mod compute;
pub mod output;
