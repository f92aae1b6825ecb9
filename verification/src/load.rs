//! From the text of a document to an invoice.

use vstd::prelude::*;
use crate::decode::{decode_invoice, invoice_of};
use crate::error::DecodeError;
use crate::model::Invoice;
use crate::yaml::{self, document_of};

verus! {

/// Why a text gives no invoice.
#[derive(Debug, PartialEq, Eq)]
pub enum LoadError {
    /// The text is not one well-formed YAML document; the message is the
    /// parser's.
    Syntax(String),
    /// The document is well-formed and does not fit the model.
    Decode(DecodeError),
}

impl LoadError {
    /// The error in words: the parser's message, or the decoding error's.
    pub fn describe(&self) -> (r: String)
        ensures
            match *self {
                LoadError::Syntax(message) => r@ == message@,
                LoadError::Decode(e) => r@ == e.text(),
            },
    {
        match self {
            LoadError::Syntax(message) => message.clone(),
            LoadError::Decode(e) => e.describe(),
        }
    }
}

/// Parses a text and decodes the invoice that it describes. The derived
/// totals of the invoice are zero: they are still to be computed.
///
/// A text that the parser refuses gives `Syntax`. Any other text gives what
/// [`invoice_of`] says of the parsed document: the invoice, or `Decode` with
/// the first fault.
pub fn load_invoice(text: &str) -> (r: Result<Invoice, LoadError>)
    ensures
        match document_of(text@) {
            None => r matches Err(LoadError::Syntax(_)),
            Some(document) => match invoice_of(document) {
                Ok(invoice) => r matches Ok(found) && found.deep_view() == invoice,
                Err(e) => r matches Err(LoadError::Decode(found)) && found == e,
            },
        },
{
    match yaml::parse(text) {
        Err(refusal) => Err(LoadError::Syntax(refusal.to_string())),
        Ok(document) => match decode_invoice(&document) {
            Ok(invoice) => Ok(invoice),
            Err(e) => Err(LoadError::Decode(e)),
        },
    }
}

} // verus!
