//! The keys of an invoice document.

use vstd::prelude::*;

verus! {

/// A key that the decoder reads from a mapping of the document.
#[derive(Clone, Copy, Debug, PartialEq, Eq, Structural)]
pub enum Key {
    Number,
    Issued,
    Shipped,
    Company,
    Client,
    Detail,
    Payment,
    Name,
    Activity,
    Address,
    Phone,
    Website,
    Mail,
    Siret,
    Display,
    Intl,
    Description,
    Amount,
    Unit,
    UnitPrice,
    Type,
    Delay,
    Penalty,
}

impl Key {
    /// The key as a document writes it.
    pub open spec fn name_text(self) -> Seq<char> {
        match self {
            Key::Number => "number"@,
            Key::Issued => "issued"@,
            Key::Shipped => "shipped"@,
            Key::Company => "company"@,
            Key::Client => "client"@,
            Key::Detail => "detail"@,
            Key::Payment => "payment"@,
            Key::Name => "name"@,
            Key::Activity => "activity"@,
            Key::Address => "address"@,
            Key::Phone => "phone"@,
            Key::Website => "website"@,
            Key::Mail => "mail"@,
            Key::Siret => "siret"@,
            Key::Display => "display"@,
            Key::Intl => "intl"@,
            Key::Description => "description"@,
            Key::Amount => "amount"@,
            Key::Unit => "unit"@,
            Key::UnitPrice => "unit_price"@,
            Key::Type => "type"@,
            Key::Delay => "delay"@,
            Key::Penalty => "penalty"@,
        }
    }

    /// The key as a document writes it.
    pub fn name(self) -> (r: &'static str)
        ensures
            r@ == self.name_text(),
    {
        match self {
            Key::Number => "number",
            Key::Issued => "issued",
            Key::Shipped => "shipped",
            Key::Company => "company",
            Key::Client => "client",
            Key::Detail => "detail",
            Key::Payment => "payment",
            Key::Name => "name",
            Key::Activity => "activity",
            Key::Address => "address",
            Key::Phone => "phone",
            Key::Website => "website",
            Key::Mail => "mail",
            Key::Siret => "siret",
            Key::Display => "display",
            Key::Intl => "intl",
            Key::Description => "description",
            Key::Amount => "amount",
            Key::Unit => "unit",
            Key::UnitPrice => "unit_price",
            Key::Type => "type",
            Key::Delay => "delay",
            Key::Penalty => "penalty",
        }
    }
}

} // verus!
