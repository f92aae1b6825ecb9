//! The invoice and what it is made of. Each type has a view, in which text is a
//! sequence of characters and a list is a sequence.

use vstd::prelude::*;
use crate::decimal::Decimal;
use crate::terms::{PaymentType, Unit};

verus! {

/// One phone number in two forms, neither derived from the other.
#[derive(Debug, PartialEq, Eq)]
pub struct Phone {
    /// As a reader would write it.
    pub display: String,
    /// As it is dialled from abroad.
    pub intl: String,
}

/// A phone, seen as text.
pub struct PhoneView {
    pub display: Seq<char>,
    pub intl: Seq<char>,
}

impl DeepView for Phone {
    type V = PhoneView;

    open spec fn deep_view(&self) -> PhoneView {
        PhoneView { display: self.display@, intl: self.intl@ }
    }
}

/// The party that is billed.
#[derive(Debug, PartialEq, Eq)]
pub struct Client {
    pub name: String,
    /// The lines of the address, in order.
    pub address: Vec<String>,
}

/// A client, seen as text.
pub struct ClientView {
    pub name: Seq<char>,
    pub address: Seq<Seq<char>>,
}

impl DeepView for Client {
    type V = ClientView;

    open spec fn deep_view(&self) -> ClientView {
        ClientView { name: self.name@, address: self.address.deep_view() }
    }
}

/// The party that bills.
#[derive(Debug, PartialEq, Eq)]
pub struct Company {
    pub name: String,
    pub activity: String,
    /// The lines of the address, in order.
    pub address: Vec<String>,
    pub phone: Phone,
    pub website: String,
    pub mail: String,
    /// The registration number, kept as the text it was given as.
    pub siret: String,
}

/// A company, seen as text.
pub struct CompanyView {
    pub name: Seq<char>,
    pub activity: Seq<char>,
    pub address: Seq<Seq<char>>,
    pub phone: PhoneView,
    pub website: Seq<char>,
    pub mail: Seq<char>,
    pub siret: Seq<char>,
}

impl DeepView for Company {
    type V = CompanyView;

    open spec fn deep_view(&self) -> CompanyView {
        CompanyView {
            name: self.name@,
            activity: self.activity@,
            address: self.address.deep_view(),
            phone: self.phone.deep_view(),
            website: self.website@,
            mail: self.mail@,
            siret: self.siret@,
        }
    }
}

/// One line of an invoice.
#[derive(Debug, PartialEq, Eq)]
pub struct Product {
    pub description: String,
    /// The quantity.
    pub amount: Decimal,
    pub unit: Unit,
    pub unit_price: Decimal,
    /// Derived from `amount` and `unit_price`; zero until it is computed.
    pub total: Decimal,
}

/// An invoice line, seen as text.
pub struct ProductView {
    pub description: Seq<char>,
    pub amount: Decimal,
    pub unit: Unit,
    pub unit_price: Decimal,
    pub total: Decimal,
}

impl DeepView for Product {
    type V = ProductView;

    open spec fn deep_view(&self) -> ProductView {
        ProductView {
            description: self.description@,
            amount: self.amount,
            unit: self.unit,
            unit_price: self.unit_price,
            total: self.total,
        }
    }
}

/// The terms of payment.
#[derive(Debug, PartialEq, Eq)]
pub struct Payment {
    /// How the invoice is paid; the document's key is `type`.
    pub kind: PaymentType,
    /// The term of payment, in days.
    pub delay: u64,
    /// What a late payment costs.
    pub penalty: Decimal,
}

/// Terms of payment, as they are.
pub struct PaymentView {
    pub kind: PaymentType,
    pub delay: u64,
    pub penalty: Decimal,
}

impl DeepView for Payment {
    type V = PaymentView;

    open spec fn deep_view(&self) -> PaymentView {
        PaymentView { kind: self.kind, delay: self.delay, penalty: self.penalty }
    }
}

/// An invoice: the root of the model.
#[derive(Debug, PartialEq, Eq)]
pub struct Invoice {
    pub number: String,
    /// The date of issue, as the document gives it.
    pub issued: String,
    /// The date of delivery, as the document gives it.
    pub shipped: String,
    pub company: Company,
    pub client: Client,
    /// The lines, in order.
    pub detail: Vec<Product>,
    /// Derived from the lines' totals; zero until it is computed.
    pub total: Decimal,
    pub payment: Payment,
}

/// An invoice, seen as text and sequences.
pub struct InvoiceView {
    pub number: Seq<char>,
    pub issued: Seq<char>,
    pub shipped: Seq<char>,
    pub company: CompanyView,
    pub client: ClientView,
    pub detail: Seq<ProductView>,
    pub total: Decimal,
    pub payment: PaymentView,
}

impl DeepView for Invoice {
    type V = InvoiceView;

    open spec fn deep_view(&self) -> InvoiceView {
        InvoiceView {
            number: self.number@,
            issued: self.issued@,
            shipped: self.shipped@,
            company: self.company.deep_view(),
            client: self.client.deep_view(),
            detail: self.detail.deep_view(),
            total: self.total,
            payment: self.payment.deep_view(),
        }
    }
}

} // verus!
