//! The rules that make a part of the model out of the fields of its mapping:
//! which keys are required, what stands in for the others, and how a token
//! becomes a term. The fields are checked in the order of the model, and the
//! first that fails is reported.

use vstd::prelude::*;
use crate::decimal::{Decimal, ZERO_BITS};
use crate::defaults::{Defaults, DEFAULT_AMOUNT_BITS, DEFAULT_UNIT, DEFAULT_UNIT_PRICE_BITS};
use crate::error::{DecodeError, Fault};
use crate::field::{outcome, Field};
use crate::model::{
    Client, ClientView, Company, CompanyView, Invoice, InvoiceView, Payment, PaymentView, Phone,
    PhoneView, Product, ProductView,
};
use crate::schema::Key;
use crate::terms::{PaymentType, Unit};

verus! {

/// The unit of a line, from what its mapping holds under `unit`. The unit
/// never fails a line: the token of units gives units, and anything else
/// gives the default, be it a missing key, a string that names no unit or a
/// value that is no string.
pub open spec fn unit_rule(unit: Field<Seq<char>>) -> Unit {
    match unit {
        Field::Present(token) => Unit::of_token(token),
        _ => DEFAULT_UNIT,
    }
}

/// The payment type, from what the mapping holds under `type`: the key is
/// required, and a token that names no payment type is an error.
pub open spec fn payment_type_rule(kind: Field<Seq<char>>) -> Result<PaymentType, DecodeError> {
    match kind.demanded(Key::Type) {
        Err(e) => Err(e),
        Ok(token) => match PaymentType::of_token(token) {
            Some(kind) => Ok(kind),
            None => Err(DecodeError::here(Fault::UnknownPaymentType).under_key(Key::Type)),
        },
    }
}

/// Reads the unit of a line from its field.
pub fn read_unit(unit: Field<String>) -> (r: Unit)
    ensures
        r == unit_rule(unit.deep_view()),
{
    match unit {
        Field::Present(token) => Unit::from_token(token.as_str()),
        _ => Defaults::get_default_unit(),
    }
}

/// Reads the payment type from its field.
pub fn read_payment_type(kind: Field<String>) -> (r: Result<PaymentType, DecodeError>)
    ensures
        r == payment_type_rule(kind.deep_view()),
{
    match kind.required(Key::Type) {
        Err(e) => Err(e),
        Ok(token) => match PaymentType::from_token(token.as_str()) {
            Some(kind) => Ok(kind),
            None => Err(DecodeError::at(Fault::UnknownPaymentType).within_key(Key::Type)),
        },
    }
}

impl Phone {
    /// The phone that the fields make: both are required.
    pub open spec fn assembled(
        display: Field<Seq<char>>,
        intl: Field<Seq<char>>,
    ) -> Result<PhoneView, DecodeError> {
        match (display.demanded(Key::Display), intl.demanded(Key::Intl)) {
            (Err(e), _) => Err(e),
            (_, Err(e)) => Err(e),
            (Ok(display), Ok(intl)) => Ok(PhoneView { display, intl }),
        }
    }

    /// Makes a phone of its fields.
    pub fn from_fields(display: Field<String>, intl: Field<String>) -> (r: Result<
        Phone,
        DecodeError,
    >)
        ensures
            outcome(r) == Phone::assembled(display.deep_view(), intl.deep_view()),
    {
        let display = display.required(Key::Display)?;
        let intl = intl.required(Key::Intl)?;
        Ok(Phone { display, intl })
    }
}

impl Client {
    /// The client that the fields make: both are required.
    pub open spec fn assembled(
        name: Field<Seq<char>>,
        address: Field<Seq<Seq<char>>>,
    ) -> Result<ClientView, DecodeError> {
        match (name.demanded(Key::Name), address.demanded(Key::Address)) {
            (Err(e), _) => Err(e),
            (_, Err(e)) => Err(e),
            (Ok(name), Ok(address)) => Ok(ClientView { name, address }),
        }
    }

    /// Makes a client of its fields.
    pub fn from_fields(name: Field<String>, address: Field<Vec<String>>) -> (r: Result<
        Client,
        DecodeError,
    >)
        ensures
            outcome(r) == Client::assembled(name.deep_view(), address.deep_view()),
    {
        let name = name.required(Key::Name)?;
        let address = address.required(Key::Address)?;
        Ok(Client { name, address })
    }
}

impl Company {
    /// The company that the fields make: all seven are required.
    pub open spec fn assembled(
        name: Field<Seq<char>>,
        activity: Field<Seq<char>>,
        address: Field<Seq<Seq<char>>>,
        phone: Field<PhoneView>,
        website: Field<Seq<char>>,
        mail: Field<Seq<char>>,
        siret: Field<Seq<char>>,
    ) -> Result<CompanyView, DecodeError> {
        match (
            name.demanded(Key::Name),
            activity.demanded(Key::Activity),
            address.demanded(Key::Address),
            phone.demanded(Key::Phone),
            website.demanded(Key::Website),
            mail.demanded(Key::Mail),
            siret.demanded(Key::Siret),
        ) {
            (Err(e), _, _, _, _, _, _) => Err(e),
            (_, Err(e), _, _, _, _, _) => Err(e),
            (_, _, Err(e), _, _, _, _) => Err(e),
            (_, _, _, Err(e), _, _, _) => Err(e),
            (_, _, _, _, Err(e), _, _) => Err(e),
            (_, _, _, _, _, Err(e), _) => Err(e),
            (_, _, _, _, _, _, Err(e)) => Err(e),
            (Ok(name), Ok(activity), Ok(address), Ok(phone), Ok(website), Ok(mail), Ok(siret)) => Ok(
                CompanyView { name, activity, address, phone, website, mail, siret },
            ),
        }
    }

    /// Makes a company of its fields.
    pub fn from_fields(
        name: Field<String>,
        activity: Field<String>,
        address: Field<Vec<String>>,
        phone: Field<Phone>,
        website: Field<String>,
        mail: Field<String>,
        siret: Field<String>,
    ) -> (r: Result<Company, DecodeError>)
        ensures
            outcome(r) == Company::assembled(
                name.deep_view(),
                activity.deep_view(),
                address.deep_view(),
                phone.deep_view(),
                website.deep_view(),
                mail.deep_view(),
                siret.deep_view(),
            ),
    {
        let name = name.required(Key::Name)?;
        let activity = activity.required(Key::Activity)?;
        let address = address.required(Key::Address)?;
        let phone = phone.required(Key::Phone)?;
        let website = website.required(Key::Website)?;
        let mail = mail.required(Key::Mail)?;
        let siret = siret.required(Key::Siret)?;
        Ok(Company { name, activity, address, phone, website, mail, siret })
    }
}

impl Product {
    /// The line that the fields make. Only the description is required: a
    /// missing amount is 1.0 and a missing unit price is 50.0, and the unit
    /// is as [`unit_rule`] says. The total is left at zero.
    pub open spec fn assembled(
        description: Field<Seq<char>>,
        amount: Field<Decimal>,
        unit: Field<Seq<char>>,
        unit_price: Field<Decimal>,
    ) -> Result<ProductView, DecodeError> {
        match (
            description.demanded(Key::Description),
            amount.defaulted(Key::Amount, Decimal { bits: DEFAULT_AMOUNT_BITS }),
            unit_price.defaulted(Key::UnitPrice, Decimal { bits: DEFAULT_UNIT_PRICE_BITS }),
        ) {
            (Err(e), _, _) => Err(e),
            (_, Err(e), _) => Err(e),
            (_, _, Err(e)) => Err(e),
            (Ok(description), Ok(amount), Ok(unit_price)) => Ok(
                ProductView {
                    description,
                    amount,
                    unit: unit_rule(unit),
                    unit_price,
                    total: Decimal::zero(),
                },
            ),
        }
    }

    /// Makes an invoice line of its fields.
    pub fn from_fields(
        description: Field<String>,
        amount: Field<Decimal>,
        unit: Field<String>,
        unit_price: Field<Decimal>,
    ) -> (r: Result<Product, DecodeError>)
        ensures
            outcome(r) == Product::assembled(
                description.deep_view(),
                amount.deep_view(),
                unit.deep_view(),
                unit_price.deep_view(),
            ),
    {
        let description = description.required(Key::Description)?;
        let amount = amount.or_default(Key::Amount, Defaults::get_default_amount())?;
        let unit = read_unit(unit);
        let unit_price = unit_price.or_default(
            Key::UnitPrice,
            Defaults::get_default_unit_price(),
        )?;
        Ok(Product { description, amount, unit, unit_price, total: Decimal::from_bits(ZERO_BITS) })
    }
}

impl Payment {
    /// The terms of payment that the fields make: all three are required,
    /// and the type has to be one of the four tokens.
    pub open spec fn assembled(
        kind: Field<Seq<char>>,
        delay: Field<u64>,
        penalty: Field<Decimal>,
    ) -> Result<PaymentView, DecodeError> {
        match (
            payment_type_rule(kind),
            delay.demanded(Key::Delay),
            penalty.demanded(Key::Penalty),
        ) {
            (Err(e), _, _) => Err(e),
            (_, Err(e), _) => Err(e),
            (_, _, Err(e)) => Err(e),
            (Ok(kind), Ok(delay), Ok(penalty)) => Ok(PaymentView { kind, delay, penalty }),
        }
    }

    /// Makes terms of payment of their fields.
    pub fn from_fields(kind: Field<String>, delay: Field<u64>, penalty: Field<Decimal>) -> (r:
        Result<Payment, DecodeError>)
        ensures
            outcome(r) == Payment::assembled(
                kind.deep_view(),
                delay.deep_view(),
                penalty.deep_view(),
            ),
    {
        let kind = read_payment_type(kind)?;
        let delay = delay.required(Key::Delay)?;
        let penalty = penalty.required(Key::Penalty)?;
        Ok(Payment { kind, delay, penalty })
    }
}

impl Invoice {
    /// The invoice that the fields make: all seven are required. The total
    /// is no field of the document: it is left at zero.
    pub open spec fn assembled(
        number: Field<Seq<char>>,
        issued: Field<Seq<char>>,
        shipped: Field<Seq<char>>,
        company: Field<CompanyView>,
        client: Field<ClientView>,
        detail: Field<Seq<ProductView>>,
        payment: Field<PaymentView>,
    ) -> Result<InvoiceView, DecodeError> {
        match (
            number.demanded(Key::Number),
            issued.demanded(Key::Issued),
            shipped.demanded(Key::Shipped),
            company.demanded(Key::Company),
            client.demanded(Key::Client),
            detail.demanded(Key::Detail),
            payment.demanded(Key::Payment),
        ) {
            (Err(e), _, _, _, _, _, _) => Err(e),
            (_, Err(e), _, _, _, _, _) => Err(e),
            (_, _, Err(e), _, _, _, _) => Err(e),
            (_, _, _, Err(e), _, _, _) => Err(e),
            (_, _, _, _, Err(e), _, _) => Err(e),
            (_, _, _, _, _, Err(e), _) => Err(e),
            (_, _, _, _, _, _, Err(e)) => Err(e),
            (
                Ok(number),
                Ok(issued),
                Ok(shipped),
                Ok(company),
                Ok(client),
                Ok(detail),
                Ok(payment),
            ) => Ok(
                InvoiceView {
                    number,
                    issued,
                    shipped,
                    company,
                    client,
                    detail,
                    total: Decimal::zero(),
                    payment,
                },
            ),
        }
    }

    /// Makes an invoice of its fields.
    pub fn from_fields(
        number: Field<String>,
        issued: Field<String>,
        shipped: Field<String>,
        company: Field<Company>,
        client: Field<Client>,
        detail: Field<Vec<Product>>,
        payment: Field<Payment>,
    ) -> (r: Result<Invoice, DecodeError>)
        ensures
            outcome(r) == Invoice::assembled(
                number.deep_view(),
                issued.deep_view(),
                shipped.deep_view(),
                company.deep_view(),
                client.deep_view(),
                detail.deep_view(),
                payment.deep_view(),
            ),
    {
        let number = number.required(Key::Number)?;
        let issued = issued.required(Key::Issued)?;
        let shipped = shipped.required(Key::Shipped)?;
        let company = company.required(Key::Company)?;
        let client = client.required(Key::Client)?;
        let detail = detail.required(Key::Detail)?;
        let payment = payment.required(Key::Payment)?;
        Ok(
            Invoice {
                number,
                issued,
                shipped,
                company,
                client,
                detail,
                total: Decimal::from_bits(ZERO_BITS),
                payment,
            },
        )
    }
}

} // verus!
