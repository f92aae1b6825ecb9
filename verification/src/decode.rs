//! Decoding a parsed document into the model.
//!
//! Each part of the model is read from one value of the document. What the
//! value has to hold is given by a function on [`Node`]; the function that
//! reads the value returns exactly that.

use vstd::prelude::*;
use crate::decimal::Decimal;
use crate::defaults::{DEFAULT_AMOUNT_BITS, DEFAULT_UNIT_PRICE_BITS};
use crate::error::{DecodeError, Fault, Path};
use crate::field::{outcome, Field};
use crate::model::{
    Client, ClientView, Company, CompanyView, Invoice, InvoiceView, Payment, PaymentView, Phone,
    PhoneView, Product, ProductView,
};
use crate::schema::Key;
use crate::terms::{payment_token_is_exact, payment_token_round_trip, PaymentType, Unit};
use crate::yaml::{self, child, node_of, nodes_of, Node};

verus! {

/// A string: its text.
pub open spec fn text_of(node: Node) -> Result<Seq<char>, DecodeError> {
    match node {
        Node::Text(s) => Ok(s),
        _ => Err(DecodeError::here(Fault::NotText)),
    }
}

/// A number, integer or not: its value as a decimal.
pub open spec fn decimal_of(node: Node) -> Result<Decimal, DecodeError> {
    match node {
        Node::Number { binary64, .. } => Ok(Decimal { bits: binary64 }),
        _ => Err(DecodeError::here(Fault::NotNumber)),
    }
}

/// An unsigned integer: its value.
pub open spec fn count_of(node: Node) -> Result<u64, DecodeError> {
    match node {
        Node::Number { unsigned: Some(n), .. } => Ok(n),
        _ => Err(DecodeError::here(Fault::NotCount)),
    }
}

/// What the items of a sequence read as, from what each of them reads as:
/// the values in order where every item reads, and otherwise the error of
/// the first item that does not, under its position.
pub open spec fn gathered<T>(reads: Seq<Result<T, DecodeError>>) -> Result<Seq<T>, DecodeError>
    decreases reads.len(),
{
    if reads.len() == 0 {
        Ok(Seq::empty())
    } else {
        match gathered(reads.drop_last()) {
            Err(e) => Err(e),
            Ok(values) => match reads.last() {
                Ok(value) => Ok(values.push(value)),
                Err(e) => Err(e.under_index((reads.len() - 1) as usize)),
            },
        }
    }
}

/// A sequence of strings: their texts, in order.
pub open spec fn texts_of(node: Node) -> Result<Seq<Seq<char>>, DecodeError> {
    match node {
        Node::Sequence(items) => gathered(Seq::new(items.len(), |i: int| text_of(items[i]))),
        _ => Err(DecodeError::here(Fault::NotSequence)),
    }
}

/// What a mapping holds under `key`, read as a string.
pub open spec fn text_lookup(node: Node, key: Key) -> Field<Seq<char>> {
    match child(node, key.name_text()) {
        None => Field::Absent,
        Some(found) => Field::of(text_of(found)),
    }
}

/// What a mapping holds under `key`, read as a decimal.
pub open spec fn decimal_lookup(node: Node, key: Key) -> Field<Decimal> {
    match child(node, key.name_text()) {
        None => Field::Absent,
        Some(found) => Field::of(decimal_of(found)),
    }
}

/// What a mapping holds under `key`, read as an unsigned integer.
pub open spec fn count_lookup(node: Node, key: Key) -> Field<u64> {
    match child(node, key.name_text()) {
        None => Field::Absent,
        Some(found) => Field::of(count_of(found)),
    }
}

/// What a mapping holds under `key`, read as a sequence of strings.
pub open spec fn texts_lookup(node: Node, key: Key) -> Field<Seq<Seq<char>>> {
    match child(node, key.name_text()) {
        None => Field::Absent,
        Some(found) => Field::of(texts_of(found)),
    }
}

/// A mapping with `display` and `intl`.
pub open spec fn phone_of(node: Node) -> Result<PhoneView, DecodeError> {
    if node is Mapping {
        Phone::assembled(text_lookup(node, Key::Display), text_lookup(node, Key::Intl))
    } else {
        Err(DecodeError::here(Fault::NotMapping))
    }
}

/// A mapping with `name` and `address`.
pub open spec fn client_of(node: Node) -> Result<ClientView, DecodeError> {
    if node is Mapping {
        Client::assembled(text_lookup(node, Key::Name), texts_lookup(node, Key::Address))
    } else {
        Err(DecodeError::here(Fault::NotMapping))
    }
}

/// What a mapping holds under `key`, read as a phone.
pub open spec fn phone_lookup(node: Node, key: Key) -> Field<PhoneView> {
    match child(node, key.name_text()) {
        None => Field::Absent,
        Some(found) => Field::of(phone_of(found)),
    }
}

/// A mapping with the seven keys of a company.
pub open spec fn company_of(node: Node) -> Result<CompanyView, DecodeError> {
    if node is Mapping {
        Company::assembled(
            text_lookup(node, Key::Name),
            text_lookup(node, Key::Activity),
            texts_lookup(node, Key::Address),
            phone_lookup(node, Key::Phone),
            text_lookup(node, Key::Website),
            text_lookup(node, Key::Mail),
            text_lookup(node, Key::Siret),
        )
    } else {
        Err(DecodeError::here(Fault::NotMapping))
    }
}

/// A mapping with `description` and, as far as it gives them, `amount`,
/// `unit` and `unit_price`. A `total` that it gives is not read.
pub open spec fn product_of(node: Node) -> Result<ProductView, DecodeError> {
    if node is Mapping {
        Product::assembled(
            text_lookup(node, Key::Description),
            decimal_lookup(node, Key::Amount),
            text_lookup(node, Key::Unit),
            decimal_lookup(node, Key::UnitPrice),
        )
    } else {
        Err(DecodeError::here(Fault::NotMapping))
    }
}

/// A sequence of invoice lines.
pub open spec fn products_of(node: Node) -> Result<Seq<ProductView>, DecodeError> {
    match node {
        Node::Sequence(items) => gathered(Seq::new(items.len(), |i: int| product_of(items[i]))),
        _ => Err(DecodeError::here(Fault::NotSequence)),
    }
}

/// A mapping with `type`, `delay` and `penalty`.
pub open spec fn payment_of(node: Node) -> Result<PaymentView, DecodeError> {
    if node is Mapping {
        Payment::assembled(
            text_lookup(node, Key::Type),
            count_lookup(node, Key::Delay),
            decimal_lookup(node, Key::Penalty),
        )
    } else {
        Err(DecodeError::here(Fault::NotMapping))
    }
}

/// What a mapping holds under `key`, read as a company.
pub open spec fn company_lookup(node: Node, key: Key) -> Field<CompanyView> {
    match child(node, key.name_text()) {
        None => Field::Absent,
        Some(found) => Field::of(company_of(found)),
    }
}

/// What a mapping holds under `key`, read as a client.
pub open spec fn client_lookup(node: Node, key: Key) -> Field<ClientView> {
    match child(node, key.name_text()) {
        None => Field::Absent,
        Some(found) => Field::of(client_of(found)),
    }
}

/// What a mapping holds under `key`, read as the lines of an invoice.
pub open spec fn products_lookup(node: Node, key: Key) -> Field<Seq<ProductView>> {
    match child(node, key.name_text()) {
        None => Field::Absent,
        Some(found) => Field::of(products_of(found)),
    }
}

/// What a mapping holds under `key`, read as terms of payment.
pub open spec fn payment_lookup(node: Node, key: Key) -> Field<PaymentView> {
    match child(node, key.name_text()) {
        None => Field::Absent,
        Some(found) => Field::of(payment_of(found)),
    }
}

/// The document of an invoice: a mapping with the seven keys of an invoice.
/// Keys that the model does not know, `total` among them, are not read.
pub open spec fn invoice_of(node: Node) -> Result<InvoiceView, DecodeError> {
    if node is Mapping {
        Invoice::assembled(
            text_lookup(node, Key::Number),
            text_lookup(node, Key::Issued),
            text_lookup(node, Key::Shipped),
            company_lookup(node, Key::Company),
            client_lookup(node, Key::Client),
            products_lookup(node, Key::Detail),
            payment_lookup(node, Key::Payment),
        )
    } else {
        Err(DecodeError::here(Fault::NotMapping))
    }
}

/// What [`gathered`] comes to. Where it succeeds, every item reads and the
/// values stand in the order of the items. Where it fails, some item does
/// not read while all before it do, and the error is that item's, under its
/// position.
pub proof fn gathered_is_first_failure<T>(reads: Seq<Result<T, DecodeError>>)
    ensures
        match gathered(reads) {
            Ok(values) => {
                &&& values.len() == reads.len()
                &&& forall|i: int|
                    0 <= i < reads.len() ==> reads[i] == Ok::<T, DecodeError>(#[trigger] values[i])
            },
            Err(e) => exists|n: int|
                {
                    &&& 0 <= n < reads.len()
                    &&& forall|i: int| 0 <= i < n ==> (#[trigger] reads[i]) is Ok
                    &&& #[trigger] reads[n] matches Err(inner) && e == inner.under_index(n as usize)
                },
        },
    decreases reads.len(),
{
    if reads.len() > 0 {
        let front = reads.drop_last();
        let n = reads.len() - 1;
        gathered_is_first_failure(front);
        match gathered(front) {
            Ok(before) => {
                assert forall|i: int| 0 <= i < n implies (#[trigger] reads[i]) is Ok by {
                    assert(reads[i] == front[i]);
                    assert(front[i] == Ok::<T, DecodeError>(before[i]));
                }
                match reads.last() {
                    Ok(value) => {
                        let values = before.push(value);
                        assert forall|i: int| 0 <= i < reads.len() implies reads[i] == Ok::<
                            T,
                            DecodeError,
                        >(#[trigger] values[i]) by {
                            if i < n {
                                assert(reads[i] == front[i]);
                                assert(front[i] == Ok::<T, DecodeError>(before[i]));
                            }
                        }
                    },
                    Err(inner) => {
                        assert(reads[n] matches Err(inner) && gathered(reads)->Err_0
                            == inner.under_index(n as usize));
                    },
                }
            },
            Err(e) => {
                let k = choose|k: int|
                    {
                        &&& 0 <= k < front.len()
                        &&& forall|i: int| 0 <= i < k ==> (#[trigger] front[i]) is Ok
                        &&& #[trigger] front[k] matches Err(inner) && e == inner.under_index(
                            k as usize,
                        )
                    };
                assert forall|i: int| 0 <= i < k implies (#[trigger] reads[i]) is Ok by {
                    assert(reads[i] == front[i]);
                }
                assert(reads[k] == front[k]);
            },
        }
    }
}

/// One more item that reads well extends what was gathered.
proof fn lemma_gathered_next<T>(reads: Seq<Result<T, DecodeError>>, n: int)
    requires
        0 <= n < reads.len(),
        gathered(reads.take(n)) is Ok,
    ensures
        gathered(reads.take(n + 1)) == (match reads[n] {
            Ok(value) => Ok(gathered(reads.take(n))->Ok_0.push(value)),
            Err(e) => Err(e.under_index(n as usize)),
        }),
{
    assert(reads.take(n + 1).drop_last() =~= reads.take(n));
}

/// The first item that does not read decides the whole sequence.
proof fn lemma_gathered_failed<T>(reads: Seq<Result<T, DecodeError>>, n: int)
    requires
        0 <= n <= reads.len(),
        gathered(reads.take(n)) is Err,
    ensures
        gathered(reads) == gathered(reads.take(n)),
    decreases reads.len() - n,
{
    if n == reads.len() {
        assert(reads.take(n) =~= reads);
    } else {
        assert(reads.take(n + 1).drop_last() =~= reads.take(n));
        lemma_gathered_failed(reads, n + 1);
    }
}

/// Reads a string.
pub fn read_text(value: &serde_yaml::Value) -> (r: Result<String, DecodeError>)
    ensures
        outcome(r) == text_of(node_of(*value)),
{
    match yaml::text(value) {
        Some(found) => Ok(found.to_owned()),
        None => Err(DecodeError::at(Fault::NotText)),
    }
}

/// Reads a number as a decimal.
pub fn read_decimal(value: &serde_yaml::Value) -> (r: Result<Decimal, DecodeError>)
    ensures
        r == decimal_of(node_of(*value)),
{
    match yaml::binary64(value) {
        Some(bits) => Ok(Decimal::from_bits(bits)),
        None => Err(DecodeError::at(Fault::NotNumber)),
    }
}

/// Reads an unsigned integer.
pub fn read_count(value: &serde_yaml::Value) -> (r: Result<u64, DecodeError>)
    ensures
        r == count_of(node_of(*value)),
{
    match yaml::unsigned(value) {
        Some(n) => Ok(n),
        None => Err(DecodeError::at(Fault::NotCount)),
    }
}

/// Reads a sequence of strings, in order.
pub fn read_texts(value: &serde_yaml::Value) -> (r: Result<Vec<String>, DecodeError>)
    ensures
        outcome(r) == texts_of(node_of(*value)),
{
    let list = match yaml::items(value) {
        Some(list) => list,
        None => {
            return Err(DecodeError::at(Fault::NotSequence));
        },
    };
    let ghost reads = Seq::new(list@.len(), |i: int| text_of(node_of(list@[i])));
    assert(reads =~= Seq::new(nodes_of(list@).len(), |i: int| text_of(nodes_of(list@)[i])));
    let mut lines: Vec<String> = Vec::new();
    let mut i: usize = 0;
    assert(reads.take(0) =~= Seq::empty());
    assert(lines.deep_view() =~= Seq::empty());
    while i < list.len()
        invariant
            i <= list.len(),
            reads.len() == list@.len(),
            forall|k: int| 0 <= k < reads.len() ==> reads[k] == text_of(node_of(list@[k])),
            texts_of(node_of(*value)) == gathered(reads),
            gathered(reads.take(i as int)) == Ok::<Seq<Seq<char>>, DecodeError>(lines.deep_view()),
        decreases list.len() - i,
    {
        proof {
            lemma_gathered_next(reads, i as int);
        }
        match read_text(&list[i]) {
            Ok(line) => {
                let ghost before = lines.deep_view();
                lines.push(line);
                assert(lines.deep_view() =~= before.push(line@));
            },
            Err(e) => {
                proof {
                    lemma_gathered_failed(reads, i + 1);
                }
                return Err(e.within_index(i));
            },
        }
        i += 1;
    }
    assert(reads.take(i as int) =~= reads);
    Ok(lines)
}

/// Looks `key` up and reads its value as a string.
pub fn text_field(value: &serde_yaml::Value, key: Key) -> (r: Field<String>)
    ensures
        r.deep_view() == text_lookup(node_of(*value), key),
{
    match yaml::entry(value, key.name()) {
        None => Field::Absent,
        Some(found) => Field::from_result(read_text(found)),
    }
}

/// Looks `key` up and reads its value as a decimal.
pub fn decimal_field(value: &serde_yaml::Value, key: Key) -> (r: Field<Decimal>)
    ensures
        r == decimal_lookup(node_of(*value), key),
{
    match yaml::entry(value, key.name()) {
        None => Field::Absent,
        Some(found) => Field::from_result(read_decimal(found)),
    }
}

/// Looks `key` up and reads its value as an unsigned integer.
pub fn count_field(value: &serde_yaml::Value, key: Key) -> (r: Field<u64>)
    ensures
        r == count_lookup(node_of(*value), key),
{
    match yaml::entry(value, key.name()) {
        None => Field::Absent,
        Some(found) => Field::from_result(read_count(found)),
    }
}

/// Looks `key` up and reads its value as a sequence of strings.
pub fn texts_field(value: &serde_yaml::Value, key: Key) -> (r: Field<Vec<String>>)
    ensures
        r.deep_view() == texts_lookup(node_of(*value), key),
{
    match yaml::entry(value, key.name()) {
        None => Field::Absent,
        Some(found) => Field::from_result(read_texts(found)),
    }
}

/// Decodes a phone.
pub fn decode_phone(value: &serde_yaml::Value) -> (r: Result<Phone, DecodeError>)
    ensures
        outcome(r) == phone_of(node_of(*value)),
{
    if !yaml::is_mapping(value) {
        return Err(DecodeError::at(Fault::NotMapping));
    }
    Phone::from_fields(text_field(value, Key::Display), text_field(value, Key::Intl))
}

/// Decodes a client.
pub fn decode_client(value: &serde_yaml::Value) -> (r: Result<Client, DecodeError>)
    ensures
        outcome(r) == client_of(node_of(*value)),
{
    if !yaml::is_mapping(value) {
        return Err(DecodeError::at(Fault::NotMapping));
    }
    Client::from_fields(text_field(value, Key::Name), texts_field(value, Key::Address))
}

/// Decodes a company.
pub fn decode_company(value: &serde_yaml::Value) -> (r: Result<Company, DecodeError>)
    ensures
        outcome(r) == company_of(node_of(*value)),
{
    if !yaml::is_mapping(value) {
        return Err(DecodeError::at(Fault::NotMapping));
    }
    let phone = match yaml::entry(value, Key::Phone.name()) {
        None => Field::Absent,
        Some(found) => Field::from_result(decode_phone(found)),
    };
    Company::from_fields(
        text_field(value, Key::Name),
        text_field(value, Key::Activity),
        texts_field(value, Key::Address),
        phone,
        text_field(value, Key::Website),
        text_field(value, Key::Mail),
        text_field(value, Key::Siret),
    )
}

/// Decodes one invoice line.
pub fn decode_product(value: &serde_yaml::Value) -> (r: Result<Product, DecodeError>)
    ensures
        outcome(r) == product_of(node_of(*value)),
{
    if !yaml::is_mapping(value) {
        return Err(DecodeError::at(Fault::NotMapping));
    }
    Product::from_fields(
        text_field(value, Key::Description),
        decimal_field(value, Key::Amount),
        text_field(value, Key::Unit),
        decimal_field(value, Key::UnitPrice),
    )
}

/// Decodes the lines of an invoice, in order.
pub fn decode_products(value: &serde_yaml::Value) -> (r: Result<Vec<Product>, DecodeError>)
    ensures
        outcome(r) == products_of(node_of(*value)),
{
    let list = match yaml::items(value) {
        Some(list) => list,
        None => {
            return Err(DecodeError::at(Fault::NotSequence));
        },
    };
    let ghost reads = Seq::new(list@.len(), |i: int| product_of(node_of(list@[i])));
    assert(reads =~= Seq::new(nodes_of(list@).len(), |i: int| product_of(nodes_of(list@)[i])));
    let mut lines: Vec<Product> = Vec::new();
    let mut i: usize = 0;
    assert(reads.take(0) =~= Seq::empty());
    assert(lines.deep_view() =~= Seq::empty());
    while i < list.len()
        invariant
            i <= list.len(),
            reads.len() == list@.len(),
            forall|k: int| 0 <= k < reads.len() ==> reads[k] == product_of(node_of(list@[k])),
            products_of(node_of(*value)) == gathered(reads),
            gathered(reads.take(i as int)) == Ok::<Seq<ProductView>, DecodeError>(
                lines.deep_view(),
            ),
        decreases list.len() - i,
    {
        proof {
            lemma_gathered_next(reads, i as int);
        }
        match decode_product(&list[i]) {
            Ok(line) => {
                let ghost before = lines.deep_view();
                lines.push(line);
                assert(lines.deep_view() =~= before.push(line.deep_view()));
            },
            Err(e) => {
                proof {
                    lemma_gathered_failed(reads, i + 1);
                }
                return Err(e.within_index(i));
            },
        }
        i += 1;
    }
    assert(reads.take(i as int) =~= reads);
    Ok(lines)
}

/// Decodes the terms of payment.
pub fn decode_payment(value: &serde_yaml::Value) -> (r: Result<Payment, DecodeError>)
    ensures
        outcome(r) == payment_of(node_of(*value)),
{
    if !yaml::is_mapping(value) {
        return Err(DecodeError::at(Fault::NotMapping));
    }
    Payment::from_fields(
        text_field(value, Key::Type),
        count_field(value, Key::Delay),
        decimal_field(value, Key::Penalty),
    )
}

/// Decodes an invoice from the root of a document.
pub fn decode_invoice(value: &serde_yaml::Value) -> (r: Result<Invoice, DecodeError>)
    ensures
        outcome(r) == invoice_of(node_of(*value)),
{
    if !yaml::is_mapping(value) {
        return Err(DecodeError::at(Fault::NotMapping));
    }
    let company = match yaml::entry(value, Key::Company.name()) {
        None => Field::Absent,
        Some(found) => Field::from_result(decode_company(found)),
    };
    let client = match yaml::entry(value, Key::Client.name()) {
        None => Field::Absent,
        Some(found) => Field::from_result(decode_client(found)),
    };
    let detail = match yaml::entry(value, Key::Detail.name()) {
        None => Field::Absent,
        Some(found) => Field::from_result(decode_products(found)),
    };
    let payment = match yaml::entry(value, Key::Payment.name()) {
        None => Field::Absent,
        Some(found) => Field::from_result(decode_payment(found)),
    };
    Invoice::from_fields(
        text_field(value, Key::Number),
        text_field(value, Key::Issued),
        text_field(value, Key::Shipped),
        company,
        client,
        detail,
        payment,
    )
}

/// Decoding computes nothing: in a decoded invoice the total of the invoice
/// and the total of every line are zero, whatever the document holds under
/// `total`.
pub proof fn decoded_totals_are_zero(node: Node)
    requires
        invoice_of(node) is Ok,
    ensures
        invoice_of(node)->Ok_0.total == Decimal::zero(),
        forall|i: int|
            0 <= i < invoice_of(node)->Ok_0.detail.len() ==> (#[trigger] invoice_of(
                node,
            )->Ok_0.detail[i]).total == Decimal::zero(),
{
    let lines = invoice_of(node)->Ok_0.detail;
    let found = child(node, Key::Detail.name_text())->Some_0;
    assert(products_of(found) == Ok::<Seq<ProductView>, DecodeError>(lines));
    let items = found->Sequence_0;
    let reads = Seq::new(items.len(), |i: int| product_of(items[i]));
    gathered_is_first_failure(reads);
    assert forall|i: int| 0 <= i < lines.len() implies (#[trigger] lines[i]).total
        == Decimal::zero() by {
        assert(reads[i] == Ok::<ProductView, DecodeError>(lines[i]));
        assert(product_of(items[i]) == reads[i]);
    }
}

/// Only the seven keys of an invoice are read at the root: two documents that
/// hold the same under each of them decode alike, whatever else they hold,
/// be it under `total` or under a key that the model does not know.
pub proof fn other_keys_are_not_read(a: Node, b: Node)
    requires
        a is Mapping,
        b is Mapping,
        child(a, Key::Number.name_text()) == child(b, Key::Number.name_text()),
        child(a, Key::Issued.name_text()) == child(b, Key::Issued.name_text()),
        child(a, Key::Shipped.name_text()) == child(b, Key::Shipped.name_text()),
        child(a, Key::Company.name_text()) == child(b, Key::Company.name_text()),
        child(a, Key::Client.name_text()) == child(b, Key::Client.name_text()),
        child(a, Key::Detail.name_text()) == child(b, Key::Detail.name_text()),
        child(a, Key::Payment.name_text()) == child(b, Key::Payment.name_text()),
    ensures
        invoice_of(a) == invoice_of(b),
{
}

/// An error of decoding an invoice says where the fault is: at the root,
/// where the document is no mapping, and otherwise under one of the seven
/// keys of an invoice.
pub proof fn an_error_names_its_key(node: Node)
    requires
        invoice_of(node) is Err,
    ensures
        match invoice_of(node)->Err_0.path {
            Path::Here => !(node is Mapping) && invoice_of(node)->Err_0.fault == Fault::NotMapping,
            Path::Key(key, _) => node is Mapping && (key == Key::Number || key == Key::Issued
                || key == Key::Shipped || key == Key::Company || key == Key::Client || key
                == Key::Detail || key == Key::Payment),
            Path::Index(_, _) => false,
        },
{
}

/// No value reads as a missing key: what a value of the document is
/// refused for is a fault of its own or lies further down.
proof fn lemma_a_value_is_not_missing(node: Node)
    ensures
        text_of(node) != Err::<Seq<char>, DecodeError>(DecodeError::here(Fault::Missing)),
        company_of(node) != Err::<CompanyView, DecodeError>(DecodeError::here(Fault::Missing)),
        client_of(node) != Err::<ClientView, DecodeError>(DecodeError::here(Fault::Missing)),
        products_of(node) != Err::<Seq<ProductView>, DecodeError>(
            DecodeError::here(Fault::Missing),
        ),
        payment_of(node) != Err::<PaymentView, DecodeError>(DecodeError::here(Fault::Missing)),
{
    if let Node::Sequence(items) = node {
        gathered_is_first_failure(Seq::new(items.len(), |i: int| product_of(items[i])));
    }
}

/// A key of an invoice is reported as missing only where the document does
/// not have it.
pub proof fn a_missing_key_is_not_there(node: Node, key: Key)
    requires
        invoice_of(node) == Err::<InvoiceView, DecodeError>(DecodeError::missing(key)),
    ensures
        node is Mapping,
        child(node, key.name_text()) is None,
{
    an_error_names_its_key(node);
    if let Some(found) = child(node, key.name_text()) {
        lemma_a_value_is_not_missing(found);
    }
}

/// A line that gives a description and leaves out `amount`, `unit` and
/// `unit_price` decodes to the amount 1.0, the unit hours and the unit price
/// 50.0, with a total of zero.
pub proof fn line_with_description_only(node: Node, description: Seq<char>)
    requires
        node is Mapping,
        child(node, Key::Description.name_text()) == Some(Node::Text(description)),
        child(node, Key::Amount.name_text()) is None,
        child(node, Key::Unit.name_text()) is None,
        child(node, Key::UnitPrice.name_text()) is None,
    ensures
        product_of(node) == Ok::<ProductView, DecodeError>(
            ProductView {
                description,
                amount: Decimal { bits: DEFAULT_AMOUNT_BITS },
                unit: Unit::Hours,
                unit_price: Decimal { bits: DEFAULT_UNIT_PRICE_BITS },
                total: Decimal::zero(),
            },
        ),
{
}

/// The unit never fails a line. Whatever the mapping holds under `unit`, a
/// line that is sound in its other fields decodes: to units where the value
/// is the string `units`, and to hours where it is any other string, a value
/// that is no string, or missing.
pub proof fn line_with_any_unit(node: Node)
    requires
        node is Mapping,
        text_lookup(node, Key::Description) is Present,
        !(decimal_lookup(node, Key::Amount) is Invalid),
        !(decimal_lookup(node, Key::UnitPrice) is Invalid),
    ensures
        product_of(node) matches Ok(line) && line.unit == (if child(
            node,
            Key::Unit.name_text(),
        ) == Some(Node::Text(Unit::Units.token_text())) {
            Unit::Units
        } else {
            Unit::Hours
        }),
{
}

/// A payment type that is given as a string is read if and only if the
/// string is one of the four tokens: `cb` gives a card payment, and a string
/// that is no token fails the decoding, under the key `type`.
pub proof fn payment_with_type_token(node: Node, token: Seq<char>)
    requires
        node is Mapping,
        child(node, Key::Type.name_text()) == Some(Node::Text(token)),
        count_lookup(node, Key::Delay) is Present,
        decimal_lookup(node, Key::Penalty) is Present,
    ensures
        payment_of(node) is Ok <==> PaymentType::of_token(token) is Some,
        payment_of(node) matches Ok(payment) ==> token == payment.kind.token_text(),
        token == "cb"@ ==> (payment_of(node) matches Ok(payment) && payment.kind
            == PaymentType::CardPayment),
        PaymentType::of_token(token) is None ==> payment_of(node) == Err::<
            PaymentView,
            DecodeError,
        >(DecodeError::here(Fault::UnknownPaymentType).under_key(Key::Type)),
{
    payment_token_round_trip(PaymentType::CardPayment);
    if payment_of(node) is Ok {
        payment_token_is_exact(token, payment_of(node)->Ok_0.kind);
    }
}

/// A document without the key `client`, sound in the keys before it, is
/// refused with an error that names `client` as missing.
pub proof fn document_without_client(node: Node)
    requires
        node is Mapping,
        text_lookup(node, Key::Number) is Present,
        text_lookup(node, Key::Issued) is Present,
        text_lookup(node, Key::Shipped) is Present,
        company_lookup(node, Key::Company) is Present,
        child(node, Key::Client.name_text()) is None,
    ensures
        invoice_of(node) == Err::<InvoiceView, DecodeError>(DecodeError::missing(Key::Client)),
{
}

} // verus!
