use invoicing::decimal::Decimal;
use invoicing::error::{DecodeError, Fault, Path};
use invoicing::load::{load_invoice, LoadError};
use invoicing::schema::Key;
use invoicing::terms::{PaymentType, Unit};

fn value(d: Decimal) -> f64 {
    f64::from_bits(d.to_bits())
}

fn times(a: Decimal, b: Decimal) -> Decimal {
    Decimal::from_bits((value(a) * value(b)).to_bits())
}

fn plus(a: Decimal, b: Decimal) -> Decimal {
    Decimal::from_bits((value(a) + value(b)).to_bits())
}

const CONSULTING: &str = "
number: 2024-001
issued: 2024-01-15
shipped: 2024-01-10
company:
  name: ACME Conseil
  activity: Software consulting
  address:
    - 1 rue de la Paix
  phone:
    display: 01 23 45 67 89
    intl: \"+33123456789\"
  website: https://acme.example
  mail: contact@acme.example
  siret: 123 456 789 00011
client:
  name: Globex
  address:
    - 69000 Lyon
detail: [{description: \"Consulting\", amount: 10, unit: \"hours\", unit_price: 45.0}]
payment:
  type: cb
  delay: 30
  penalty: 10
";

#[test]
fn end_to_end_consulting_invoice() {
    let mut invoice = load_invoice(CONSULTING).unwrap();
    assert_eq!(invoice.number, "2024-001");
    assert_eq!(invoice.detail.len(), 1);
    assert_eq!(invoice.detail[0].description, "Consulting");
    assert_eq!(value(invoice.detail[0].amount), 10.0);
    assert_eq!(invoice.detail[0].unit, Unit::Hours);
    assert_eq!(value(invoice.detail[0].unit_price), 45.0);
    assert_eq!(value(invoice.detail[0].total), 0.0);
    assert_eq!(value(invoice.total), 0.0);
    assert_eq!(invoice.payment.kind, PaymentType::CardPayment);
    invoice.compute(&times, &plus);
    assert_eq!(value(invoice.detail[0].total), 450.0);
    assert_eq!(value(invoice.total), 450.0);
    assert_eq!(invoice.html_file_name(), "invoice-2024-001.html");
}

#[test]
fn end_to_end_missing_client_names_client() {
    let text = CONSULTING.replace("client:\n  name: Globex\n  address:\n    - 69000 Lyon\n", "");
    assert!(!text.contains("client"));
    let failed = load_invoice(&text).unwrap_err();
    assert_eq!(
        failed,
        LoadError::Decode(DecodeError {
            fault: Fault::Missing,
            path: Path::Key(Key::Client, Box::new(Path::Here)),
        })
    );
    assert_eq!(failed.describe(), "client: missing key");
    assert!(failed.describe().contains("client"));
}

#[test]
fn end_to_end_invalid_payment_type_fails() {
    let text = CONSULTING.replace("type: cb", "type: invalid");
    let failed = load_invoice(&text).unwrap_err();
    assert_eq!(failed.describe(), "payment.type: unknown payment type");
}

#[test]
fn end_to_end_unknown_unit_is_hours() {
    let text = CONSULTING.replace("unit: \"hours\"", "unit: \"kg\"");
    let invoice = load_invoice(&text).unwrap();
    assert_eq!(invoice.detail[0].unit, Unit::Hours);
}

#[test]
fn a_text_that_is_no_yaml_is_a_syntax_error() {
    match load_invoice("number: [1, 2") {
        Err(LoadError::Syntax(message)) => assert!(!message.is_empty()),
        other => panic!("expected a syntax error, got {:?}", other),
    }
    match load_invoice("a: b: c: d") {
        Err(LoadError::Syntax(_)) => {}
        other => panic!("expected a syntax error, got {:?}", other),
    }
}

#[test]
fn a_syntax_error_is_described_by_the_parser() {
    let failed = load_invoice("{").unwrap_err();
    match &failed {
        LoadError::Syntax(message) => assert_eq!(&failed.describe(), message),
        other => panic!("expected a syntax error, got {:?}", other),
    }
}

#[test]
fn a_document_that_is_no_mapping_is_a_decode_error() {
    let failed = load_invoice("- a\n- b\n").unwrap_err();
    assert_eq!(
        failed,
        LoadError::Decode(DecodeError { fault: Fault::NotMapping, path: Path::Here })
    );
    assert_eq!(failed.describe(), "document: expected a mapping");
}

#[test]
fn loading_twice_gives_the_same_invoice() {
    assert_eq!(load_invoice(CONSULTING), load_invoice(CONSULTING));
}

#[test]
fn a_key_given_twice_is_a_syntax_error() {
    let text = format!("{}number: again\n", CONSULTING);
    match load_invoice(&text) {
        Err(LoadError::Syntax(_)) => {}
        other => panic!("expected a syntax error, got {:?}", other),
    }
}

#[test]
fn two_documents_in_one_text_are_a_syntax_error() {
    let text = format!("---{}---{}", CONSULTING, CONSULTING);
    match load_invoice(&text) {
        Err(LoadError::Syntax(_)) => {}
        other => panic!("expected a syntax error, got {:?}", other),
    }
}

#[test]
fn an_empty_text_is_no_mapping() {
    assert_eq!(
        load_invoice(""),
        Err(LoadError::Decode(DecodeError { fault: Fault::NotMapping, path: Path::Here }))
    );
}
