use invoicing::error::{DecodeError, Fault, Path};
use invoicing::model::{Client, Company, Invoice, Payment, Phone};
use invoicing::decimal::Decimal;
use invoicing::schema::Key;
use invoicing::terms::PaymentType;

#[test]
fn key_names_are_those_of_the_document() {
    let all = [
        (Key::Number, "number"),
        (Key::Issued, "issued"),
        (Key::Shipped, "shipped"),
        (Key::Company, "company"),
        (Key::Client, "client"),
        (Key::Detail, "detail"),
        (Key::Payment, "payment"),
        (Key::Name, "name"),
        (Key::Activity, "activity"),
        (Key::Address, "address"),
        (Key::Phone, "phone"),
        (Key::Website, "website"),
        (Key::Mail, "mail"),
        (Key::Siret, "siret"),
        (Key::Display, "display"),
        (Key::Intl, "intl"),
        (Key::Description, "description"),
        (Key::Amount, "amount"),
        (Key::Unit, "unit"),
        (Key::UnitPrice, "unit_price"),
        (Key::Type, "type"),
        (Key::Delay, "delay"),
        (Key::Penalty, "penalty"),
    ];
    for (key, name) in all {
        assert_eq!(key.name(), name);
    }
}

#[test]
fn faults_in_words() {
    assert_eq!(Fault::Missing.describe(), "missing key");
    assert_eq!(Fault::NotText.describe(), "expected a string");
    assert_eq!(Fault::NotNumber.describe(), "expected a number");
    assert_eq!(Fault::NotCount.describe(), "expected an unsigned integer");
    assert_eq!(Fault::NotSequence.describe(), "expected a sequence");
    assert_eq!(Fault::NotMapping.describe(), "expected a mapping");
    assert_eq!(Fault::UnknownPaymentType.describe(), "unknown payment type");
}

#[test]
fn an_error_is_placed_from_the_inside_out() {
    let e = DecodeError::at(Fault::NotNumber)
        .within_key(Key::UnitPrice)
        .within_index(3)
        .within_key(Key::Detail);
    assert_eq!(e.fault, Fault::NotNumber);
    assert_eq!(
        e.path,
        Path::Key(
            Key::Detail,
            Box::new(Path::Index(3, Box::new(Path::Key(Key::UnitPrice, Box::new(Path::Here))))),
        )
    );
}

#[test]
fn paths_in_words() {
    assert_eq!(Path::Here.describe(), "document");
    assert_eq!(Path::Key(Key::Client, Box::new(Path::Here)).describe(), "client");
    let deep = DecodeError::at(Fault::Missing)
        .within_key(Key::Display)
        .within_key(Key::Phone)
        .within_key(Key::Company);
    assert_eq!(deep.path.describe(), "company.phone.display");
    let line = DecodeError::at(Fault::Missing)
        .within_key(Key::UnitPrice)
        .within_index(0)
        .within_key(Key::Detail);
    assert_eq!(line.path.describe(), "detail[0].unit_price");
    let item = DecodeError::at(Fault::NotText).within_index(12).within_key(Key::Address);
    assert_eq!(item.path.describe(), "address[12]");
    let bare = DecodeError::at(Fault::NotText).within_index(7);
    assert_eq!(bare.path.describe(), "[7]");
}

#[test]
fn positions_are_written_in_decimal() {
    for n in [0usize, 1, 9, 10, 11, 99, 100, 101, 909, 1000, 65535, 4294967295, usize::MAX] {
        let e = DecodeError::at(Fault::NotText).within_index(n);
        assert_eq!(e.path.describe(), format!("[{}]", n));
    }
}

#[test]
fn errors_in_words() {
    assert_eq!(DecodeError::at(Fault::NotMapping).describe(), "document: expected a mapping");
    assert_eq!(
        DecodeError::at(Fault::Missing).within_key(Key::Client).describe(),
        "client: missing key"
    );
    assert_eq!(
        DecodeError::at(Fault::UnknownPaymentType)
            .within_key(Key::Type)
            .within_key(Key::Payment)
            .describe(),
        "payment.type: unknown payment type"
    );
    assert_eq!(
        DecodeError::at(Fault::NotCount).within_key(Key::Delay).within_key(Key::Payment).describe(),
        "payment.delay: expected an unsigned integer"
    );
    assert_eq!(
        DecodeError::at(Fault::NotSequence).within_key(Key::Detail).describe(),
        "detail: expected a sequence"
    );
}

#[test]
fn the_html_file_is_named_after_the_number() {
    let mut invoice = Invoice {
        number: "2024-001".to_string(),
        issued: String::new(),
        shipped: String::new(),
        company: Company {
            name: String::new(),
            activity: String::new(),
            address: vec![],
            phone: Phone { display: String::new(), intl: String::new() },
            website: String::new(),
            mail: String::new(),
            siret: String::new(),
        },
        client: Client { name: String::new(), address: vec![] },
        detail: vec![],
        total: Decimal::from_bits(0),
        payment: Payment { kind: PaymentType::Cash, delay: 0, penalty: Decimal::from_bits(0) },
    };
    assert_eq!(invoice.html_file_name(), "invoice-2024-001.html");
    invoice.number = String::new();
    assert_eq!(invoice.html_file_name(), "invoice-.html");
    invoice.number = "n° 7/é".to_string();
    assert_eq!(invoice.html_file_name(), "invoice-n° 7/é.html");
}
