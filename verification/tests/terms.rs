use invoicing::defaults::{Defaults, DEFAULT_AMOUNT_BITS, DEFAULT_UNIT, DEFAULT_UNIT_PRICE_BITS};
use invoicing::terms::{same_text, PaymentType, Unit};

#[test]
fn unit_tokens_are_read() {
    assert_eq!(Unit::from_token("hours"), Unit::Hours);
    assert_eq!(Unit::from_token("units"), Unit::Units);
}

#[test]
fn unknown_unit_token_is_hours() {
    assert_eq!(Unit::from_token("kg"), Unit::Hours);
    assert_eq!(Unit::from_token(""), Unit::Hours);
    assert_eq!(Unit::from_token("Units"), Unit::Hours);
    assert_eq!(Unit::from_token("units "), Unit::Hours);
}

#[test]
fn unit_tokens_and_labels() {
    assert_eq!(Unit::Hours.token(), "hours");
    assert_eq!(Unit::Units.token(), "units");
    assert_eq!(Unit::Hours.label(), "Heures");
    assert_eq!(Unit::Units.label(), "Unités");
}

#[test]
fn every_unit_is_read_back_from_its_token() {
    for unit in [Unit::Hours, Unit::Units] {
        assert_eq!(Unit::from_token(unit.token()), unit);
    }
}

#[test]
fn payment_tokens_are_read() {
    assert_eq!(PaymentType::from_token("virement"), Some(PaymentType::BankTransfer));
    assert_eq!(PaymentType::from_token("cb"), Some(PaymentType::CardPayment));
    assert_eq!(PaymentType::from_token("espece"), Some(PaymentType::Cash));
    assert_eq!(PaymentType::from_token("cheque"), Some(PaymentType::Check));
}

#[test]
fn unknown_payment_token_is_refused() {
    assert_eq!(PaymentType::from_token("invalid"), None);
    assert_eq!(PaymentType::from_token("Virement"), None);
    assert_eq!(PaymentType::from_token("Carte bancaire"), None);
    assert_eq!(PaymentType::from_token(""), None);
}

#[test]
fn payment_tokens_and_labels() {
    assert_eq!(PaymentType::BankTransfer.token(), "virement");
    assert_eq!(PaymentType::CardPayment.token(), "cb");
    assert_eq!(PaymentType::Cash.token(), "espece");
    assert_eq!(PaymentType::Check.token(), "cheque");
    assert_eq!(PaymentType::BankTransfer.label(), "Virement");
    assert_eq!(PaymentType::CardPayment.label(), "Carte bancaire");
    assert_eq!(PaymentType::Cash.label(), "Espèce");
    assert_eq!(PaymentType::Check.label(), "Chèque");
}

#[test]
fn every_payment_type_is_read_back_from_its_token() {
    let all = [
        PaymentType::BankTransfer,
        PaymentType::CardPayment,
        PaymentType::Cash,
        PaymentType::Check,
    ];
    for kind in all {
        assert_eq!(PaymentType::from_token(kind.token()), Some(kind));
    }
    for a in all {
        for b in all {
            assert_eq!(a.label() == b.label(), a == b);
            assert_eq!(a.token() == b.token(), a == b);
        }
    }
}

#[test]
fn same_text_compares_contents() {
    assert!(same_text("cb", "cb"));
    assert!(same_text("", ""));
    assert!(!same_text("cb", "cB"));
    assert!(!same_text("cb", "cbb"));
    assert!(same_text("Chèque", "Chèque"));
}

#[test]
fn defaults_are_one_hours_and_fifty() {
    assert_eq!(f64::from_bits(Defaults::get_default_amount().to_bits()), 1.0);
    assert_eq!(Defaults::get_default_unit(), Unit::Hours);
    assert_eq!(f64::from_bits(Defaults::get_default_unit_price().to_bits()), 50.0);
    assert_eq!(DEFAULT_AMOUNT_BITS, 1.0f64.to_bits());
    assert_eq!(DEFAULT_UNIT_PRICE_BITS, 50.0f64.to_bits());
    assert_eq!(DEFAULT_UNIT, Unit::Hours);
}
