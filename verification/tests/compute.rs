use invoicing::decimal::Decimal;
use invoicing::model::{Client, Company, Invoice, Payment, Phone, Product};
use invoicing::terms::{PaymentType, Unit};

fn number(x: f64) -> Decimal {
    Decimal::from_bits(x.to_bits())
}

fn value(d: Decimal) -> f64 {
    f64::from_bits(d.to_bits())
}

fn times(a: Decimal, b: Decimal) -> Decimal {
    number(value(a) * value(b))
}

fn plus(a: Decimal, b: Decimal) -> Decimal {
    number(value(a) + value(b))
}

fn line(description: &str, amount: f64, unit_price: f64) -> Product {
    Product {
        description: description.to_string(),
        amount: number(amount),
        unit: Unit::Hours,
        unit_price: number(unit_price),
        total: number(0.0),
    }
}

fn invoice(detail: Vec<Product>) -> Invoice {
    Invoice {
        number: "7".to_string(),
        issued: "2024-01-15".to_string(),
        shipped: "2024-01-10".to_string(),
        company: Company {
            name: "ACME".to_string(),
            activity: "Consulting".to_string(),
            address: vec!["Paris".to_string()],
            phone: Phone { display: "01".to_string(), intl: "+331".to_string() },
            website: "w".to_string(),
            mail: "m".to_string(),
            siret: "123".to_string(),
        },
        client: Client { name: "Globex".to_string(), address: vec!["Lyon".to_string()] },
        detail,
        total: number(0.0),
        payment: Payment { kind: PaymentType::Check, delay: 45, penalty: number(3.0) },
    }
}

#[test]
fn line_total_is_amount_times_unit_price() {
    let mut consulting = line("Consulting", 10.0, 45.0);
    consulting.compute(&times);
    assert_eq!(value(consulting.total), 450.0);
    assert_eq!(consulting.description, "Consulting");
    assert_eq!(value(consulting.amount), 10.0);
    assert_eq!(consulting.unit, Unit::Hours);
    assert_eq!(value(consulting.unit_price), 45.0);
}

#[test]
fn line_total_is_the_floating_point_product() {
    let mut odd = line("Odd", 0.1, 0.7);
    odd.compute(&times);
    assert_eq!(odd.total.to_bits(), (0.1f64 * 0.7f64).to_bits());
    let mut third = line("Third", 1.1, 3.0);
    third.compute(&times);
    assert_eq!(value(third.total), 1.1 * 3.0);
    assert_ne!(value(third.total), 3.3);
}

#[test]
fn line_total_is_computed_again_from_the_fields() {
    let mut stale = line("Stale", 2.0, 4.0);
    stale.total = number(99.0);
    stale.compute(&times);
    assert_eq!(value(stale.total), 8.0);
}

#[test]
fn invoice_total_is_the_sum_of_line_totals() {
    let mut it = invoice(vec![line("a", 10.0, 45.0), line("b", 2.0, 50.0), line("c", 1.0, 0.5)]);
    it.compute(&times, &plus);
    assert_eq!(value(it.detail[0].total), 450.0);
    assert_eq!(value(it.detail[1].total), 100.0);
    assert_eq!(value(it.detail[2].total), 0.5);
    assert_eq!(value(it.total), 550.5);
    let summed: f64 = it.detail.iter().map(|p| value(p.total)).sum();
    assert_eq!(value(it.total), summed);
}

#[test]
fn invoice_total_is_summed_in_the_order_of_the_lines() {
    let mut forward = invoice(vec![line("a", 1.0, 1e16), line("b", 1.0, 1.0), line("c", 1.0, -1e16)]);
    forward.compute(&times, &plus);
    assert_eq!(value(forward.total), ((0.0 + 1e16) + 1.0) + -1e16);
    let mut other = invoice(vec![line("a", 1.0, 1e16), line("c", 1.0, -1e16), line("b", 1.0, 1.0)]);
    other.compute(&times, &plus);
    assert_eq!(value(other.total), 1.0);
    assert_ne!(value(forward.total), value(other.total));
}

#[test]
fn invoice_without_lines_has_total_zero() {
    let mut empty = invoice(vec![]);
    empty.total = number(12.0);
    empty.compute(&times, &plus);
    assert_eq!(empty.total.to_bits(), 0);
    assert!(empty.detail.is_empty());
}

#[test]
fn compute_changes_nothing_but_the_totals() {
    let mut it = invoice(vec![line("a", 3.0, 7.0), line("b", 2.0, 0.25)]);
    it.compute(&times, &plus);
    let mut expected = invoice(vec![line("a", 3.0, 7.0), line("b", 2.0, 0.25)]);
    expected.detail[0].total = number(21.0);
    expected.detail[1].total = number(0.5);
    expected.total = number(21.5);
    assert_eq!(it, expected);
}

#[test]
fn compute_twice_gives_the_same_totals() {
    let mut it = invoice(vec![line("a", 3.0, 7.0), line("b", 0.1, 0.2)]);
    it.compute(&times, &plus);
    let first = (it.detail[0].total, it.detail[1].total, it.total);
    it.compute(&times, &plus);
    assert_eq!((it.detail[0].total, it.detail[1].total, it.total), first);
}

#[test]
fn compute_applies_the_operations_it_is_given() {
    let mut it = invoice(vec![line("a", 3.0, 7.0), line("b", 2.0, 5.0)]);
    let first = |a: Decimal, _b: Decimal| a;
    let second = |_a: Decimal, b: Decimal| b;
    it.compute(&first, &second);
    assert_eq!(value(it.detail[0].total), 3.0);
    assert_eq!(value(it.detail[1].total), 2.0);
    assert_eq!(value(it.total), 2.0);
}

#[test]
fn decimal_keeps_its_encoding() {
    let d = Decimal::from_bits(0x4049_0000_0000_0000);
    assert_eq!(d.to_bits(), 0x4049_0000_0000_0000);
    assert_eq!(value(d), 50.0);
    assert_ne!(number(0.0), number(-0.0));
    assert_eq!(number(1.5), number(1.5));
}
