//! The enumerated terms of an invoice: the unit a line is counted in and the
//! way an invoice is paid. Each term has a token, by which a document names
//! it, and a label, by which a rendered invoice shows it.

use vstd::prelude::*;

verus! {

/// Whether two string slices hold the same text.
pub fn same_text(a: &str, b: &str) -> (r: bool)
    ensures
        r == (a@ == b@),
{
    a.to_owned() == b.to_owned()
}

/// The unit in which the quantity of an invoice line is counted.
#[derive(Clone, Copy, Debug, PartialEq, Eq, Structural)]
pub enum Unit {
    Hours,
    Units,
}

impl Unit {
    /// The token that names this unit in a document.
    pub open spec fn token_text(self) -> Seq<char> {
        match self {
            Unit::Hours => "hours"@,
            Unit::Units => "units"@,
        }
    }

    /// The label that a rendered invoice shows for this unit.
    pub open spec fn label_text(self) -> Seq<char> {
        match self {
            Unit::Hours => "Heures"@,
            Unit::Units => "Unités"@,
        }
    }

    /// The unit that a token stands for. A token that names no unit stands
    /// for hours: an unknown unit is never an error.
    pub open spec fn of_token(token: Seq<char>) -> Unit {
        if token == Unit::Units.token_text() {
            Unit::Units
        } else {
            Unit::Hours
        }
    }

    /// The token of this unit.
    pub fn token(self) -> (r: &'static str)
        ensures
            r@ == self.token_text(),
    {
        match self {
            Unit::Hours => "hours",
            Unit::Units => "units",
        }
    }

    /// The label of this unit.
    pub fn label(self) -> (r: &'static str)
        ensures
            r@ == self.label_text(),
    {
        match self {
            Unit::Hours => "Heures",
            Unit::Units => "Unités",
        }
    }

    /// Reads a unit from its token, falling back to hours.
    pub fn from_token(token: &str) -> (r: Unit)
        ensures
            r == Unit::of_token(token@),
    {
        if same_text(token, Unit::Units.token()) {
            Unit::Units
        } else {
            Unit::Hours
        }
    }
}

/// The way an invoice is paid.
#[derive(Clone, Copy, Debug, PartialEq, Eq, Structural)]
pub enum PaymentType {
    BankTransfer,
    CardPayment,
    Cash,
    Check,
}

impl PaymentType {
    /// The token that names this payment type in a document.
    pub open spec fn token_text(self) -> Seq<char> {
        match self {
            PaymentType::BankTransfer => "virement"@,
            PaymentType::CardPayment => "cb"@,
            PaymentType::Cash => "espece"@,
            PaymentType::Check => "cheque"@,
        }
    }

    /// The label that a rendered invoice shows for this payment type.
    pub open spec fn label_text(self) -> Seq<char> {
        match self {
            PaymentType::BankTransfer => "Virement"@,
            PaymentType::CardPayment => "Carte bancaire"@,
            PaymentType::Cash => "Espèce"@,
            PaymentType::Check => "Chèque"@,
        }
    }

    /// The payment type that a token stands for, if it stands for one. The
    /// four tokens are matched in the order of the variants.
    pub open spec fn of_token(token: Seq<char>) -> Option<PaymentType> {
        if token == PaymentType::BankTransfer.token_text() {
            Some(PaymentType::BankTransfer)
        } else if token == PaymentType::CardPayment.token_text() {
            Some(PaymentType::CardPayment)
        } else if token == PaymentType::Cash.token_text() {
            Some(PaymentType::Cash)
        } else if token == PaymentType::Check.token_text() {
            Some(PaymentType::Check)
        } else {
            None
        }
    }

    /// The token of this payment type.
    pub fn token(self) -> (r: &'static str)
        ensures
            r@ == self.token_text(),
    {
        match self {
            PaymentType::BankTransfer => "virement",
            PaymentType::CardPayment => "cb",
            PaymentType::Cash => "espece",
            PaymentType::Check => "cheque",
        }
    }

    /// The label of this payment type.
    pub fn label(self) -> (r: &'static str)
        ensures
            r@ == self.label_text(),
    {
        match self {
            PaymentType::BankTransfer => "Virement",
            PaymentType::CardPayment => "Carte bancaire",
            PaymentType::Cash => "Espèce",
            PaymentType::Check => "Chèque",
        }
    }

    /// Reads a payment type from its token. There is no fallback: a token
    /// that names no payment type gives `None`.
    pub fn from_token(token: &str) -> (r: Option<PaymentType>)
        ensures
            r == PaymentType::of_token(token@),
    {
        if same_text(token, PaymentType::BankTransfer.token()) {
            Some(PaymentType::BankTransfer)
        } else if same_text(token, PaymentType::CardPayment.token()) {
            Some(PaymentType::CardPayment)
        } else if same_text(token, PaymentType::Cash.token()) {
            Some(PaymentType::Cash)
        } else if same_text(token, PaymentType::Check.token()) {
            Some(PaymentType::Check)
        } else {
            None
        }
    }
}

/// Every unit is read back from its own token.
pub proof fn unit_token_round_trip(unit: Unit)
    ensures
        Unit::of_token(unit.token_text()) == unit,
{
    reveal_strlit("hours");
    reveal_strlit("units");
    assert("hours"@[0] != "units"@[0]);
}

/// A token other than that of units is read as hours, whatever it holds.
pub proof fn unit_fallback_is_hours(token: Seq<char>)
    requires
        token != Unit::Units.token_text(),
    ensures
        Unit::of_token(token) == Unit::Hours,
{
}

/// Every payment type is read back from its own token, so no two payment
/// types share a token.
pub proof fn payment_token_round_trip(kind: PaymentType)
    ensures
        PaymentType::of_token(kind.token_text()) == Some(kind),
{
    reveal_strlit("virement");
    reveal_strlit("cb");
    reveal_strlit("espece");
    reveal_strlit("cheque");
    assert("virement"@.len() == 8 && "cb"@.len() == 2 && "espece"@.len() == 6);
    assert("espece"@[0] != "cheque"@[0]);
}

/// A token is read as a payment type only if it is that type's token.
pub proof fn payment_token_is_exact(token: Seq<char>, kind: PaymentType)
    ensures
        PaymentType::of_token(token) == Some(kind) <==> token == kind.token_text(),
{
    payment_token_round_trip(kind);
}

/// The two units show under different labels.
pub proof fn unit_labels_differ(a: Unit, b: Unit)
    requires
        a != b,
    ensures
        a.label_text() != b.label_text(),
{
    reveal_strlit("Heures");
    reveal_strlit("Unités");
    assert("Heures"@[0] != "Unités"@[0]);
}

/// The four payment types show under different labels.
pub proof fn payment_labels_differ(a: PaymentType, b: PaymentType)
    requires
        a != b,
    ensures
        a.label_text() != b.label_text(),
{
    reveal_strlit("Virement");
    reveal_strlit("Carte bancaire");
    reveal_strlit("Espèce");
    reveal_strlit("Chèque");
    assert("Virement"@[0] == 'V' && "Carte bancaire"@[0] == 'C');
    assert("Espèce"@[0] == 'E' && "Chèque"@[0] == 'C');
    assert("Carte bancaire"@.len() == 14 && "Chèque"@.len() == 6);
}

} // verus!
