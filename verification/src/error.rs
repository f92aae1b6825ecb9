//! What decoding reports when a document does not fit the model.

use vstd::prelude::*;
use vstd::string::StringExecFns;
use crate::schema::Key;

verus! {

/// What is wrong with a value of the document.
#[derive(Clone, Copy, Debug, PartialEq, Eq, Structural)]
pub enum Fault {
    /// A required key is not in its mapping.
    Missing,
    /// The value is not a string.
    NotText,
    /// The value is not a number.
    NotNumber,
    /// The value is not an unsigned integer.
    NotCount,
    /// The value is not a sequence.
    NotSequence,
    /// The value is not a mapping.
    NotMapping,
    /// The string names no payment type.
    UnknownPaymentType,
}

/// The place of a value in the document, from the document's root down.
#[derive(Debug, PartialEq, Eq)]
pub enum Path {
    /// The value itself.
    Here,
    /// Under a key of a mapping.
    Key(Key, Box<Path>),
    /// Under a position of a sequence, counted from zero.
    Index(usize, Box<Path>),
}

/// A fault and the place of the value that has it.
#[derive(Debug, PartialEq, Eq)]
pub struct DecodeError {
    pub fault: Fault,
    pub path: Path,
}

impl DecodeError {
    /// A fault of the value at hand.
    pub open spec fn here(fault: Fault) -> DecodeError {
        DecodeError { fault, path: Path::Here }
    }

    /// The same fault, seen from the mapping that holds the value under `key`.
    pub open spec fn under_key(self, key: Key) -> DecodeError {
        DecodeError { fault: self.fault, path: Path::Key(key, Box::new(self.path)) }
    }

    /// The same fault, seen from the sequence that holds the value at `index`.
    pub open spec fn under_index(self, index: usize) -> DecodeError {
        DecodeError { fault: self.fault, path: Path::Index(index, Box::new(self.path)) }
    }

    /// That `key` is missing from the mapping at hand.
    pub open spec fn missing(key: Key) -> DecodeError {
        DecodeError::here(Fault::Missing).under_key(key)
    }

    /// Reports a fault of the value at hand.
    pub fn at(fault: Fault) -> (r: DecodeError)
        ensures
            r == DecodeError::here(fault),
    {
        DecodeError { fault, path: Path::Here }
    }

    /// Moves the error up, to the mapping that holds the value under `key`.
    pub fn within_key(self, key: Key) -> (r: DecodeError)
        ensures
            r == self.under_key(key),
    {
        DecodeError { fault: self.fault, path: Path::Key(key, Box::new(self.path)) }
    }

    /// Moves the error up, to the sequence that holds the value at `index`.
    pub fn within_index(self, index: usize) -> (r: DecodeError)
        ensures
            r == self.under_index(index),
    {
        DecodeError { fault: self.fault, path: Path::Index(index, Box::new(self.path)) }
    }
}

/// The decimal digit `d`, as text.
pub open spec fn digit_text(d: nat) -> Seq<char> {
    if d == 0 {
        "0"@
    } else if d == 1 {
        "1"@
    } else if d == 2 {
        "2"@
    } else if d == 3 {
        "3"@
    } else if d == 4 {
        "4"@
    } else if d == 5 {
        "5"@
    } else if d == 6 {
        "6"@
    } else if d == 7 {
        "7"@
    } else if d == 8 {
        "8"@
    } else {
        "9"@
    }
}

/// The number `n` in decimal digits, without leading zeros.
pub open spec fn number_text(n: nat) -> Seq<char>
    decreases n,
{
    if n < 10 {
        digit_text(n)
    } else {
        number_text(n / 10) + digit_text(n % 10)
    }
}

fn digit(d: usize) -> (r: &'static str)
    requires
        d < 10,
    ensures
        r@ == digit_text(d as nat),
{
    if d == 0 {
        "0"
    } else if d == 1 {
        "1"
    } else if d == 2 {
        "2"
    } else if d == 3 {
        "3"
    } else if d == 4 {
        "4"
    } else if d == 5 {
        "5"
    } else if d == 6 {
        "6"
    } else if d == 7 {
        "7"
    } else if d == 8 {
        "8"
    } else {
        "9"
    }
}

fn push_number(text: &mut String, n: usize)
    ensures
        final(text)@ == old(text)@ + number_text(n as nat),
    decreases n,
{
    if n >= 10 {
        push_number(text, n / 10);
    }
    text.append(digit(n % 10));
}

impl Fault {
    /// What the fault says of the value.
    pub open spec fn text(self) -> Seq<char> {
        match self {
            Fault::Missing => "missing key"@,
            Fault::NotText => "expected a string"@,
            Fault::NotNumber => "expected a number"@,
            Fault::NotCount => "expected an unsigned integer"@,
            Fault::NotSequence => "expected a sequence"@,
            Fault::NotMapping => "expected a mapping"@,
            Fault::UnknownPaymentType => "unknown payment type"@,
        }
    }

    /// The fault in words.
    pub fn describe(self) -> (r: &'static str)
        ensures
            r@ == self.text(),
    {
        match self {
            Fault::Missing => "missing key",
            Fault::NotText => "expected a string",
            Fault::NotNumber => "expected a number",
            Fault::NotCount => "expected an unsigned integer",
            Fault::NotSequence => "expected a sequence",
            Fault::NotMapping => "expected a mapping",
            Fault::UnknownPaymentType => "unknown payment type",
        }
    }
}

impl Path {
    /// The path below its first segment: a key after a dot, a position in
    /// square brackets.
    pub open spec fn rest_text(self) -> Seq<char>
        decreases self,
    {
        match self {
            Path::Here => Seq::empty(),
            Path::Key(key, rest) => "."@ + key.name_text() + rest.rest_text(),
            Path::Index(index, rest) => "["@ + number_text(index as nat) + "]"@ + rest.rest_text(),
        }
    }

    /// The path as a reader would write it, such as `detail[0].unit_price`;
    /// the root of the document is `document`.
    pub open spec fn text(self) -> Seq<char> {
        match self {
            Path::Here => "document"@,
            Path::Key(key, rest) => key.name_text() + rest.rest_text(),
            Path::Index(_, _) => self.rest_text(),
        }
    }

    fn push_rest(&self, text: &mut String)
        ensures
            final(text)@ == old(text)@ + self.rest_text(),
        decreases self,
    {
        match self {
            Path::Here => {
                assert(text@ =~= text@ + Seq::<char>::empty());
            },
            Path::Key(key, rest) => {
                text.append(".");
                text.append(key.name());
                rest.push_rest(text);
                assert(final(text)@ =~= old(text)@ + ("."@ + key.name_text() + rest.rest_text()));
            },
            Path::Index(index, rest) => {
                text.append("[");
                push_number(text, *index);
                text.append("]");
                rest.push_rest(text);
                assert(final(text)@ =~= old(text)@ + ("["@ + number_text(*index as nat) + "]"@
                    + rest.rest_text()));
            },
        }
    }

    /// The path in words.
    pub fn describe(&self) -> (r: String)
        ensures
            r@ == self.text(),
    {
        match self {
            Path::Here => "document".to_owned(),
            Path::Key(key, rest) => {
                let mut text: String = key.name().to_owned();
                rest.push_rest(&mut text);
                text
            },
            Path::Index(_, _) => {
                let mut text: String = String::new();
                self.push_rest(&mut text);
                assert(text@ =~= self.rest_text());
                text
            },
        }
    }
}

impl DecodeError {
    /// The error in words: the place, a colon, and what is wrong there.
    pub open spec fn text(self) -> Seq<char> {
        self.path.text() + ": "@ + self.fault.text()
    }

    /// The error in words.
    pub fn describe(&self) -> (r: String)
        ensures
            r@ == self.text(),
    {
        let mut text: String = self.path.describe();
        text.append(": ");
        text.append(self.fault.describe());
        text
    }
}

} // verus!
