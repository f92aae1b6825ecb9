//! What a mapping holds under one key, as the decoding rules see it.

use vstd::prelude::*;
use crate::error::{DecodeError, Fault};
use crate::schema::Key;

verus! {

/// The outcome of looking one key up in a mapping and reading its value.
#[derive(Debug, PartialEq, Eq)]
pub enum Field<T> {
    /// The mapping has no such key.
    Absent,
    /// The key is there, and its value does not read as what is expected.
    /// The error's path starts at the value.
    Invalid(DecodeError),
    /// The key is there, with this value.
    Present(T),
}

impl<T: DeepView> DeepView for Field<T> {
    type V = Field<T::V>;

    open spec fn deep_view(&self) -> Field<T::V> {
        match *self {
            Field::Absent => Field::Absent,
            Field::Invalid(e) => Field::Invalid(e),
            Field::Present(t) => Field::Present(t.deep_view()),
        }
    }
}

impl<T> Field<T> {
    /// The field of a key that is there, from what its value reads as.
    pub open spec fn of(read: Result<T, DecodeError>) -> Field<T> {
        match read {
            Ok(t) => Field::Present(t),
            Err(e) => Field::Invalid(e),
        }
    }

    /// Makes the field of a key that is there.
    pub fn from_result(read: Result<T, DecodeError>) -> (r: Field<T>)
        ensures
            r == Field::of(read),
    {
        match read {
            Ok(t) => Field::Present(t),
            Err(e) => Field::Invalid(e),
        }
    }

    /// The value of a field that the model requires: a missing key is an
    /// error that names the key.
    pub open spec fn demanded(self, key: Key) -> Result<T, DecodeError> {
        match self {
            Field::Absent => Err(DecodeError::missing(key)),
            Field::Invalid(e) => Err(e.under_key(key)),
            Field::Present(t) => Ok(t),
        }
    }

    /// The value of a field that the model can do without: a missing key
    /// gives `fallback`.
    pub open spec fn defaulted(self, key: Key, fallback: T) -> Result<T, DecodeError> {
        match self {
            Field::Absent => Ok(fallback),
            Field::Invalid(e) => Err(e.under_key(key)),
            Field::Present(t) => Ok(t),
        }
    }

    /// Takes the value of a required field.
    pub fn required(self, key: Key) -> (r: Result<T, DecodeError>)
        ensures
            r == self.demanded(key),
    {
        match self {
            Field::Absent => Err(DecodeError::at(Fault::Missing).within_key(key)),
            Field::Invalid(e) => Err(e.within_key(key)),
            Field::Present(t) => Ok(t),
        }
    }

    /// Takes the value of a field, or `fallback` where the key is missing.
    pub fn or_default(self, key: Key, fallback: T) -> (r: Result<T, DecodeError>)
        ensures
            r == self.defaulted(key, fallback),
    {
        match self {
            Field::Absent => Ok(fallback),
            Field::Invalid(e) => Err(e.within_key(key)),
            Field::Present(t) => Ok(t),
        }
    }
}

/// A result with its value seen through its view.
pub open spec fn outcome<T: DeepView>(r: Result<T, DecodeError>) -> Result<T::V, DecodeError> {
    match r {
        Ok(t) => Ok(t.deep_view()),
        Err(e) => Err(e),
    }
}

} // verus!
