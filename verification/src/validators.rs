//! Rules that a value must meet.

use vstd::prelude::*;
use vstd::string::StringSliceAdditionalSpecFns;
use vstd::utf8::encode_utf8;

verus! {

/// An error that can say what went wrong.
pub trait ErrorText {
    /// What the error says.
    spec fn text(&self) -> Seq<char>;

    /// What the error says.
    fn message(&self) -> (text: String)
        ensures
            text@ == self.text(),
    ;
}

/// A rule on values of type `T`.
pub trait Validator<T: ?Sized + View> {
    /// How a value can break the rule.
    type Error: ErrorText;

    /// Whether the value meets the rule and, if not, how it breaks it.
    spec fn verdict(&self, value: T::V) -> Result<(), Self::Error>;

    /// Holds the value against the rule.
    fn validate(&self, value: &T) -> (verdict: Result<(), Self::Error>)
        ensures
            verdict == self.verdict(value@),
    ;
}

/// How a string can break the rule of `EmptyStrValidator`: in no way, as
/// that validator accepts every string.
#[derive(Clone, Copy, Debug, PartialEq, Eq, Structural)]
pub enum EmptyStrValidatorError {
    Empty,
}

impl ErrorText for EmptyStrValidatorError {
    open spec fn text(&self) -> Seq<char> {
        "Empty error"@
    }

    fn message(&self) -> (text: String) {
        "Empty error".to_owned()
    }
}

/// The rule that every string meets.
pub struct EmptyStrValidator;

impl Default for EmptyStrValidator {
    fn default() -> Self {
        Self {}
    }
}

impl Validator<str> for EmptyStrValidator {
    type Error = EmptyStrValidatorError;

    open spec fn verdict(&self, value: Seq<char>) -> Result<(), EmptyStrValidatorError> {
        Ok(())
    }

    fn validate(&self, value: &str) -> (verdict: Result<(), EmptyStrValidatorError>) {
        Ok(())
    }
}

/// How a string can break the rule of a `StrValidator`.
#[derive(Clone, Copy, Debug, PartialEq, Eq, Structural)]
pub enum StrValidatorError {
    /// The string is longer than the upper limit.
    MaxLimit,
    /// The string is not longer than the lower limit.
    MinLimit,
}

impl ErrorText for StrValidatorError {
    open spec fn text(&self) -> Seq<char> {
        match self {
            StrValidatorError::MaxLimit => "Max limit"@,
            StrValidatorError::MinLimit => "Min limit"@,
        }
    }

    fn message(&self) -> (text: String) {
        match self {
            StrValidatorError::MaxLimit => "Max limit".to_owned(),
            StrValidatorError::MinLimit => "Min limit".to_owned(),
        }
    }
}

/// The rule that a string is longer than `min_length` bytes and not longer
/// than `max_length` bytes.
#[derive(Clone, Copy)]
pub struct StrValidator {
    pub min_length: usize,
    pub max_length: usize,
}

impl StrValidator {
    /// The rule with the given limits.
    pub fn new(min_length: usize, max_length: usize) -> (validator: Self)
        ensures
            validator.min_length == min_length,
            validator.max_length == max_length,
    {
        Self { max_length, min_length }
    }

    /// The verdict on a string of `len` bytes: too long comes before too
    /// short.
    pub open spec fn judge(&self, len: nat) -> Result<(), StrValidatorError> {
        if len > self.max_length {
            Err(StrValidatorError::MaxLimit)
        } else if len <= self.min_length {
            Err(StrValidatorError::MinLimit)
        } else {
            Ok(())
        }
    }
}

impl Default for StrValidator {
    /// Any string but the empty one, up to the largest length but one.
    fn default() -> (validator: Self)
        ensures
            validator.min_length == 0,
            validator.max_length == usize::MAX - 1,
    {
        Self { max_length: usize::MAX - 1, min_length: 0 }
    }
}

impl Validator<str> for StrValidator {
    type Error = StrValidatorError;

    /// The string is measured in the bytes of its UTF-8 form.
    open spec fn verdict(&self, value: Seq<char>) -> Result<(), StrValidatorError> {
        self.judge(encode_utf8(value).len())
    }

    fn validate(&self, value: &str) -> (verdict: Result<(), StrValidatorError>) {
        let len = value.as_bytes().len();
        if len > self.max_length {
            return Err(StrValidatorError::MaxLimit);
        }
        if len <= self.min_length {
            return Err(StrValidatorError::MinLimit);
        }
        Ok(())
    }
}

} // verus!
