//! Entity identifiers and their form on the wire.
//!
//! Identifiers are 64-bit integers. Some JSON decoders cannot hold such a
//! number exactly, so an identifier is written as a string of decimal digits,
//! and is read from either a string or an integer.

use crate::common::text::{
    chars_of, decimal_i64, decimal_text, digit_char, digit_of, digits_text, digits_value,
    format_i64, is_digit, is_whitespace, parse_i64, trim, trim_end, trim_start, trimmed,
};
use vstd::prelude::*;
use vstd::std_specs::convert::FromSpecImpl;

verus! {

/// The identifier of an entity.
#[derive(Debug, Clone, Copy, PartialEq, Eq, PartialOrd, Ord, Hash, Structural)]
pub struct Id(pub i64);

/// Why a value on the wire is no identifier.
#[derive(Debug, Clone, Copy, PartialEq, Eq, Structural)]
pub enum IdError {
    /// A string that is empty once the whitespace around it is gone.
    Empty,
    /// A string that does not write a 64-bit integer.
    Invalid,
    /// An unsigned integer above the largest identifier.
    OutOfRange,
}

impl IdError {
    /// The message shown for this error.
    pub open spec fn message(self) -> Seq<char> {
        match self {
            IdError::Empty => "id must not be empty"@,
            IdError::Invalid => "invalid id"@,
            IdError::OutOfRange => "id is out of range for i64"@,
        }
    }

    /// Renders the error as text.
    pub fn to_string(&self) -> (text: String)
        ensures
            text@ == self.message(),
    {
        match self {
            IdError::Empty => "id must not be empty".to_owned(),
            IdError::Invalid => "invalid id".to_owned(),
            IdError::OutOfRange => "id is out of range for i64".to_owned(),
        }
    }
}

impl From<i64> for Id {
    fn from(value: i64) -> (id: Self) {
        Id(value)
    }
}

impl FromSpecImpl<i64> for Id {
    open spec fn obeys_from_spec() -> bool {
        true
    }

    open spec fn from_spec(value: i64) -> Self {
        Id(value)
    }
}

impl From<Id> for i64 {
    fn from(id: Id) -> (value: Self) {
        id.0
    }
}

impl FromSpecImpl<Id> for i64 {
    open spec fn obeys_from_spec() -> bool {
        true
    }

    open spec fn from_spec(id: Id) -> Self {
        id.0
    }
}

/// What an unsigned integer on the wire stands for.
pub open spec fn read_unsigned(value: u64) -> Result<Id, IdError> {
    if value <= i64::MAX {
        Ok(Id(value as i64))
    } else {
        Err(IdError::OutOfRange)
    }
}

/// What a string on the wire stands for: the whitespace around it does not
/// count, and what is left has to write a 64-bit integer in base ten.
pub open spec fn read_text(text: Seq<char>) -> Result<Id, IdError> {
    if trimmed(text).len() == 0 {
        Err(IdError::Empty)
    } else {
        match decimal_i64(trimmed(text)) {
            Some(value) => Ok(Id(value)),
            None => Err(IdError::Invalid),
        }
    }
}

impl Id {
    /// The identifier as written on the wire: its decimal digits, with a `-`
    /// in front where it is negative.
    pub fn to_string(&self) -> (text: String)
        ensures
            text@ == decimal_text(self.0 as int),
    {
        format_i64(self.0)
    }

    /// The numbers of a list of identifiers, in order.
    pub fn raw_all(ids: &Vec<Id>) -> (raw: Vec<i64>)
        ensures
            raw@.len() == ids@.len(),
            forall|i: int| 0 <= i < ids@.len() ==> raw@[i] == (#[trigger] ids@[i]).0,
    {
        let mut raw: Vec<i64> = Vec::new();
        let mut at: usize = 0;
        while at < ids.len()
            invariant
                at <= ids.len(),
                raw@.len() == at,
                forall|i: int| 0 <= i < at ==> raw@[i] == (#[trigger] ids@[i]).0,
            decreases ids.len() - at,
        {
            raw.push(ids[at].0);
            at = at + 1;
        }
        raw
    }

    /// Reads a signed integer from the wire.
    pub fn from_signed(value: i64) -> (id: Id)
        ensures
            id == Id(value),
    {
        Id(value)
    }

    /// Reads an unsigned integer from the wire.
    pub fn from_unsigned(value: u64) -> (read: Result<Id, IdError>)
        ensures
            read == read_unsigned(value),
    {
        if value <= 0x7fff_ffff_ffff_ffff {
            Ok(Id(value as i64))
        } else {
            Err(IdError::OutOfRange)
        }
    }

    /// Reads a string from the wire.
    pub fn from_text(text: &str) -> (read: Result<Id, IdError>)
        ensures
            read == read_text(text@),
    {
        let chars = chars_of(text);
        let kept = trim(&chars);
        if kept.len() == 0 {
            return Err(IdError::Empty);
        }
        match parse_i64(&kept) {
            Some(value) => Ok(Id(value)),
            None => Err(IdError::Invalid),
        }
    }
}

proof fn lemma_digits_text_is_digits(number: nat)
    ensures
        digits_text(number).len() > 0,
        forall|i: int| 0 <= i < digits_text(number).len() ==> is_digit(#[trigger] digits_text(number)[i]),
        digits_value(digits_text(number)) == number,
    decreases number,
{
    if number < 10 {
        let text = digits_text(number);
        assert(text.drop_last() =~= Seq::<char>::empty());
        assert(digits_value(text.drop_last()) == 0);
        assert(digit_of(digit_char(number)) == number);
    } else {
        lemma_digits_text_is_digits(number / 10);
        let text = digits_text(number);
        assert(text.drop_last() =~= digits_text(number / 10));
        assert(digit_of(digit_char(number % 10)) == number % 10);
    }
}

/// What [`Id::to_string`] writes, [`Id::from_text`] reads back as the same
/// identifier.
pub proof fn lemma_text_round_trip(id: Id)
    ensures
        read_text(decimal_text(id.0 as int)) == Ok::<Id, IdError>(id),
{
    let value = id.0 as int;
    let text = decimal_text(value);
    let magnitude: nat = if value < 0 { (-value) as nat } else { value as nat };
    lemma_digits_text_is_digits(magnitude);
    let digits = digits_text(magnitude);
    assert(!is_whitespace(digits.last())) by {
        assert(is_digit(digits[digits.len() - 1]));
    }
    assert(!is_whitespace(text[0])) by {
        if value >= 0 {
            assert(is_digit(digits[0]));
        }
    }
    assert(text.last() == digits.last());
    assert(trim_start(text) == text);
    assert(trim_end(text) == text);
    if value < 0 {
        assert(text.skip(1) =~= digits);
    } else {
        assert(text[0] != '-' && text[0] != '+') by {
            assert(is_digit(digits[0]));
        }
    }
}

} // verus!
