//! Typed argument extraction. An extractor derives a typed value from the
//! parts of an inbound request (metadata and body bytes) or fails with an
//! `ExtractError`. Extraction for tuples runs position by position and
//! fails fast, so a later extractor is never consulted once an earlier one
//! has failed.

use vstd::prelude::*;

use crate::error::ExtractError;
use crate::http::RequestHead;

verus! {

/// A collaborator capability: derive a typed value from the inbound
/// request's metadata and body. `spec_from_request` is the mathematical
/// statement of what each extractor produces, and `from_request` is bound
/// to it exactly.
pub trait FromRequest: Sized {
    spec fn spec_from_request(head: RequestHead, body: Seq<u8>) -> Result<Self, ExtractError>;

    fn from_request(head: &RequestHead, payload: &Vec<u8>) -> (r: Result<Self, ExtractError>)
        ensures
            r == Self::spec_from_request(*head, payload@),
    ;
}

/// The empty argument tuple extracts trivially: a zero-argument handler
/// reads nothing from the request.
impl FromRequest for () {
    open spec fn spec_from_request(head: RequestHead, body: Seq<u8>) -> Result<Self, ExtractError> {
        Ok(())
    }

    fn from_request(_head: &RequestHead, _payload: &Vec<u8>) -> Result<Self, ExtractError> {
        Ok(())
    }
}

/// A one-argument tuple extracts its single position.
impl<A: FromRequest> FromRequest for (A,) {
    open spec fn spec_from_request(head: RequestHead, body: Seq<u8>) -> Result<Self, ExtractError> {
        match A::spec_from_request(head, body) {
            Ok(a) => Ok((a,)),
            Err(e) => Err(e),
        }
    }

    fn from_request(head: &RequestHead, payload: &Vec<u8>) -> Result<Self, ExtractError> {
        match A::from_request(head, payload) {
            Ok(a) => Ok((a,)),
            Err(e) => Err(e),
        }
    }
}

/// A two-argument tuple extracts position by position, failing fast: when
/// the first position fails, the second extractor never runs.
impl<A: FromRequest, B: FromRequest> FromRequest for (A, B) {
    open spec fn spec_from_request(head: RequestHead, body: Seq<u8>) -> Result<Self, ExtractError> {
        match A::spec_from_request(head, body) {
            Ok(a) => match B::spec_from_request(head, body) {
                Ok(b) => Ok((a, b)),
                Err(e) => Err(e),
            },
            Err(e) => Err(e),
        }
    }

    fn from_request(head: &RequestHead, payload: &Vec<u8>) -> Result<Self, ExtractError> {
        match A::from_request(head, payload) {
            Ok(a) => match B::from_request(head, payload) {
                Ok(b) => Ok((a, b)),
                Err(e) => Err(e),
            },
            Err(e) => Err(e),
        }
    }
}

/// The shared application value, configured once on the pipeline and handed
/// to every handler that declares it as an argument. Extraction fails when
/// the pipeline was configured without one.
#[derive(Clone, Copy, Debug, PartialEq, Eq)]
pub struct SharedValue {
    pub value: u64,
}

impl FromRequest for SharedValue {
    open spec fn spec_from_request(head: RequestHead, body: Seq<u8>) -> Result<Self, ExtractError> {
        match head.shared_data {
            Some(v) => Ok(SharedValue { value: v }),
            None => Err(ExtractError::MissingSharedData),
        }
    }

    fn from_request(head: &RequestHead, _payload: &Vec<u8>) -> Result<Self, ExtractError> {
        match head.shared_data {
            Some(v) => Ok(SharedValue { value: v }),
            None => Err(ExtractError::MissingSharedData),
        }
    }
}

/// A typed value decoded from the request body: the body must be a
/// non-empty run of at most `MAX_DECIMAL_DIGITS` decimal digits, and the
/// decoded number is their value.
#[derive(Clone, Copy, Debug, PartialEq, Eq)]
pub struct RecordBody {
    pub value: u64,
}

impl FromRequest for RecordBody {
    open spec fn spec_from_request(head: RequestHead, body: Seq<u8>) -> Result<Self, ExtractError> {
        match spec_parse_decimal(body) {
            Some(v) => Ok(RecordBody { value: v }),
            None => Err(ExtractError::MalformedBody),
        }
    }

    fn from_request(_head: &RequestHead, payload: &Vec<u8>) -> Result<Self, ExtractError> {
        match parse_decimal(payload) {
            Some(v) => Ok(RecordBody { value: v }),
            None => Err(ExtractError::MalformedBody),
        }
    }
}

/// The longest digit run the body decoder accepts. Every run of at most 19
/// decimal digits has a value below `10^19`, which fits in a `u64`.
pub const MAX_DECIMAL_DIGITS: usize = 19;

/// Whether a byte is an ASCII decimal digit.
pub open spec fn is_ascii_digit(b: u8) -> bool {
    48 <= b && b <= 57
}

/// Whether every byte of the sequence is an ASCII decimal digit.
pub open spec fn all_ascii_digits(s: Seq<u8>) -> bool {
    forall|i: int| 0 <= i < s.len() ==> is_ascii_digit(#[trigger] s[i])
}

/// The numeric value of a run of decimal digits, most significant first.
pub open spec fn digits_value(s: Seq<u8>) -> int
    decreases s.len(),
{
    if s.len() == 0 {
        0
    } else {
        digits_value(s.drop_last()) * 10 + (s.last() - 48)
    }
}

/// Ten to the given power.
pub open spec fn pow10(n: nat) -> int
    decreases n,
{
    if n == 0 {
        1
    } else {
        10 * pow10((n - 1) as nat)
    }
}

pub proof fn lemma_pow10_monotonic(a: nat, b: nat)
    requires
        a <= b,
    ensures
        1 <= pow10(a) <= pow10(b),
    decreases b,
{
    if b == 0 {
    } else if a == b {
        lemma_pow10_monotonic((a - 1) as nat, (b - 1) as nat);
    } else {
        lemma_pow10_monotonic(a, (b - 1) as nat);
    }
}

/// A run of digits of length `n` has a value in `[0, 10^n)`.
pub proof fn lemma_digits_value_bounds(s: Seq<u8>)
    requires
        all_ascii_digits(s),
    ensures
        0 <= digits_value(s) < pow10(s.len()),
    decreases s.len(),
{
    if s.len() == 0 {
    } else {
        assert(all_ascii_digits(s.drop_last())) by {
            assert(forall|i: int|
                0 <= i < s.len() - 1 ==> s.drop_last()[i] == #[trigger] s[i]);
        }
        lemma_digits_value_bounds(s.drop_last());
        assert(is_ascii_digit(s.last()));
    }
}

/// `10^19` written out; it lies below the `u64` range.
proof fn lemma_pow10_19_value()
    ensures
        pow10(19) == 10_000_000_000_000_000_000,
{
    reveal_with_fuel(pow10, 21);
}

/// Decode a run of decimal digits. The result is the digits' numeric value
/// exactly when the input is one to `MAX_DECIMAL_DIGITS` ASCII digits, and
/// `None` otherwise.
pub fn parse_decimal(bytes: &Vec<u8>) -> (r: Option<u64>)
    ensures
        r == spec_parse_decimal(bytes@),
{
    if bytes.len() < 1 || bytes.len() > MAX_DECIMAL_DIGITS {
        return None;
    }
    let mut value: u64 = 0;
    let mut i: usize = 0;
    while i < bytes.len()
        invariant
            0 <= i <= bytes@.len() <= 19,
            all_ascii_digits(bytes@.subrange(0, i as int)),
            value == digits_value(bytes@.subrange(0, i as int)),
        decreases bytes@.len() - i,
    {
        let b = bytes[i];
        if b < 48 || b > 57 {
            assert(!is_ascii_digit(bytes@[i as int]));
            assert(!all_ascii_digits(bytes@));
            return None;
        }
        proof {
            let prefix = bytes@.subrange(0, i as int);
            lemma_digits_value_bounds(prefix);
            lemma_pow10_monotonic(prefix.len() as nat, 18);
            lemma_pow10_19_value();
            reveal_with_fuel(pow10, 21);
        }
        value = value * 10 + ((b - 48) as u64);
        i = i + 1;
        proof {
            let prefix = bytes@.subrange(0, i as int);
            assert(prefix.drop_last() =~= bytes@.subrange(0, i as int - 1));
            assert(prefix.last() == b);
        }
    }
    proof {
        assert(bytes@.subrange(0, bytes@.len() as int) =~= bytes@);
        lemma_digits_value_bounds(bytes@);
        lemma_pow10_monotonic(bytes@.len() as nat, 19);
        lemma_pow10_19_value();
    }
    Some(value)
}

/// What `parse_decimal` returns: the value of a non-empty run of at most
/// `MAX_DECIMAL_DIGITS` ASCII digits, and nothing for any other body.
pub open spec fn spec_parse_decimal(s: Seq<u8>) -> Option<u64> {
    if 1 <= s.len() && s.len() <= 19 && all_ascii_digits(s) {
        Some(digits_value(s) as u64)
    } else {
        None
    }
}

} // verus!
