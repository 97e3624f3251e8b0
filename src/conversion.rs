//! Infallible and fallible conversions, rendering to text and parsing text.
use vstd::prelude::*;

use crate::text::{
    int_literal, int_text, lemma_int_text_reads_back, nat_literal, push_int, push_text,
    read_digit_run, DigitRun, ParseIntError,
};

verus! {

/// A record wrapping one integer.
#[derive(Debug, Clone, Copy, PartialEq, Eq, Structural)]
pub struct Number {
    pub value: i32,
}

impl From<i32> for Number {
    fn from(item: i32) -> Number {
        Number { value: item }
    }
}

impl vstd::std_specs::convert::FromSpecImpl<i32> for Number {
    open spec fn obeys_from_spec() -> bool {
        true
    }

    open spec fn from_spec(v: i32) -> Number {
        Number { value: v }
    }
}

/// An integer known to be even.
#[derive(Debug, Clone, Copy, PartialEq, Eq, Structural)]
pub struct EvenNumber(pub i32);

/// The outcome of converting `v` to an even number.
pub open spec fn even_from(v: i32) -> Result<EvenNumber, ()> {
    if v % 2 == 0 {
        Ok(EvenNumber(v))
    } else {
        Err(())
    }
}

impl TryFrom<i32> for EvenNumber {
    type Error = ();

    fn try_from(value: i32) -> Result<Self, Self::Error> {
        if value % 2 == 0 {
            Ok(EvenNumber(value))
        } else {
            Err(())
        }
    }
}

impl vstd::std_specs::convert::TryFromSpecImpl<i32> for EvenNumber {
    open spec fn obeys_try_from_spec() -> bool {
        true
    }

    open spec fn try_from_spec(v: i32) -> Result<EvenNumber, ()> {
        even_from(v)
    }
}

/// Every even integer converts to a wrapper holding it and every odd one is
/// rejected, whether the conversion is asked of the wrapper type or of the
/// integer.
pub proof fn lemma_even_conversion(n: i32)
    ensures
        n % 2 == 0 ==> <EvenNumber as vstd::std_specs::convert::TryFromSpec<i32>>::try_from_spec(n) == Ok::<EvenNumber, ()>(EvenNumber(n)),
        n % 2 != 0 ==> <EvenNumber as vstd::std_specs::convert::TryFromSpec<i32>>::try_from_spec(n) == Err::<EvenNumber, ()>(()),
        <i32 as vstd::std_specs::convert::TryIntoSpec<EvenNumber>>::try_into_spec(n)
            == <EvenNumber as vstd::std_specs::convert::TryFromSpec<i32>>::try_from_spec(n),
{
}

/// A circle given by its radius.
#[derive(Debug, Clone, Copy, PartialEq, Eq, Structural)]
pub struct Circle {
    pub radius: i32,
}

impl Circle {
    /// "Circle of radius " followed by the radius in decimal.
    pub fn to_string(&self) -> (r: String)
        ensures
            r@ == "Circle of radius "@ + int_text(self.radius as int),
    {
        let mut out = String::new();
        push_text(&mut out, "Circle of radius ");
        push_int(&mut out, self.radius as i64);
        out
    }
}

/// The decimal text of an integer.
pub fn int_to_string(n: i32) -> (r: String)
    ensures
        r@ == int_text(n as int),
{
    let mut out = String::new();
    push_int(&mut out, n as i64);
    assert(out@ =~= int_text(n as int));
    out
}

/// The outcome of reading `s` as an `i32`.
pub open spec fn i32_from_text(s: Seq<char>) -> Result<i32, ParseIntError> {
    if s.len() == 0 {
        Err(ParseIntError::Empty)
    } else {
        match int_literal(s) {
            None => Err(ParseIntError::InvalidDigit),
            Some(v) => if v > i32::MAX {
                Err(ParseIntError::PosOverflow)
            } else if v < i32::MIN {
                Err(ParseIntError::NegOverflow)
            } else {
                Ok(v as i32)
            },
        }
    }
}

/// The outcome of reading `s` as a `u64`.
pub open spec fn u64_from_text(s: Seq<char>) -> Result<u64, ParseIntError> {
    if s.len() == 0 {
        Err(ParseIntError::Empty)
    } else {
        match nat_literal(s) {
            None => Err(ParseIntError::InvalidDigit),
            Some(v) => if v > u64::MAX {
                Err(ParseIntError::PosOverflow)
            } else {
                Ok(v as u64)
            },
        }
    }
}

/// Reads a signed decimal literal (optional '+' or '-', then digits) as an
/// `i32`.
pub fn parse_i32(s: &str) -> (r: Result<i32, ParseIntError>)
    ensures
        r == i32_from_text(s@),
{
    let n = s.unicode_len();
    if n == 0 {
        return Err(ParseIntError::Empty);
    }
    let c = s.get_char(0);
    assert(s@.subrange(1, s@.len() as int) =~= s@.drop_first());
    assert(s@.subrange(0, s@.len() as int) =~= s@);
    if c == '-' {
        match read_digit_run(s, 1, 2147483648) {
            DigitRun::Invalid => Err(ParseIntError::InvalidDigit),
            DigitRun::Value(v) => {
                if v == 2147483648 {
                    Ok(i32::MIN)
                } else {
                    Ok(-(v as i32))
                }
            },
            DigitRun::Above => Err(ParseIntError::NegOverflow),
        }
    } else {
        let start: usize = if c == '+' { 1 } else { 0 };
        match read_digit_run(s, start, 2147483647) {
            DigitRun::Invalid => Err(ParseIntError::InvalidDigit),
            DigitRun::Value(v) => Ok(v as i32),
            DigitRun::Above => Err(ParseIntError::PosOverflow),
        }
    }
}

/// Reads an unsigned decimal literal (optional '+', then digits) as a `u64`.
pub fn parse_u64(s: &str) -> (r: Result<u64, ParseIntError>)
    ensures
        r == u64_from_text(s@),
{
    let n = s.unicode_len();
    if n == 0 {
        return Err(ParseIntError::Empty);
    }
    let c = s.get_char(0);
    assert(s@.subrange(1, s@.len() as int) =~= s@.drop_first());
    assert(s@.subrange(0, s@.len() as int) =~= s@);
    let start: usize = if c == '+' { 1 } else { 0 };
    match read_digit_run(s, start, u64::MAX) {
        DigitRun::Invalid => Err(ParseIntError::InvalidDigit),
        DigitRun::Value(v) => Ok(v),
        DigitRun::Above => Err(ParseIntError::PosOverflow),
    }
}

/// Parsing the decimal text of an `i32` gives the same `i32` back.
pub proof fn lemma_parse_inverts_render(n: i32)
    ensures
        i32_from_text(int_text(n as int)) == Ok::<i32, ParseIntError>(n),
{
    lemma_int_text_reads_back(n as int);
}

} // verus!
