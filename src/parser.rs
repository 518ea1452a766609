use vstd::prelude::*;
use vstd::string::*;

verus! {

/// Why a header could not be decoded.
#[derive(Debug)]
pub enum ParseError {
    /// The buffer is shorter than the header: bytes required, bytes available.
    NotEnoughBytes(usize, usize),
    /// A code is outside its registry: the value in decimal, and the registry's name.
    UnsupportedValue { value: String, kind: String },
}

/// The character of a decimal digit.
pub open spec fn digit_char(d: nat) -> char
    recommends
        d < 10,
{
    if d == 0 {
        '0'
    } else if d == 1 {
        '1'
    } else if d == 2 {
        '2'
    } else if d == 3 {
        '3'
    } else if d == 4 {
        '4'
    } else if d == 5 {
        '5'
    } else if d == 6 {
        '6'
    } else if d == 7 {
        '7'
    } else if d == 8 {
        '8'
    } else {
        '9'
    }
}

/// The decimal digits of `n`, most significant first, with no leading zero.
pub open spec fn decimal_digits(n: nat) -> Seq<char>
    decreases n,
{
    if n < 10 {
        seq![digit_char(n)]
    } else {
        decimal_digits(n / 10).push(digit_char(n % 10))
    }
}

/// Relies on `ToString` for `u8`, that is its `Display`: the value written in
/// decimal, without sign, padding or leading zeros.
#[verifier::external_body]
fn decimal_string(v: u8) -> (r: String)
    ensures
        r@ == decimal_digits(v as nat),
{
    v.to_string()
}

impl ParseError {
    /// Whether this is the error for `value`, rejected by the registry named `kind`.
    pub open spec fn is_unsupported(self, value: u8, kind: Seq<char>) -> bool {
        self matches ParseError::UnsupportedValue { value: v, kind: k } && v@ == decimal_digits(
            value as nat,
        ) && k@ == kind
    }

    /// The error for a raw code `value` that the registry named `kind` does not define.
    pub fn unsupported(value: u8, kind: &str) -> (e: ParseError)
        ensures
            e.is_unsupported(value, kind@),
    {
        ParseError::UnsupportedValue { value: decimal_string(value), kind: String::from_str(kind) }
    }
}

} // verus!
