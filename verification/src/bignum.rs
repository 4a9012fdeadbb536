//! Arbitrary-precision natural numbers, provided by `num::BigUint`.
//!
//! The `BigUint` type is opaque to the verifier; the uninterpreted function
//! [`big_val`] names the mathematical value a `BigUint` carries, and each
//! trusted wrapper below states, over `big_val`, what the corresponding
//! `num` operation does.  Decimal rendering is specified by [`dec_seq`],
//! and [`usize_to_string`] is a verified decimal printer for machine words.

use vstd::prelude::*;

verus! {

use vstd::arithmetic::power::pow;

#[verifier::external_type_specification]
#[verifier::external_body]
pub struct ExBigUint(num::BigUint);

/// The natural number that a `BigUint` represents.
pub uninterp spec fn big_val(b: num::BigUint) -> nat;

/// The character for a single decimal digit.
pub open spec fn dec_digit(d: nat) -> char {
    if d == 0 {
        '0'
    } else if d == 1 {
        '1'
    } else if d == 2 {
        '2'
    } else if d == 3 {
        '3'
    } else if d == 4 {
        '4'
    } else if d == 5 {
        '5'
    } else if d == 6 {
        '6'
    } else if d == 7 {
        '7'
    } else if d == 8 {
        '8'
    } else {
        '9'
    }
}

/// The decimal rendering of a natural number: most significant digit
/// first, no leading zeroes, and `0` itself rendered as `"0"`.
pub open spec fn dec_seq(n: nat) -> Seq<char>
    decreases n,
{
    if n < 10 {
        seq![dec_digit(n)]
    } else {
        dec_seq(n / 10).push(dec_digit(n % 10))
    }
}

/// Relies on `<num::BigUint as From<u64>>::from`, which builds the big
/// integer with exactly that value.
#[verifier::external_body]
pub(crate) fn big_from_u64(n: u64) -> (r: num::BigUint)
    ensures
        big_val(r) == n as nat,
{
    num::BigUint::from(n)
}

/// Relies on `<&num::BigUint as core::ops::Add>::add`: addition of
/// arbitrary-precision naturals.
#[verifier::external_body]
pub(crate) fn big_add(a: &num::BigUint, b: &num::BigUint) -> (r: num::BigUint)
    ensures
        big_val(r) == big_val(*a) + big_val(*b),
{
    a + b
}

/// Relies on `<&num::BigUint as core::ops::Sub>::sub`: subtraction of
/// arbitrary-precision naturals.  `num` panics when the result would be
/// negative, so that case is excluded here.
#[verifier::external_body]
pub(crate) fn big_sub(a: &num::BigUint, b: &num::BigUint) -> (r: num::BigUint)
    requires
        big_val(*b) <= big_val(*a),
    ensures
        big_val(r) == big_val(*a) - big_val(*b),
{
    a - b
}

/// Relies on `num::pow`, exponentiation by repeated squaring
/// (`pow(0, 0)` is documented to be `1`, matching the mathematical
/// convention used by `vstd`'s `pow`).
#[verifier::external_body]
pub(crate) fn big_pow(base: &num::BigUint, exp: usize) -> (r: num::BigUint)
    ensures
        big_val(r) == pow(big_val(*base) as int, exp as nat),
{
    num::pow(base.clone(), exp)
}

/// Relies on `<num::BigUint as Clone>::clone`, which copies the value.
#[verifier::external_body]
pub(crate) fn big_clone(b: &num::BigUint) -> (r: num::BigUint)
    ensures
        big_val(r) == big_val(*b),
{
    b.clone()
}

/// Relies on `<num::BigUint as core::fmt::Display>::fmt`, which renders
/// the value in base 10 with no leading zeroes.
#[verifier::external_body]
pub(crate) fn big_to_string(b: &num::BigUint) -> (s: String)
    ensures
        s@ == dec_seq(big_val(*b)),
{
    b.to_string()
}

/// The one-character string for a decimal digit.
fn dec_digit_str(d: usize) -> (s: &'static str)
    requires
        d < 10,
    ensures
        s@ == seq![dec_digit(d as nat)],
{
    proof {
        reveal_strlit("0");
        reveal_strlit("1");
        reveal_strlit("2");
        reveal_strlit("3");
        reveal_strlit("4");
        reveal_strlit("5");
        reveal_strlit("6");
        reveal_strlit("7");
        reveal_strlit("8");
        reveal_strlit("9");
    }
    if d == 0 {
        "0"
    } else if d == 1 {
        "1"
    } else if d == 2 {
        "2"
    } else if d == 3 {
        "3"
    } else if d == 4 {
        "4"
    } else if d == 5 {
        "5"
    } else if d == 6 {
        "6"
    } else if d == 7 {
        "7"
    } else if d == 8 {
        "8"
    } else {
        "9"
    }
}

/// Renders a machine word in decimal.
pub fn usize_to_string(n: usize) -> (s: String)
    ensures
        s@ == dec_seq(n as nat),
    decreases n,
{
    if n < 10 {
        dec_digit_str(n).to_owned()
    } else {
        let mut s = usize_to_string(n / 10);
        let d = dec_digit_str(n % 10);
        s.append(d);
        proof {
            assert(s@ =~= dec_seq((n / 10) as nat).push(dec_digit((n % 10) as nat)));
        }
        s
    }
}

} // verus!
