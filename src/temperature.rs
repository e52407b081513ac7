use crate::time::{digit_char, digit_str};
use vstd::arithmetic::div_mod::lemma_fundamental_div_mod;
use vstd::prelude::*;

verus! {

/// A temperature given in hundredths of a degree Celsius, rounded to whole
/// degrees with halves going away from zero.
pub open spec fn round_half_away(centi: int) -> int {
    if centi >= 0 {
        (centi + 50) / 100
    } else {
        -((-centi + 50) / 100)
    }
}

/// Rounding lands on the whole degree nearest to the temperature, and a
/// temperature exactly halfway between two degrees goes to the one farther
/// from zero.
pub proof fn lemma_round_half_away(centi: int)
    ensures
        ({
            let r = round_half_away(centi);
            &&& centi >= 0 ==> r * 100 - 50 <= centi < r * 100 + 50
            &&& centi < 0 ==> r * 100 - 50 < centi <= r * 100 + 50
        }),
{
    if centi >= 0 {
        lemma_fundamental_div_mod(centi + 50, 100);
    } else {
        lemma_fundamental_div_mod(-centi + 50, 100);
    }
}

/// The decimal digits of a natural number, without leading zeros.
pub open spec fn decimal_nat(n: nat) -> Seq<char>
    decreases n,
{
    if n < 10 {
        seq![digit_char(n as int)]
    } else {
        decimal_nat(n / 10) + seq![digit_char((n % 10) as int)]
    }
}

/// An integer in decimal, with a leading `-` when it is negative.
pub open spec fn decimal_int(n: int) -> Seq<char> {
    if n < 0 {
        seq!['-'] + decimal_nat((-n) as nat)
    } else {
        decimal_nat(n as nat)
    }
}

/// Whole degrees as shown on the page, such as `15°C`.
pub open spec fn degrees_text(d: int) -> Seq<char> {
    decimal_int(d) + seq!['°', 'C']
}

/// Rounds a temperature in hundredths of a degree to whole degrees, halves
/// away from zero (`20.4` gives 20, `20.5` and `20.6` give 21).
pub fn round_degrees(centi: i64) -> (r: i64)
    ensures
        r == round_half_away(centi as int),
{
    if centi >= 0 {
        let u: u64 = centi as u64;
        ((u + 50) / 100) as i64
    } else {
        // |centi| is at most 2^63, which a u64 holds.
        let u: u64 = (-(centi + 1)) as u64 + 1;
        -(((u + 50) / 100) as i64)
    }
}

/// Whether the felt temperature gets a line of its own: only when it rounds
/// to another whole degree than the measured one.
pub fn shows_feels_like(temp: i64, feels_like: i64) -> (r: bool)
    ensures
        r == (round_half_away(temp as int) != round_half_away(feels_like as int)),
{
    round_degrees(temp) != round_degrees(feels_like)
}

/// A natural number in decimal.
pub fn decimal_text(n: u64) -> (r: String)
    ensures
        r@ == decimal_nat(n as nat),
    decreases n,
{
    if n < 10 {
        String::from_str(digit_str(n))
    } else {
        let mut r = decimal_text(n / 10);
        r.append(digit_str(n % 10));
        r
    }
}

/// An integer in decimal, negative ones with a leading `-`.
pub fn signed_decimal_text(n: i64) -> (r: String)
    ensures
        r@ == decimal_int(n as int),
{
    if n < 0 {
        let u: u64 = (-(n + 1)) as u64 + 1;
        let mut r = String::from_str("-");
        let digits = decimal_text(u);
        r.append(digits.as_str());
        proof {
            reveal_strlit("-");
        }
        assert(r@ =~= decimal_int(n as int));
        r
    } else {
        decimal_text(n as u64)
    }
}

/// Whole degrees followed by the unit, as in `15°C` or `-3°C`.
pub fn degrees_label(d: i64) -> (r: String)
    ensures
        r@ == degrees_text(d as int),
{
    let mut r = signed_decimal_text(d);
    r.append("°C");
    proof {
        reveal_strlit("°C");
    }
    r
}

} // verus!
