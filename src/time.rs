use vstd::arithmetic::div_mod::lemma_mod_multiples_vanish;
use vstd::prelude::*;

verus! {

/// The character of a decimal digit.
pub open spec fn digit_char(d: int) -> char {
    if d == 0 { '0' }
    else if d == 1 { '1' }
    else if d == 2 { '2' }
    else if d == 3 { '3' }
    else if d == 4 { '4' }
    else if d == 5 { '5' }
    else if d == 6 { '6' }
    else if d == 7 { '7' }
    else if d == 8 { '8' }
    else { '9' }
}

/// The seconds elapsed since local midnight, for epoch seconds `t` read in a
/// zone that is `offset_minutes` ahead of UTC.
pub open spec fn seconds_of_day(t: int, offset_minutes: int) -> int {
    (t + offset_minutes * 60) % 86400
}

pub open spec fn hour_of(t: int, offset_minutes: int) -> int {
    seconds_of_day(t, offset_minutes) / 3600
}

pub open spec fn minute_of(t: int, offset_minutes: int) -> int {
    (seconds_of_day(t, offset_minutes) % 3600) / 60
}

/// A number below one hundred written with exactly two digits.
pub open spec fn two_digits(n: int) -> Seq<char> {
    seq![digit_char(n / 10), digit_char(n % 10)]
}

/// `HH:MM` for an hour and a minute.
pub open spec fn clock_text(h: int, m: int) -> Seq<char> {
    two_digits(h) + seq![':'] + two_digits(m)
}

/// The local clock time of epoch seconds `t` as `HH:MM`.
pub open spec fn time_text(t: int, offset_minutes: int) -> Seq<char> {
    clock_text(hour_of(t, offset_minutes), minute_of(t, offset_minutes))
}

/// Whether `c` is one of the ten decimal digits.
pub open spec fn is_digit(c: char) -> bool {
    '0' <= c <= '9'
}

/// The value of a decimal digit character.
pub open spec fn digit_value(c: char) -> int {
    c as int - '0' as int
}

/// Every clock text is two digits, a colon and two digits; the digits spell
/// the hour (below 24) and the minute (below 60) of the local time of day,
/// and that hour and minute are the ones the time of day falls in.
pub proof fn lemma_time_text_shape(t: int, offset_minutes: int)
    ensures
        ({
            let s = time_text(t, offset_minutes);
            let h = hour_of(t, offset_minutes);
            let m = minute_of(t, offset_minutes);
            &&& s.len() == 5
            &&& s[2] == ':'
            &&& is_digit(s[0]) && is_digit(s[1]) && is_digit(s[3]) && is_digit(s[4])
            &&& 0 <= h < 24
            &&& 0 <= m < 60
            &&& digit_value(s[0]) * 10 + digit_value(s[1]) == h
            &&& digit_value(s[3]) * 10 + digit_value(s[4]) == m
            &&& h * 3600 + m * 60 <= seconds_of_day(t, offset_minutes) < h * 3600 + m * 60 + 60
        }),
{
    let d = seconds_of_day(t, offset_minutes);
    let h = hour_of(t, offset_minutes);
    let m = minute_of(t, offset_minutes);
    assert(0 <= d < 86400);
    assert(0 <= h < 24);
    assert(0 <= m < 60);
    assert(h * 3600 + m * 60 <= d < h * 3600 + m * 60 + 60);
    lemma_two_digits(h);
    lemma_two_digits(m);
}

proof fn lemma_two_digits(n: int)
    requires
        0 <= n < 100,
    ensures
        is_digit(two_digits(n)[0]),
        is_digit(two_digits(n)[1]),
        digit_value(two_digits(n)[0]) * 10 + digit_value(two_digits(n)[1]) == n,
{
}

pub fn digit_str(d: u64) -> (r: &'static str)
    requires
        d < 10,
    ensures
        r@ == seq![digit_char(d as int)],
{
    proof {
        reveal_strlit("0");
        reveal_strlit("1");
        reveal_strlit("2");
        reveal_strlit("3");
        reveal_strlit("4");
        reveal_strlit("5");
        reveal_strlit("6");
        reveal_strlit("7");
        reveal_strlit("8");
        reveal_strlit("9");
    }
    if d == 0 { "0" }
    else if d == 1 { "1" }
    else if d == 2 { "2" }
    else if d == 3 { "3" }
    else if d == 4 { "4" }
    else if d == 5 { "5" }
    else if d == 6 { "6" }
    else if d == 7 { "7" }
    else if d == 8 { "8" }
    else { "9" }
}

/// The clock time of `time` (seconds since the Unix epoch) as `HH:MM`, in
/// the zone `utc_offset_minutes` ahead of UTC (negative west of Greenwich).
#[allow(non_snake_case)]
pub fn formatTime(time: i64, utc_offset_minutes: i32) -> (r: String)
    ensures
        r@ == time_text(time as int, utc_offset_minutes as int),
{
    let total: i128 = time as i128 + utc_offset_minutes as i128 * 60;
    // A multiple of a day larger than any magnitude `total` can reach.
    let shift: i128 = 86400 * 0x1_0000_0000_0000;
    let s: u128 = ((total + shift) as u128) % 86400;
    proof {
        lemma_mod_multiples_vanish(0x1_0000_0000_0000, total as int, 86400);
    }
    assert(s == seconds_of_day(time as int, utc_offset_minutes as int));
    let h: u64 = (s / 3600) as u64;
    let m: u64 = ((s % 3600) / 60) as u64;
    assert(h < 24 && m < 60);
    let mut r = String::from_str(digit_str(h / 10));
    r.append(digit_str(h % 10));
    r.append(":");
    r.append(digit_str(m / 10));
    r.append(digit_str(m % 10));
    proof {
        reveal_strlit(":");
    }
    assert(r@ =~= clock_text(h as int, m as int));
    r
}

} // verus!
