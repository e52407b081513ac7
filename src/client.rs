use vstd::prelude::*;

verus! {

/// Address of the current-weather endpoint, up to the location.
pub const WEATHER_ENDPOINT: &'static str = "https://api.openweathermap.org/data/2.5/weather?q=";

/// Address of the forecast endpoint, up to the location.
pub const FORECAST_ENDPOINT: &'static str = "https://api.openweathermap.org/data/2.5/forecast?q=";

/// The fixed query after the location: metric units, at most eight
/// forecast points, and the application's key.
pub const QUERY_TAIL: &'static str = "&units=metric&cnt=8&appid=7484f462f852c04cbab6a6a5ad8c9d37";

/// Characters that stand for themselves in a query value.
pub open spec fn is_unreserved(c: char) -> bool {
    ('A' <= c <= 'Z') || ('a' <= c <= 'z') || ('0' <= c <= '9') || c == '-' || c == '.' || c == '_'
        || c == '~'
}

/// An upper-case hexadecimal digit.
pub open spec fn hex_digit(n: int) -> char {
    if n < 10 {
        ((n + '0' as int) as u8) as char
    } else {
        ((n - 10 + 'A' as int) as u8) as char
    }
}

/// How one character of a location stands in the query: unreserved and
/// non-ASCII characters as they are (a URL parser encodes the latter as
/// UTF-8), any other ASCII character as `%` and two hexadecimal digits.
pub open spec fn encode_char(c: char) -> Seq<char> {
    if is_unreserved(c) || c as int >= 128 {
        seq![c]
    } else {
        seq!['%', hex_digit(c as int / 16), hex_digit(c as int % 16)]
    }
}

/// A location encoded as a query value.
pub open spec fn encode_query(s: Seq<char>) -> Seq<char>
    decreases s.len(),
{
    if s.len() == 0 {
        Seq::empty()
    } else {
        encode_query(s.drop_last()) + encode_char(s.last())
    }
}

/// The address that asks `endpoint` about `location`.
pub open spec fn request_url(endpoint: Seq<char>, location: Seq<char>) -> Seq<char> {
    endpoint + encode_query(location) + QUERY_TAIL@
}

fn hex_str(n: u32) -> (r: &'static str)
    requires
        n < 16,
    ensures
        r@ == seq![hex_digit(n as int)],
{
    proof {
        reveal_strlit("0");
        reveal_strlit("1");
        reveal_strlit("2");
        reveal_strlit("3");
        reveal_strlit("4");
        reveal_strlit("5");
        reveal_strlit("6");
        reveal_strlit("7");
        reveal_strlit("8");
        reveal_strlit("9");
        reveal_strlit("A");
        reveal_strlit("B");
        reveal_strlit("C");
        reveal_strlit("D");
        reveal_strlit("E");
        reveal_strlit("F");
    }
    if n == 0 { "0" }
    else if n == 1 { "1" }
    else if n == 2 { "2" }
    else if n == 3 { "3" }
    else if n == 4 { "4" }
    else if n == 5 { "5" }
    else if n == 6 { "6" }
    else if n == 7 { "7" }
    else if n == 8 { "8" }
    else if n == 9 { "9" }
    else if n == 10 { "A" }
    else if n == 11 { "B" }
    else if n == 12 { "C" }
    else if n == 13 { "D" }
    else if n == 14 { "E" }
    else { "F" }
}

/// Encodes a location as a query value: reserved ASCII characters become
/// `%XX`, all others stay.
pub fn encode_location(location: &str) -> (r: String)
    ensures
        r@ == encode_query(location@),
{
    let n = location.unicode_len();
    let mut r = String::new();
    for i in 0..n
        invariant
            n == location@.len(),
            r@ == encode_query(location@.subrange(0, i as int)),
    {
        let c = location.get_char(i);
        let code: u32 = c as u32;
        if ('A' <= c && c <= 'Z') || ('a' <= c && c <= 'z') || ('0' <= c && c <= '9') || c == '-'
            || c == '.' || c == '_' || c == '~' || code >= 128 {
            r.append(location.substring_char(i, i + 1));
        } else {
            r.append("%");
            r.append(hex_str(code / 16));
            r.append(hex_str(code % 16));
            proof {
                reveal_strlit("%");
            }
        }
        assert(location@.subrange(0, i + 1).drop_last() =~= location@.subrange(0, i as int));
        assert(r@ =~= encode_query(location@.subrange(0, i + 1)));
    }
    assert(location@.subrange(0, n as int) =~= location@);
    r
}

/// The current-weather request for `location`.
pub fn weather_url(location: &str) -> (r: String)
    ensures
        r@ == request_url(WEATHER_ENDPOINT@, location@),
{
    let mut r = String::from_str(WEATHER_ENDPOINT);
    let q = encode_location(location);
    r.append(q.as_str());
    r.append(QUERY_TAIL);
    r
}

/// The forecast request for `location`.
pub fn forecast_url(location: &str) -> (r: String)
    ensures
        r@ == request_url(FORECAST_ENDPOINT@, location@),
{
    let mut r = String::from_str(FORECAST_ENDPOINT);
    let q = encode_location(location);
    r.append(q.as_str());
    r.append(QUERY_TAIL);
    r
}

} // verus!
