//! Text pieces shared by the venues' request and reply formats.

use vstd::prelude::*;
use vstd::string::StringExecFns;
use crate::text::push_char;

verus! {

/// Decimal digit character for a value below 10.
pub open spec fn digit_char(d: nat) -> char {
    (48 + d) as u8 as char
}

/// Decimal text of a natural number, without leading zeros.
pub open spec fn decimal_of(n: nat) -> Seq<char>
    decreases n,
{
    if n < 10 {
        seq![digit_char(n)]
    } else {
        decimal_of(n / 10).push(digit_char(n % 10))
    }
}

/// Decimal text of an integer, with a leading '-' when negative.
pub open spec fn signed_decimal_of(i: int) -> Seq<char> {
    if i < 0 {
        seq!['-'] + decimal_of((-i) as nat)
    } else {
        decimal_of(i as nat)
    }
}

/// A header or query list as pairs of character sequences.
pub open spec fn pairs_view(v: Seq<(String, String)>) -> Seq<(Seq<char>, Seq<char>)> {
    v.map_values(|p: (String, String)| (p.0@, p.1@))
}

/// Whether an HTTP status is in the 2xx success range.
pub open spec fn spec_status_ok(status: u16) -> bool {
    200 <= status && status < 300
}

/// Whether an HTTP status is in the 2xx success range.
pub fn status_ok(status: u16) -> (r: bool)
    ensures
        r == spec_status_ok(status),
{
    200 <= status && status < 300
}

/// Decimal text of `n`.
pub fn decimal_text(n: u64) -> (r: String)
    ensures
        r@ == decimal_of(n as nat),
    decreases n,
{
    if n < 10 {
        let mut s = String::new();
        push_char(&mut s, (48 + n) as u8 as char);
        s
    } else {
        let mut s = decimal_text(n / 10);
        push_char(&mut s, (48 + n % 10) as u8 as char);
        s
    }
}

/// Decimal text of `i`, with a leading '-' when negative.
pub fn signed_decimal_text(i: i64) -> (r: String)
    ensures
        r@ == signed_decimal_of(i as int),
{
    if i < 0 {
        let magnitude: u64 = if i == i64::MIN {
            9_223_372_036_854_775_808u64
        } else {
            (-i) as u64
        };
        proof {
            reveal_strlit("-");
        }
        assert("-"@ =~= seq!['-']);
        String::from_str("-").concat(decimal_text(magnitude).as_str())
    } else {
        decimal_text(i as u64)
    }
}

/// A pair of owned strings from two slices.
pub fn pair(key: &str, value: &str) -> (r: (String, String))
    ensures
        r.0@ == key@,
        r.1@ == value@,
{
    (String::from_str(key), String::from_str(value))
}

/// `a` followed by `b`.
pub fn join2(a: &str, b: &str) -> (r: String)
    ensures
        r@ == a@ + b@,
{
    String::from_str(a).concat(b)
}

/// `a`, `b`, `c` and `d` one after another.
pub fn join4(a: &str, b: &str, c: &str, d: &str) -> (r: String)
    ensures
        r@ == a@ + b@ + c@ + d@,
{
    String::from_str(a).concat(b).concat(c).concat(d)
}

/// The message of a non-2xx reply: "HTTP <status>: <body>".
pub open spec fn spec_http_error(status: u16, body: Seq<char>) -> Seq<char> {
    "HTTP "@ + decimal_of(status as nat) + ": "@ + body
}

/// The message of a non-2xx reply: "HTTP <status>: <body>".
pub fn http_error(status: u16, body: &str) -> (r: String)
    ensures
        r@ == spec_http_error(status, body@),
{
    join4("HTTP ", decimal_text(status as u64).as_str(), ": ", body)
}

} // verus!
