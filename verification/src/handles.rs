//! Stream handles: opaque identifiers for one in-flight asynchronous
//! operation, derived from a clock reading.  A handle only correlates
//! events; it carries no state and is discarded after the terminal event.

use vstd::prelude::*;

verus! {

pub open spec fn spec_digit_char(d: nat) -> char {
    if d == 0 {
        '0'
    } else if d == 1 {
        '1'
    } else if d == 2 {
        '2'
    } else if d == 3 {
        '3'
    } else if d == 4 {
        '4'
    } else if d == 5 {
        '5'
    } else if d == 6 {
        '6'
    } else if d == 7 {
        '7'
    } else if d == 8 {
        '8'
    } else {
        '9'
    }
}

/// The usual decimal rendering, no leading zeros except for zero itself.
pub open spec fn spec_decimal(n: nat) -> Seq<char>
    decreases n,
{
    if n < 10 {
        seq![spec_digit_char(n)]
    } else {
        spec_decimal(n / 10) + seq![spec_digit_char(n % 10)]
    }
}

fn digit_str(d: u64) -> (r: &'static str)
    requires
        d < 10,
    ensures
        r@ =~= seq![spec_digit_char(d as nat)],
{
    if d == 0 {
        let s = "0";
        proof { reveal_strlit("0"); }
        s
    } else if d == 1 {
        let s = "1";
        proof { reveal_strlit("1"); }
        s
    } else if d == 2 {
        let s = "2";
        proof { reveal_strlit("2"); }
        s
    } else if d == 3 {
        let s = "3";
        proof { reveal_strlit("3"); }
        s
    } else if d == 4 {
        let s = "4";
        proof { reveal_strlit("4"); }
        s
    } else if d == 5 {
        let s = "5";
        proof { reveal_strlit("5"); }
        s
    } else if d == 6 {
        let s = "6";
        proof { reveal_strlit("6"); }
        s
    } else if d == 7 {
        let s = "7";
        proof { reveal_strlit("7"); }
        s
    } else if d == 8 {
        let s = "8";
        proof { reveal_strlit("8"); }
        s
    } else {
        let s = "9";
        proof { reveal_strlit("9"); }
        s
    }
}

pub fn u64_decimal(n: u64) -> (r: String)
    ensures
        r@ == spec_decimal(n as nat),
    decreases n,
{
    if n < 10 {
        String::from_str(digit_str(n))
    } else {
        u64_decimal(n / 10).concat(digit_str(n % 10))
    }
}

/// Relies on `std::time::SystemTime::now`: the wall clock in milliseconds
/// since the Unix epoch, or zero should the clock read before the epoch.
/// Nothing is promised of the value: a caller treats it as arbitrary.
#[verifier::external_body]
fn now_unix_millis() -> u64 {
    std::time::SystemTime::now()
        .duration_since(std::time::UNIX_EPOCH)
        .map(|d| d.as_millis() as u64)
        .unwrap_or(0)
}

/// The identifier of one chat stream, from a clock reading.
pub fn chat_stream_handle(millis: u64) -> (r: String)
    ensures
        r@ == "stream-"@ + spec_decimal(millis as nat),
{
    let mut s: String = String::from_str("stream-");
    let digits = u64_decimal(millis);
    s.append(digits.as_str());
    s
}

/// The identifier of one model-pull stream, from a clock reading.
pub fn pull_stream_handle(millis: u64) -> (r: String)
    ensures
        r@ == "pull-"@ + spec_decimal(millis as nat),
{
    let mut s: String = String::from_str("pull-");
    let digits = u64_decimal(millis);
    s.append(digits.as_str());
    s
}

/// A fresh chat handle: `stream-` followed by the decimal clock reading.
pub fn fresh_chat_handle() -> (r: String)
    ensures
        exists|m: u64| r@ == "stream-"@ + spec_decimal(m as nat),
{
    let m = now_unix_millis();
    let h = chat_stream_handle(m);
    proof {
        assert(h@ == "stream-"@ + spec_decimal(m as nat));
    }
    h
}

/// A fresh pull handle: `pull-` followed by the decimal clock reading.
pub fn fresh_pull_handle() -> (r: String)
    ensures
        exists|m: u64| r@ == "pull-"@ + spec_decimal(m as nat),
{
    let m = now_unix_millis();
    let h = pull_stream_handle(m);
    proof {
        assert(h@ == "pull-"@ + spec_decimal(m as nat));
    }
    h
}

} // verus!
