//! Utility functions: clock and randomness wrappers, and a verified
//! decimal formatter.

use vstd::prelude::*;
use vstd::string::StringExecFns;

use crate::grammar::digits_val;

use rand::RngExt;
use std::time::Duration;
use std::time::SystemTime;
use std::time::UNIX_EPOCH;

verus! {

/// Relies on `std::time::SystemTime::now`: the current time in
/// milliseconds since the Unix epoch, or zero if the clock reads earlier
/// than the epoch.  Nothing is promised of the clock's value.
#[verifier::external_body]
pub fn timestamp_ms() -> u64 {
    SystemTime::now().duration_since(UNIX_EPOCH).unwrap_or(Duration::from_secs(0)).as_millis()
        as u64
}

/// Relies on `rand::RngExt::random_range` over an inclusive range: the
/// sampled delay lies within the bounds.  The call panics on an empty
/// range, which the precondition rules out.  The result is a delay in
/// milliseconds.
#[verifier::external_body]
pub fn random_delay(min_ms: u64, max_ms: u64) -> (r: u64)
    requires
        min_ms <= max_ms,
    ensures
        min_ms <= r <= max_ms,
{
    let mut rng = rand::rng();
    rng.random_range(min_ms..=max_ms)
}

/// The character for one decimal digit.
pub open spec fn digit_char_of(d: int) -> char {
    if d == 0 {
        '0'
    } else if d == 1 {
        '1'
    } else if d == 2 {
        '2'
    } else if d == 3 {
        '3'
    } else if d == 4 {
        '4'
    } else if d == 5 {
        '5'
    } else if d == 6 {
        '6'
    } else if d == 7 {
        '7'
    } else if d == 8 {
        '8'
    } else {
        '9'
    }
}

/// The decimal representation of a non-negative number, most significant
/// digit first, without leading zeros.
pub open spec fn dec_rep(n: int) -> Seq<char>
    decreases n,
{
    if n < 10 {
        seq![digit_char_of(n)]
    } else {
        dec_rep(n / 10) + seq![digit_char_of(n % 10)]
    }
}

/// The decimal representation reads back as the number it was made
/// from: evaluating the emitted digit run with the grammar's own digit
/// valuation gives the original value.
pub proof fn lemma_dec_rep_val(n: int)
    requires
        n >= 0,
    ensures
        digits_val(dec_rep(n)) == n,
    decreases n,
{
    assert(0 <= n % 10 < 10);
    assert(digit_char_of(n % 10) as int == 48 + n % 10);
    if n < 10 {
        assert(n % 10 == n);
        assert(dec_rep(n).drop_last() =~= Seq::<char>::empty());
        assert(dec_rep(n).last() == digit_char_of(n));
    } else {
        lemma_dec_rep_val(n / 10);
        assert(dec_rep(n).drop_last() =~= dec_rep(n / 10));
        assert(dec_rep(n).last() == digit_char_of(n % 10));
        assert(n == (n / 10) * 10 + n % 10);
    }
    assert(dec_rep(n).len() > 0);
    assert(digits_val(dec_rep(n)) == digits_val(dec_rep(n).drop_last()) * 10 + (dec_rep(
        n,
    ).last() as int - 48));
}

/// The text of one decimal digit.
fn digit_str(d: usize) -> (r: String)
    requires
        d < 10,
    ensures
        r@ == seq![digit_char_of(d as int)],
{
    let c = match d {
        0 => "0",
        1 => "1",
        2 => "2",
        3 => "3",
        4 => "4",
        5 => "5",
        6 => "6",
        7 => "7",
        8 => "8",
        _ => "9",
    };
    let r = c.to_owned();
    proof {
        reveal_strlit("0");
        reveal_strlit("1");
        reveal_strlit("2");
        reveal_strlit("3");
        reveal_strlit("4");
        reveal_strlit("5");
        reveal_strlit("6");
        reveal_strlit("7");
        reveal_strlit("8");
        reveal_strlit("9");
        assert(r@ =~= seq![digit_char_of(d as int)]);
    }
    r
}

/// Format a number in decimal.
pub fn decimal_string(n: usize) -> (r: String)
    ensures
        r@ == dec_rep(n as int),
    decreases n,
{
    let d = digit_str(n % 10);
    if n < 10 {
        d
    } else {
        let hi = decimal_string(n / 10);
        hi.concat(d.as_str())
    }
}

} // verus!
