//! Rendering of the wait message shown for a denied command: the
//! remaining wait, split into whole minutes and seconds.

use vstd::prelude::*;

verus! {

/// The decimal digit character for `d`.
pub open spec fn digit_char(d: int) -> char {
    if d == 0 {
        '0'
    } else if d == 1 {
        '1'
    } else if d == 2 {
        '2'
    } else if d == 3 {
        '3'
    } else if d == 4 {
        '4'
    } else if d == 5 {
        '5'
    } else if d == 6 {
        '6'
    } else if d == 7 {
        '7'
    } else if d == 8 {
        '8'
    } else {
        '9'
    }
}

/// The decimal digits of `n`, most significant first, with no sign
/// and no leading zero except for `n == 0` itself.
pub open spec fn dec_digits_spec(n: int) -> Seq<char>
    decreases n,
{
    if n < 10 {
        seq![digit_char(n)]
    } else {
        dec_digits_spec(n / 10) + seq![digit_char(n % 10)]
    }
}

/// The rendered remaining wait: minutes, `m`, a space, seconds, `s`,
/// as in `6m 40s`.
pub open spec fn remaining_text_spec(remaining_secs: u64) -> Seq<char> {
    dec_digits_spec(remaining_secs as int / 60) + "m "@ + dec_digits_spec(
        remaining_secs as int % 60,
    ) + "s"@
}

/// The full reply sent to a denied caller.
pub open spec fn wait_reply_spec(remaining_secs: u64) -> Seq<char> {
    "Please wait "@ + remaining_text_spec(remaining_secs)
}

/// The one-character string for a single decimal digit.
fn digit_str(d: u64) -> (r: &'static str)
    requires
        d < 10,
    ensures
        r@ == seq![digit_char(d as int)],
{
    proof {
        reveal_strlit("0");
        reveal_strlit("1");
        reveal_strlit("2");
        reveal_strlit("3");
        reveal_strlit("4");
        reveal_strlit("5");
        reveal_strlit("6");
        reveal_strlit("7");
        reveal_strlit("8");
        reveal_strlit("9");
    }
    let r: &'static str = if d == 0 {
        "0"
    } else if d == 1 {
        "1"
    } else if d == 2 {
        "2"
    } else if d == 3 {
        "3"
    } else if d == 4 {
        "4"
    } else if d == 5 {
        "5"
    } else if d == 6 {
        "6"
    } else if d == 7 {
        "7"
    } else if d == 8 {
        "8"
    } else {
        "9"
    };
    proof {
        assert(r@ =~= seq![digit_char(d as int)]);
    }
    r
}

/// `n` written out in decimal.
pub fn u64_to_dec(n: u64) -> (r: String)
    ensures
        r@ == dec_digits_spec(n as int),
    decreases n,
{
    if n < 10 {
        String::from_str(digit_str(n))
    } else {
        let mut r = u64_to_dec(n / 10);
        r.append(digit_str(n % 10));
        r
    }
}

/// Render a remaining wait of `remaining_secs` seconds as whole
/// minutes and leftover seconds, as in `6m 40s`.
pub fn format_remaining(remaining_secs: u64) -> (r: String)
    ensures
        r@ == remaining_text_spec(remaining_secs),
{
    let mut r = u64_to_dec(remaining_secs / 60);
    r.append("m ");
    let seconds = u64_to_dec(remaining_secs % 60);
    r.append(seconds.as_str());
    r.append("s");
    r
}

/// The reply sent to a caller whose command was denied.
pub fn wait_reply(remaining_secs: u64) -> (r: String)
    ensures
        r@ == wait_reply_spec(remaining_secs),
{
    let mut r = String::from_str("Please wait ");
    let rest = format_remaining(remaining_secs);
    r.append(rest.as_str());
    r
}

} // verus!
