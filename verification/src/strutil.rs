//! Decimal rendering of the integers that appear in query strings and
//! resolved URLs, specified character by character.

use vstd::prelude::*;
use vstd::string::StringExecFns;

verus! {

/// The character for one decimal digit value.
pub open spec fn spec_dec_digit(d: int) -> char
    recommends
        0 <= d < 10,
{
    if d == 0 {
        '0'
    } else if d == 1 {
        '1'
    } else if d == 2 {
        '2'
    } else if d == 3 {
        '3'
    } else if d == 4 {
        '4'
    } else if d == 5 {
        '5'
    } else if d == 6 {
        '6'
    } else if d == 7 {
        '7'
    } else if d == 8 {
        '8'
    } else {
        '9'
    }
}

/// The usual base-ten rendering of a non-negative integer, with no
/// leading zeros (a single `'0'` for zero itself).
pub open spec fn spec_dec_nat(n: nat) -> Seq<char>
    decreases n,
{
    if n < 10 {
        seq![spec_dec_digit(n as int)]
    } else {
        spec_dec_nat(n / 10) + seq![spec_dec_digit((n % 10) as int)]
    }
}

/// The base-ten rendering of a signed integer: a minus sign ahead of the
/// digits when the value is negative.
pub open spec fn spec_dec_int(n: int) -> Seq<char> {
    if n >= 0 {
        spec_dec_nat(n as nat)
    } else {
        seq!['-'] + spec_dec_nat((-n) as nat)
    }
}

/// `key=value` pairs joined by `&`, in the given order.
pub open spec fn spec_join_amp(ps: Seq<Seq<char>>) -> Seq<char>
    decreases ps.len(),
{
    if ps.len() == 0 {
        Seq::empty()
    } else if ps.len() == 1 {
        ps[0]
    } else {
        spec_join_amp(ps.drop_last()) + "&"@ + ps.last()
    }
}

/// Joining one more pair appends it behind a separator, unless it is the
/// first.
pub proof fn lemma_join_amp_push(ps: Seq<Seq<char>>, q: Seq<char>)
    ensures
        ps.len() == 0 ==> spec_join_amp(ps.push(q)) == q,
        ps.len() > 0 ==> spec_join_amp(ps.push(q)) == spec_join_amp(ps) + "&"@ + q,
{
    let whole = ps.push(q);
    assert(whole.drop_last() =~= ps);
    assert(whole.last() == q);
    if ps.len() == 0 {
        assert(spec_join_amp(whole) == whole[0]);
    }
}

/// The one-character string for one decimal digit value.
fn dec_digit_str(d: u64) -> (r: &'static str)
    requires
        d < 10,
    ensures
        r@ =~= seq![spec_dec_digit(d as int)],
{
    proof {
        reveal_strlit("0");
        reveal_strlit("1");
        reveal_strlit("2");
        reveal_strlit("3");
        reveal_strlit("4");
        reveal_strlit("5");
        reveal_strlit("6");
        reveal_strlit("7");
        reveal_strlit("8");
        reveal_strlit("9");
    }
    if d == 0 {
        "0"
    } else if d == 1 {
        "1"
    } else if d == 2 {
        "2"
    } else if d == 3 {
        "3"
    } else if d == 4 {
        "4"
    } else if d == 5 {
        "5"
    } else if d == 6 {
        "6"
    } else if d == 7 {
        "7"
    } else if d == 8 {
        "8"
    } else {
        "9"
    }
}

/// Renders a non-negative integer in base ten.
pub fn u64_to_dec(n: u64) -> (s: String)
    ensures
        s@ == spec_dec_nat(n as nat),
    decreases n,
{
    if n < 10 {
        dec_digit_str(n).to_owned()
    } else {
        let mut s = u64_to_dec(n / 10);
        s.append(dec_digit_str(n % 10));
        s
    }
}

/// Renders a signed integer in base ten.
pub fn i64_to_dec(n: i64) -> (s: String)
    ensures
        s@ == spec_dec_int(n as int),
{
    if n >= 0 {
        u64_to_dec(n as u64)
    } else {
        let wide: i128 = n as i128;
        let mag: u64 = (-wide) as u64;
        let mut s = "-".to_owned();
        proof {
            reveal_strlit("-");
            assert("-"@ =~= seq!['-']);
        }
        let digits = u64_to_dec(mag);
        s.append(digits.as_str());
        s
    }
}

/// Renders a 32-bit flag value in base ten.
pub fn u32_to_dec(n: u32) -> (s: String)
    ensures
        s@ == spec_dec_nat(n as nat),
{
    u64_to_dec(n as u64)
}

/// Renders a 32-bit signed integer in base ten.
pub fn i32_to_dec(n: i32) -> (s: String)
    ensures
        s@ == spec_dec_int(n as int),
{
    i64_to_dec(n as i64)
}

} // verus!
