//! Canonical text of the scalar values that a table cell can hold.

use vstd::prelude::*;

verus! {

/// The byte `-`.
pub const MINUS: u8 = 45;

/// The ASCII code of the decimal digit `d`.
pub open spec fn digit_byte(d: int) -> u8
    recommends
        0 <= d < 10,
{
    (48 + d) as u8
}

/// The decimal digits of `n`, most significant first, without leading zeros.
/// Zero is the single digit `0`.
pub open spec fn nat_text(n: nat) -> Seq<u8>
    decreases n,
{
    if n < 10 {
        seq![digit_byte(n as int)]
    } else {
        nat_text(n / 10).push(digit_byte((n % 10) as int))
    }
}

/// The decimal text of an integer: a minus sign for a negative number, then
/// the digits of its magnitude.
pub open spec fn int_text(n: int) -> Seq<u8> {
    if n < 0 {
        seq![MINUS] + nat_text((-n) as nat)
    } else {
        nat_text(n as nat)
    }
}

/// The text of a boolean: the token `true` or `false`.
pub open spec fn bool_text(b: bool) -> Seq<u8> {
    if b {
        seq![116u8, 114u8, 117u8, 101u8]
    } else {
        seq![102u8, 97u8, 108u8, 115u8, 101u8]
    }
}

/// The decimal text of an integer has at least one digit.
pub proof fn lemma_int_text_nonempty(n: int)
    ensures
        int_text(n).len() >= 1,
{
    if n >= 10 {
        assert(nat_text(n as nat) == nat_text((n / 10) as nat).push(digit_byte(n % 10)));
    }
}

/// The magnitude of `n` as an unsigned number. The least `i64` has no
/// negation in `i64`, so the sum is formed one past it.
fn magnitude(n: i64) -> (m: u64)
    ensures
        m == if n < 0 { -(n as int) } else { n as int },
{
    if n < 0 {
        let below: i64 = -(n + 1);
        (below as u64) + 1
    } else {
        n as u64
    }
}

/// Renders an unsigned number in decimal.
pub fn render_nat(n: u64) -> (out: Vec<u8>)
    ensures
        out@ == nat_text(n as nat),
{
    let mut out: Vec<u8> = Vec::new();
    let mut rest: u64 = n;
    while rest >= 10
        invariant
            nat_text(n as nat) == nat_text(rest as nat) + out@,
        decreases rest,
    {
        let digit: u8 = (rest % 10) as u8;
        let ghost before = out@;
        out.insert(0, 48 + digit);
        proof {
            assert(nat_text(rest as nat) == nat_text((rest / 10) as nat).push(
                digit_byte((rest % 10) as int),
            ));
            assert(nat_text((rest / 10) as nat).push(digit_byte((rest % 10) as int)) + before
                =~= nat_text((rest / 10) as nat) + out@);
        }
        rest = rest / 10;
    }
    let ghost before = out@;
    out.insert(0, 48 + (rest as u8));
    proof {
        assert(nat_text(rest as nat) + before =~= out@);
    }
    out
}

/// Renders an integer in decimal.
pub fn render_int(n: i64) -> (out: Vec<u8>)
    ensures
        out@ == int_text(n as int),
{
    let mut out = render_nat(magnitude(n));
    if n < 0 {
        out.insert(0, MINUS);
        proof {
            assert(out@ =~= seq![MINUS] + nat_text((-(n as int)) as nat));
        }
    }
    out
}

/// Renders a boolean as the token `true` or `false`.
pub fn render_bool(b: bool) -> (out: Vec<u8>)
    ensures
        out@ == bool_text(b),
{
    let mut out: Vec<u8> = Vec::new();
    if b {
        out.push(116);
        out.push(114);
        out.push(117);
        out.push(101);
    } else {
        out.push(102);
        out.push(97);
        out.push(108);
        out.push(115);
        out.push(101);
    }
    proof {
        assert(out@ =~= bool_text(b));
    }
    out
}

} // verus!
