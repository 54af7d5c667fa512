//! Numbers as decimal text.
use vstd::prelude::*;
use crate::text::{chars_of};

verus! {

/// The character for a digit below ten.
pub open spec fn digit(d: int) -> char {
    ((48 + d) as u8) as char
}

/// `n` in decimal, without leading zeros.
pub open spec fn decimal(n: nat) -> Seq<char>
    decreases n,
{
    if n < 10 {
        seq![digit(n as int)]
    } else {
        decimal(n / 10).push(digit((n % 10) as int))
    }
}

/// `n` in decimal with at least two digits.
pub open spec fn two_digits(n: nat) -> Seq<char> {
    if n < 10 {
        seq!['0'] + decimal(n)
    } else {
        decimal(n)
    }
}

/// `n` in decimal, with a minus sign where it is below zero.
pub open spec fn signed_decimal(n: int) -> Seq<char> {
    if n < 0 {
        seq!['-'] + decimal((-n) as nat)
    } else {
        decimal(n as nat)
    }
}

/// A number given in tenths, written with one digit behind the point.
pub open spec fn tenths(t: nat) -> Seq<char> {
    decimal(t / 10) + seq!['.', digit((t % 10) as int)]
}

fn push_digit(out: &mut String, d: u64)
    requires
        d < 10,
    ensures
        final(out)@ == old(out)@.push(digit(d as int)),
{
    let c = (48u8 + (d as u8)) as char;
    out.push(c);
}

/// Appends `n` in decimal.
pub fn push_decimal(out: &mut String, n: u64)
    ensures
        final(out)@ == old(out)@ + decimal(n as nat),
    decreases n,
{
    if n >= 10 {
        push_decimal(out, n / 10);
    }
    push_digit(out, n % 10);
    proof {
        if n >= 10 {
            assert(final(out)@ =~= old(out)@ + decimal(n as nat));
        } else {
            assert(final(out)@ =~= old(out)@ + decimal(n as nat));
        }
    }
}

/// `n` in decimal.
pub fn to_decimal(n: u64) -> (r: String)
    ensures
        r@ == decimal(n as nat),
{
    let mut out = String::new();
    push_decimal(&mut out, n);
    assert(out@ =~= decimal(n as nat));
    out
}

/// Appends `n` in decimal with at least two digits.
pub fn push_two_digits(out: &mut String, n: u64)
    ensures
        final(out)@ == old(out)@ + two_digits(n as nat),
{
    if n < 10 {
        out.push('0');
    }
    push_decimal(out, n);
    assert(final(out)@ =~= old(out)@ + two_digits(n as nat));
}

/// Whether `c` is one of `0` to `9`.
pub open spec fn is_digit(c: char) -> bool {
    '0' <= c && c <= '9'
}

/// Whether `c` is one of `0` to `9`.
pub fn char_is_digit(c: char) -> (r: bool)
    ensures
        r == is_digit(c),
{
    '0' <= c && c <= '9'
}

/// Whether `s` is one or more digits.
pub open spec fn all_digits(s: Seq<char>) -> bool {
    s.len() > 0 && forall|i: int| 0 <= i < s.len() ==> is_digit(#[trigger] s[i])
}

/// The number that a run of digits stands for.
pub open spec fn value_of(s: Seq<char>) -> nat
    decreases s.len(),
{
    if s.len() == 0 {
        0
    } else {
        value_of(s.drop_last()) * 10 + (s.last() as u32 - 48) as nat
    }
}

/// `s` without one leading plus sign.
pub open spec fn unsigned_part(s: Seq<char>) -> Seq<char> {
    if s.len() > 0 && s[0] == '+' {
        s.subrange(1, s.len() as int)
    } else {
        s
    }
}

/// Whether `s` is an optional plus sign and then digits whose number fits in
/// 32 bits.
pub open spec fn is_u32_text(s: Seq<char>) -> bool {
    all_digits(unsigned_part(s)) && value_of(unsigned_part(s)) <= u32::MAX
}

proof fn lemma_value_grows(s: Seq<char>, n: int)
    requires
        0 <= n <= s.len(),
        forall|i: int| 0 <= i < s.len() ==> is_digit(#[trigger] s[i]),
    ensures
        value_of(s.take(n)) <= value_of(s),
    decreases s.len() - n,
{
    if n < s.len() {
        lemma_value_grows(s, n + 1);
        assert(s.take(n + 1).drop_last() =~= s.take(n));
        assert(s.take(n + 1).last() == s[n]);
    } else {
        assert(s.take(n) =~= s);
    }
}

/// The number that `s` stands for, where it is an optional plus sign and then
/// digits whose number fits in 32 bits.
pub fn read_u32(s: &str) -> (r: Option<u32>)
    ensures
        match r {
            Some(n) => is_u32_text(s@) && n == value_of(unsigned_part(s@)),
            None => !is_u32_text(s@),
        },
{
    let cs = chars_of(s);
    let n = cs.len();
    let from: usize = if n > 0 && cs[0] == '+' {
        1
    } else {
        0
    };
    let ghost body = unsigned_part(s@);
    assert(body =~= cs@.subrange(from as int, n as int));
    if from == n {
        return None;
    }
    let mut total: u64 = 0;
    let mut fits = true;
    let mut i: usize = from;
    while i < n
        invariant
            n == cs@.len(),
            from <= i <= n,
            body == cs@.subrange(from as int, n as int),
            fits ==> total <= u32::MAX && total == value_of(body.take(i - from)),
            !fits ==> value_of(body.take(i - from)) > u32::MAX,
            forall|j: int| 0 <= j < i - from ==> is_digit(#[trigger] body[j]),
            body == unsigned_part(s@),
        decreases n - i,
    {
        let c = cs[i];
        assert(body[i - from] == c);
        if !char_is_digit(c) {
            assert(!all_digits(body));
            return None;
        }
        assert(body.take(i - from + 1).drop_last() =~= body.take(i - from));
        assert(body.take(i - from + 1).last() == c);
        if fits {
            let d: u64 = (c as u32 - 48) as u64;
            total = total * 10 + d;
            if total > 0xffff_ffff {
                fits = false;
            }
        }
        i += 1;
    }
    assert(body.take(n - from) =~= body);
    if fits {
        Some(total as u32)
    } else {
        None
    }
}

/// Appends `n` in decimal, with a minus sign where it is below zero.
pub fn push_signed(out: &mut String, n: i64)
    ensures
        final(out)@ == old(out)@ + signed_decimal(n as int),
{
    if n < 0 {
        out.push('-');
        push_decimal(out, (-(n as i128)) as u64);
    } else {
        push_decimal(out, n as u64);
    }
    assert(final(out)@ =~= old(out)@ + signed_decimal(n as int));
}

// ---------------------------------------------------------------------------
// Rounding
// ---------------------------------------------------------------------------

/// `a` over `b`, rounded to the nearest whole number, and to the even one of
/// two that are as near.
pub open spec fn round_half_even(a: int, b: int) -> int {
    let (q, r) = (a / b, a % b);
    if 2 * r > b || (2 * r == b && q % 2 == 1) {
        q + 1
    } else {
        q
    }
}

/// `a` over `b`, rounded to the nearest whole number, and up where it lies in
/// the middle of two.
pub open spec fn round_half_up(a: int, b: int) -> int {
    (2 * a + b) / (2 * b)
}

/// The numbers below this have at most 53 binary digits.
pub const DOUBLE_LIMIT: u64 = 0x20_0000_0000_0000;

/// The numbers below this have at most 24 binary digits.
pub const SINGLE_LIMIT: u64 = 0x100_0000;

/// The distance between numbers of the size of `n` that have no more binary
/// digits than those below `limit`.
pub open spec fn spacing(n: nat, limit: nat) -> nat
    decreases n,
{
    if n < limit || limit == 0 {
        1
    } else {
        2 * spacing(n / 2, limit)
    }
}

/// `n` rounded to as many binary digits as the numbers below `limit` have.
pub open spec fn to_digits(n: nat, limit: nat) -> int {
    round_half_even(n as int, spacing(n, limit) as int) * spacing(n, limit)
}

/// Numbers that have few enough binary digits are not rounded.
pub proof fn small_numbers_are_exact(n: nat, limit: nat)
    requires
        n < limit,
    ensures
        to_digits(n, limit) == n,
{
    assert(spacing(n, limit) == 1);
    assert(n as int / 1 == n && n as int % 1 == 0);
    assert(round_half_even(n as int, 1) == n);
}

/// Whether `a` over `b`, with 24 binary digits throughout, is more than seven
/// tenths: whether it lies at or above the middle between the number next to
/// seven tenths, 11744051 over 2^24, and the one after it.
pub open spec fn over_seven_tenths(a: nat, b: nat) -> bool {
    0x200_0000 * to_digits(a, SINGLE_LIMIT as nat) >= 23_488_103 * to_digits(
        b,
        SINGLE_LIMIT as nat,
    )
}

/// Up to five million, that is to be more than seven tenths.
pub proof fn small_ratios_are_exact(a: nat, b: nat)
    requires
        a <= b <= 5_000_000,
        b > 0,
    ensures
        over_seven_tenths(a, b) == (10 * a > 7 * b),
{
    small_numbers_are_exact(a, SINGLE_LIMIT as nat);
    small_numbers_are_exact(b, SINGLE_LIMIT as nat);
}

/// The quotient of `n`, rounded to 53 binary digits, by `unit`, in tenths.
pub open spec fn tenths_of(n: nat, unit: nat) -> nat {
    round_half_even(10 * to_digits(n, DOUBLE_LIMIT as nat), unit as int) as nat
}

fn rounded(a: u128, b: u128) -> (r: u128)
    requires
        0 < b <= 0x1_0000_0000_0000_0000,
        a <= 0x10_0000_0000_0000_0000_0000,
    ensures
        r == round_half_even(a as int, b as int),
        r * b <= a + b,
{
    let q: u128 = a / b;
    let rest: u128 = a % b;
    assert(0 <= q <= a) by (nonlinear_arith)
        requires
            q == a / b,
            b > 0,
    ;
    assert(0 <= rest < b && a == q * b + rest) by (nonlinear_arith)
        requires
            rest == a % b,
            q == a / b,
            b > 0,
    ;
    assert((q + 1) * b == q * b + b) by (nonlinear_arith);
    if 2 * rest > b || (2 * rest == b && q % 2 == 1) {
        q + 1
    } else {
        q
    }
}

proof fn lemma_spacing(n: nat, limit: nat)
    requires
        limit > 1,
    ensures
        spacing(n, limit) == 1 || spacing(n, limit) * limit <= 2 * n,
        spacing(n, limit) >= 1,
    decreases n,
{
    if n >= limit {
        lemma_spacing(n / 2, limit);
        let half = spacing(n / 2, limit);
        if half == 1 {
            assert(2 * limit <= 2 * n);
        } else {
            assert(half * limit <= 2 * (n / 2));
            assert((2 * half) * limit == 2 * (half * limit)) by (nonlinear_arith);
        }
    }
}

fn find_spacing(n: u64, limit: u64) -> (r: u128)
    requires
        limit >= SINGLE_LIMIT,
    ensures
        r == spacing(n as nat, limit as nat),
        1 <= r,
        r == 1 || r * limit <= 2 * n,
    decreases n,
{
    proof {
        lemma_spacing(n as nat, limit as nat);
    }
    if n < limit {
        1
    } else {
        let half: u128 = find_spacing(n / 2, limit);
        assert(half < 0x1_0000_0000_0000_0000) by (nonlinear_arith)
            requires
                half == 1 || half * limit <= 2 * (n / 2),
                limit >= 2,
                n < 0x1_0000_0000_0000_0000,
        ;
        2 * half
    }
}

fn near(n: u64, limit: u64) -> (r: u128)
    requires
        limit >= SINGLE_LIMIT,
    ensures
        r == to_digits(n as nat, limit as nat),
        r <= 0x2_0000_0000_0000_0000,
{
    let step: u128 = find_spacing(n, limit);
    assert(step <= 0x1_0000_0000_0000_0000) by (nonlinear_arith)
        requires
            step == 1 || step * limit <= 2 * n,
            limit >= 2,
            n < 0x1_0000_0000_0000_0000,
    ;
    let whole: u128 = rounded(n as u128, step);
    assert(whole * step <= n + step);
    whole * step
}

/// Whether `a` over `b`, in single precision, is more than seven tenths.
pub fn is_over_seven_tenths(a: u64, b: u64) -> (r: bool)
    ensures
        r == over_seven_tenths(a as nat, b as nat),
{
    0x200_0000 * near(a, SINGLE_LIMIT) >= 23_488_103 * near(b, SINGLE_LIMIT)
}

/// The quotient of `n` by `unit` in tenths: see `tenths_of`.
pub fn to_tenths(n: u64, unit: u64) -> (r: u128)
    requires
        unit > 0,
    ensures
        r == tenths_of(n as nat, unit as nat),
        unit >= 1024 ==> r < 0x1_0000_0000_0000_0000,
{
    let whole: u128 = near(n, DOUBLE_LIMIT);
    let r: u128 = rounded(10 * whole, unit as u128);
    assert(unit >= 1024 ==> r < 0x1_0000_0000_0000_0000) by (nonlinear_arith)
        requires
            r * unit <= 10 * whole + unit,
            whole <= 0x2_0000_0000_0000_0000,
            unit < 0x1_0000_0000_0000_0000,
    ;
    r
}

/// A number of tenths as text with one decimal place.
pub fn push_tenths(out: &mut String, n: u128)
    requires
        n < 0x1_0000_0000_0000_0000,
    ensures
        final(out)@ == old(out)@ + tenths(n as nat),
{
    push_decimal(out, (n / 10) as u64);
    out.push('.');
    push_digit(out, (n % 10) as u64);
    assert(final(out)@ =~= old(out)@ + tenths(n as nat));
}

} // verus!
