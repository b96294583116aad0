//! Positional rendering of unsigned integers, used for the decimal and
//! hexadecimal halves of correlation ids and for the numeric fields of
//! protocol messages.

use vstd::prelude::*;

verus! {

/// The character for one digit value, `0..=15`.
pub open spec fn digit_char(d: nat) -> char {
    if d == 0 {
        '0'
    } else if d == 1 {
        '1'
    } else if d == 2 {
        '2'
    } else if d == 3 {
        '3'
    } else if d == 4 {
        '4'
    } else if d == 5 {
        '5'
    } else if d == 6 {
        '6'
    } else if d == 7 {
        '7'
    } else if d == 8 {
        '8'
    } else if d == 9 {
        '9'
    } else if d == 10 {
        'a'
    } else if d == 11 {
        'b'
    } else if d == 12 {
        'c'
    } else if d == 13 {
        'd'
    } else if d == 14 {
        'e'
    } else if d == 15 {
        'f'
    } else {
        '?'
    }
}

/// `n` written in the given base, most significant digit first, with no
/// leading zeroes (a lone `0` for zero itself).
pub open spec fn radix_seq(n: nat, base: nat) -> Seq<char>
    decreases n,
    via radix_seq_decreases
{
    if base < 2 || n < base {
        seq![digit_char(n)]
    } else {
        radix_seq(n / base, base).push(digit_char(n % base))
    }
}

#[via_fn]
proof fn radix_seq_decreases(n: nat, base: nat) {
    if !(base < 2 || n < base) {
        vstd::arithmetic::div_mod::lemma_div_is_strictly_smaller(n as int, base as int);
    }
}

proof fn lemma_radix_step(n: nat, base: nat)
    requires
        2 <= base,
        base <= n,
    ensures
        n / base < n,
        n % base < base,
{
    vstd::arithmetic::div_mod::lemma_div_is_strictly_smaller(n as int, base as int);
}

/// A character that `radix_seq` can produce.
pub open spec fn is_digit_char(c: char) -> bool {
    exists|d: nat| d < 16 && c == digit_char(d)
}

pub proof fn lemma_radix_seq_is_digits(n: nat, base: nat)
    requires
        2 <= base <= 16,
    ensures
        radix_seq(n, base).len() >= 1,
        forall|i: int|
            0 <= i < radix_seq(n, base).len() ==> is_digit_char(#[trigger] radix_seq(n, base)[i]),
    decreases n,
{
    if n < base {
        assert(n < 16);
        assert(is_digit_char(radix_seq(n, base)[0]));
    } else {
        lemma_radix_step(n, base);
        lemma_radix_seq_is_digits(n / base, base);
        assert(is_digit_char(digit_char(n % base)));
    }
}

pub proof fn lemma_digit_char_injective(a: nat, b: nat)
    requires
        a < 16,
        b < 16,
        digit_char(a) == digit_char(b),
    ensures
        a == b,
{
}

/// Distinct numbers render as distinct digit strings in the same base.
pub proof fn lemma_radix_seq_injective(m1: nat, m2: nat, base: nat)
    requires
        2 <= base <= 16,
        radix_seq(m1, base) == radix_seq(m2, base),
    ensures
        m1 == m2,
    decreases m1,
{
    lemma_radix_seq_is_digits(m1, base);
    lemma_radix_seq_is_digits(m2, base);
    if m1 < base && m2 < base {
        assert(radix_seq(m1, base)[0] == digit_char(m1));
        assert(radix_seq(m2, base)[0] == digit_char(m2));
        lemma_digit_char_injective(m1, m2);
    } else if m1 < base {
        assert(radix_seq(m1, base).len() == 1);
        assert(radix_seq(m2, base).len() == radix_seq(m2 / base, base).len() + 1);
    } else if m2 < base {
        assert(radix_seq(m2, base).len() == 1);
        assert(radix_seq(m1, base).len() == radix_seq(m1 / base, base).len() + 1);
    } else {
        lemma_radix_step(m1, base);
        lemma_radix_step(m2, base);
        let s1 = radix_seq(m1 / base, base);
        let s2 = radix_seq(m2 / base, base);
        assert(s1.push(digit_char(m1 % base)).last() == digit_char(m1 % base));
        assert(s2.push(digit_char(m2 % base)).last() == digit_char(m2 % base));
        lemma_digit_char_injective(m1 % base, m2 % base);
        assert(s1.push(digit_char(m1 % base)).drop_last() =~= s1);
        assert(s2.push(digit_char(m2 % base)).drop_last() =~= s2);
        assert(s1 == s2);
        lemma_radix_seq_injective(m1 / base, m2 / base, base);
        assert(m1 == base * (m1 / base) + m1 % base) by {
            vstd::arithmetic::div_mod::lemma_fundamental_div_mod(m1 as int, base as int);
        }
        assert(m2 == base * (m2 / base) + m2 % base) by {
            vstd::arithmetic::div_mod::lemma_fundamental_div_mod(m2 as int, base as int);
        }
    }
}

/// The digit character for `d < 16`.
pub fn digit_to_char(d: u64) -> (c: char)
    requires
        d < 16,
    ensures
        c == digit_char(d as nat),
{
    if d == 0 {
        '0'
    } else if d == 1 {
        '1'
    } else if d == 2 {
        '2'
    } else if d == 3 {
        '3'
    } else if d == 4 {
        '4'
    } else if d == 5 {
        '5'
    } else if d == 6 {
        '6'
    } else if d == 7 {
        '7'
    } else if d == 8 {
        '8'
    } else if d == 9 {
        '9'
    } else if d == 10 {
        'a'
    } else if d == 11 {
        'b'
    } else if d == 12 {
        'c'
    } else if d == 13 {
        'd'
    } else if d == 14 {
        'e'
    } else {
        'f'
    }
}

/// Appends `n` in the given base to `out`.
pub fn push_radix(out: &mut Vec<char>, n: u64, base: u64)
    requires
        2 <= base <= 16,
    ensures
        final(out)@ == old(out)@ + radix_seq(n as nat, base as nat),
    decreases n,
{
    if n >= base {
        proof {
            lemma_radix_step(n as nat, base as nat);
        }
        push_radix(out, n / base, base);
    }
    let c = digit_to_char(n % base);
    out.push(c);
    proof {
        if n < base {
            vstd::arithmetic::div_mod::lemma_small_mod(n as nat, base as nat);
            assert(out@ =~= old(out)@ + radix_seq(n as nat, base as nat));
        } else {
            assert(out@ =~= old(out)@ + radix_seq(n as nat, base as nat));
        }
    }
}

} // verus!
