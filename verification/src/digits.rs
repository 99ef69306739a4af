//! Integers written out in decimal and hexadecimal, as they appear in folder
//! names and identifiers.

use vstd::prelude::*;

verus! {

/// The character for one digit below sixteen, letters in lower case.
pub open spec fn digit_char(d: int) -> char {
    seq!['0', '1', '2', '3', '4', '5', '6', '7', '8', '9', 'a', 'b', 'c', 'd', 'e', 'f'][d]
}

/// `n` in positional notation to the given base, most significant digit
/// first, without leading zeros (zero itself is the one digit `0`).
pub open spec fn digits_of(n: nat, base: nat) -> Seq<char>
    decreases n,
    when base >= 2
    via digits_of_decreases
{
    if n < base {
        seq![digit_char(n as int)]
    } else {
        digits_of(n / base, base).push(digit_char((n % base) as int))
    }
}

#[via_fn]
proof fn digits_of_decreases(n: nat, base: nat) {
    if n >= base {
        vstd::arithmetic::div_mod::lemma_div_decreases(n as int, base as int);
        vstd::arithmetic::div_mod::lemma_div_pos_is_pos(n as int, base as int);
    }
}

/// The digit that a character stands for: the inverse of `digit_char`.
pub open spec fn digit_value(c: char) -> int {
    if c == '0' {
        0
    } else if c == '1' {
        1
    } else if c == '2' {
        2
    } else if c == '3' {
        3
    } else if c == '4' {
        4
    } else if c == '5' {
        5
    } else if c == '6' {
        6
    } else if c == '7' {
        7
    } else if c == '8' {
        8
    } else if c == '9' {
        9
    } else if c == 'a' {
        10
    } else if c == 'b' {
        11
    } else if c == 'c' {
        12
    } else if c == 'd' {
        13
    } else if c == 'e' {
        14
    } else {
        15
    }
}

/// The number that a sequence of digits stands for in the given base.
pub open spec fn value_of(digits: Seq<char>, base: nat) -> int
    decreases digits.len(),
{
    if digits.len() == 0 {
        0
    } else {
        value_of(digits.drop_last(), base) * base + digit_value(digits.last())
    }
}

/// Reading the digits of a number gives the number back.
pub proof fn lemma_digits_read_back(n: nat, base: nat)
    requires
        2 <= base <= 16,
    ensures
        value_of(digits_of(n, base), base) == n,
    decreases n,
{
    if n < base {
        let one = seq![digit_char(n as int)];
        assert(one.drop_last() =~= Seq::<char>::empty());
        assert(value_of(one.drop_last(), base) == 0);
        assert(value_of(one, base) == 0 * base + digit_value(one.last()));
    } else {
        vstd::arithmetic::div_mod::lemma_div_decreases(n as int, base as int);
        vstd::arithmetic::div_mod::lemma_div_pos_is_pos(n as int, base as int);
        lemma_digits_read_back(n / base, base);
        let higher = digits_of(n / base, base);
        let all = higher.push(digit_char((n % base) as int));
        assert(all.drop_last() =~= higher);
        assert(digit_value(all.last()) == n % base);
        vstd::arithmetic::div_mod::lemma_fundamental_div_mod(n as int, base as int);
        assert((n / base) * base == base * (n / base)) by (nonlinear_arith);
    }
}

/// Sixteen to the power of `k`.
pub open spec fn sixteen_to(k: nat) -> nat
    decreases k,
{
    if k == 0 {
        1
    } else {
        16 * sixteen_to((k - 1) as nat)
    }
}

/// A number below sixteen to the power of `k` has at most `k` hexadecimal
/// digits.
pub proof fn lemma_hex_length(n: nat, k: nat)
    requires
        k >= 1,
        n < sixteen_to(k),
    ensures
        1 <= digits_of(n, 16).len() <= k,
    decreases n,
{
    if n >= 16 {
        assert(sixteen_to(1) == 16) by {
            reveal_with_fuel(sixteen_to, 2);
        }
        assert(k >= 2);
        lemma_hex_length(n / 16, (k - 1) as nat);
    }
}

/// A 64-bit number padded to sixteen hexadecimal digits has exactly sixteen.
pub proof fn lemma_padded_hex_length(n: u64)
    ensures
        zero_padded(digits_of(n as nat, 16), 16).len() == 16,
{
    assert(sixteen_to(16) == 0x1_0000_0000_0000_0000) by {
        reveal_with_fuel(sixteen_to, 17);
    }
    lemma_hex_length(n as nat, 16);
}

/// `digits` with zeros put in front until it is `width` long; longer
/// sequences are left as they are.
pub open spec fn zero_padded(digits: Seq<char>, width: nat) -> Seq<char> {
    if digits.len() >= width {
        digits
    } else {
        Seq::new((width - digits.len()) as nat, |i: int| '0') + digits
    }
}

/// The character for one digit below sixteen.
pub fn digit(d: u64) -> (c: char)
    requires
        d < 16,
    ensures
        c == digit_char(d as int),
{
    match d {
        0 => '0',
        1 => '1',
        2 => '2',
        3 => '3',
        4 => '4',
        5 => '5',
        6 => '6',
        7 => '7',
        8 => '8',
        9 => '9',
        10 => 'a',
        11 => 'b',
        12 => 'c',
        13 => 'd',
        14 => 'e',
        _ => 'f',
    }
}

/// Writes `n` out to the given base.
pub fn render(n: u64, base: u64) -> (r: Vec<char>)
    requires
        2 <= base <= 16,
    ensures
        r@ == digits_of(n as nat, base as nat),
{
    let mut rev: Vec<char> = Vec::new();
    let mut rest: u64 = n;
    while rest >= base
        invariant
            2 <= base <= 16,
            digits_of(n as nat, base as nat) == digits_of(rest as nat, base as nat)
                + rev@.reverse(),
        decreases rest,
    {
        let d: u64 = rest % base;
        let ghost before = rev@;
        rev.push(digit(d));
        proof {
            assert(rev@.reverse() =~= seq![digit_char(d as int)] + before.reverse());
            assert(digits_of(rest as nat, base as nat) + before.reverse() =~= digits_of(
                (rest / base) as nat,
                base as nat,
            ) + rev@.reverse());
        }
        rest = rest / base;
    }
    let ghost before = rev@;
    rev.push(digit(rest));
    assert(rev@.reverse() =~= digits_of(rest as nat, base as nat) + before.reverse());
    let mut out: Vec<char> = Vec::new();
    let mut i: usize = rev.len();
    while i > 0
        invariant
            i <= rev.len(),
            out@ == rev@.reverse().take(rev.len() - i),
        decreases i,
    {
        i = i - 1;
        out.push(rev[i]);
        assert(rev@.reverse().take(rev.len() - i) =~= rev@.reverse().take(rev.len() - i - 1).push(
            rev@[i as int],
        ));
    }
    assert(rev@.reverse().take(rev.len() as int) =~= rev@.reverse());
    out
}

} // verus!
