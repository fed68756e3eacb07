//! Verified text building: decimal and hexadecimal digits into a character
//! buffer, and the buffer into a `String`.
use vstd::prelude::*;

verus! {

/// Calls `<String as FromIterator<char>>::from_iter` through `collect`,
/// which concatenates the characters in order.
#[verifier::external_body]
pub(crate) fn chars_to_string(chars: Vec<char>) -> (s: String)
    ensures
        s@ == chars@,
{
    chars.into_iter().collect()
}

/// The decimal digit character for `d` in `0..=9`.
pub open spec fn decimal_char(d: int) -> char {
    (48 + d) as char
}

/// The decimal digits of `v`, most significant first, without leading zeros.
pub open spec fn decimal_digits(v: nat) -> Seq<char>
    decreases v,
{
    if v < 10 {
        seq![decimal_char(v as int)]
    } else {
        decimal_digits(v / 10).push(decimal_char((v % 10) as int))
    }
}

/// `width - n` zero characters (none when `n >= width`).
pub open spec fn zeros(n: int, width: int) -> Seq<char> {
    Seq::new(if n < width { (width - n) as nat } else { 0 }, |i: int| '0')
}

/// The decimal digits of `v`, left-padded with zeros to at least `width`
/// characters.
pub open spec fn padded_decimal(v: nat, width: nat) -> Seq<char> {
    zeros(decimal_digits(v).len() as int, width as int) + decimal_digits(v)
}

/// The lower-case hexadecimal digit for `d` in `0..=15`.
pub open spec fn hex_char(d: int) -> char {
    if d < 10 {
        (48 + d) as char
    } else {
        (87 + d) as char
    }
}

/// The low `n` hexadecimal digits of `v`, most significant first.
pub open spec fn hex_digits(v: nat, n: nat) -> Seq<char>
    decreases n,
{
    if n == 0 {
        Seq::empty()
    } else {
        hex_digits(v / 16, (n - 1) as nat).push(hex_char((v % 16) as int))
    }
}

/// Ten to the power `k`.
pub open spec fn pow10(k: nat) -> nat
    decreases k,
{
    if k == 0 {
        1
    } else {
        10 * pow10((k - 1) as nat)
    }
}

/// A number below `10^k` has at most `k` decimal digits.
proof fn lemma_decimal_digits_bound(v: nat, k: nat)
    requires
        k >= 1,
        v < pow10(k),
    ensures
        decimal_digits(v).len() <= k,
    decreases v,
{
    if v >= 10 {
        let p = pow10((k - 1) as nat);
        assert(v / 10 < p) by (nonlinear_arith)
            requires
                v < 10 * p,
        ;
        if k == 1 {
            assert(false);
        } else {
            lemma_decimal_digits_bound(v / 10, (k - 1) as nat);
        }
    }
}

/// Every `u64` has at most 20 decimal digits.
proof fn lemma_u64_decimal_digits_bound(v: u64)
    ensures
        decimal_digits(v as nat).len() <= 20,
{
    reveal_with_fuel(pow10, 21);
    assert(pow10(20) == 100_000_000_000_000_000_000nat);
    lemma_decimal_digits_bound(v as nat, 20);
}

/// The number of decimal digits of `v`.
pub fn decimal_len(v: u64) -> (n: usize)
    ensures
        n == decimal_digits(v as nat).len(),
        1 <= n <= 20,
    decreases v,
{
    proof {
        lemma_u64_decimal_digits_bound(v);
    }
    if v < 10 {
        1
    } else {
        let k = decimal_len(v / 10);
        k + 1
    }
}

/// Appends the decimal digits of `v`.
pub fn push_decimal(out: &mut Vec<char>, v: u64)
    ensures
        final(out)@ == old(out)@ + decimal_digits(v as nat),
    decreases v,
{
    if v >= 10 {
        push_decimal(out, v / 10);
    }
    let d = (v % 10) as u32;
    let c = char_of_digit(d);
    out.push(c);
    proof {
        if v >= 10 {
            assert(decimal_digits(v as nat) == decimal_digits((v / 10) as nat).push(decimal_char((v % 10) as int)));
        }
    }
}

/// The decimal digit character of `d`.
fn char_of_digit(d: u32) -> (c: char)
    requires
        d < 10,
    ensures
        c == decimal_char(d as int),
{
    match d {
        0 => '0',
        1 => '1',
        2 => '2',
        3 => '3',
        4 => '4',
        5 => '5',
        6 => '6',
        7 => '7',
        8 => '8',
        _ => '9',
    }
}

/// The hexadecimal digit character of `d`.
fn char_of_hex_digit(d: u32) -> (c: char)
    requires
        d < 16,
    ensures
        c == hex_char(d as int),
{
    if d < 10 {
        char_of_digit(d)
    } else {
        match d {
            10 => 'a',
            11 => 'b',
            12 => 'c',
            13 => 'd',
            14 => 'e',
            _ => 'f',
        }
    }
}

/// Appends the decimal digits of `v` left-padded with zeros to `width`.
pub fn push_padded_decimal(out: &mut Vec<char>, v: u64, width: usize)
    ensures
        final(out)@ == old(out)@ + padded_decimal(v as nat, width as nat),
{
    let n = decimal_len(v);
    let ghost start = out@;
    let mut i: usize = n;
    while i < width
        invariant
            n <= i <= width || (i == n && n >= width),
            out@ == start + Seq::new((i - n) as nat, |j: int| '0'),
        decreases width - i,
    {
        out.push('0');
        i = i + 1;
        proof {
            assert(out@ =~= start + Seq::new((i - n) as nat, |j: int| '0'));
        }
    }
    let ghost padded = out@;
    assert(padded =~= start + zeros(n as int, width as int));
    push_decimal(out, v);
    assert(out@ =~= start + padded_decimal(v as nat, width as nat));
}

/// Appends the low `n` hexadecimal digits of `v`.
pub fn push_hex(out: &mut Vec<char>, v: u64, n: usize)
    ensures
        final(out)@ == old(out)@ + hex_digits(v as nat, n as nat),
    decreases n,
{
    if n > 0 {
        push_hex(out, v / 16, n - 1);
        let d = (v % 16) as u32;
        let c = char_of_hex_digit(d);
        out.push(c);
        proof {
            assert(hex_digits(v as nat, n as nat) == hex_digits((v / 16) as nat, (n - 1) as nat).push(hex_char((v % 16) as int)));
        }
    } else {
        proof {
            assert(old(out)@ + hex_digits(v as nat, 0) =~= old(out)@);
        }
    }
}

} // verus!
