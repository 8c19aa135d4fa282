//! Rendering of integers as text, digit by digit.

use vstd::prelude::*;

verus! {

/// The character for one digit below sixteen, letters in lower case.
pub open spec fn digit_char(d: nat) -> char {
    if d == 0 { '0' }
    else if d == 1 { '1' }
    else if d == 2 { '2' }
    else if d == 3 { '3' }
    else if d == 4 { '4' }
    else if d == 5 { '5' }
    else if d == 6 { '6' }
    else if d == 7 { '7' }
    else if d == 8 { '8' }
    else if d == 9 { '9' }
    else if d == 10 { 'a' }
    else if d == 11 { 'b' }
    else if d == 12 { 'c' }
    else if d == 13 { 'd' }
    else if d == 14 { 'e' }
    else { 'f' }
}

/// The hexadecimal digits of `n`, most significant first, with no leading
/// zero; zero itself is the single digit `0`.
pub open spec fn hex_digits(n: nat) -> Seq<char>
    decreases n,
{
    if n < 16 {
        seq![digit_char(n)]
    } else {
        hex_digits(n / 16).push(digit_char(n % 16))
    }
}

/// The decimal digits of `n`, most significant first, with no leading zero;
/// zero itself is the single digit `0`.
pub open spec fn dec_digits(n: nat) -> Seq<char>
    decreases n,
{
    if n < 10 {
        seq![digit_char(n)]
    } else {
        dec_digits(n / 10).push(digit_char(n % 10))
    }
}

/// `n` in hexadecimal with the prefix `0x` and at least two digits.
pub open spec fn hex_code(n: nat) -> Seq<char> {
    if n < 16 {
        seq!['0', 'x', '0', digit_char(n)]
    } else {
        seq!['0', 'x'] + hex_digits(n)
    }
}

/// One byte as exactly two hexadecimal digits.
pub open spec fn hex_byte(b: u8) -> Seq<char> {
    seq![digit_char((b / 16) as nat), digit_char((b % 16) as nat)]
}

/// `n` in decimal, with a leading minus sign where it is negative.
pub open spec fn decimal(n: int) -> Seq<char> {
    if n < 0 {
        seq!['-'] + dec_digits((-n) as nat)
    } else {
        dec_digits(n as nat)
    }
}

/// The magnitude of `n`.
pub open spec fn magnitude(n: i32) -> nat {
    if n < 0 { (-(n as int)) as nat } else { n as nat }
}

/// Returns the magnitude of `n` as an unsigned number; total, since the
/// magnitude of the least `i32` fits in a `u32`.
pub fn unsigned_magnitude(n: i32) -> (m: u32)
    ensures
        m as nat == magnitude(n),
{
    if n >= 0 {
        n as u32
    } else if n == i32::MIN {
        2147483648u32
    } else {
        (-n) as u32
    }
}

/// Returns the one-character text of a digit below sixteen.
pub fn digit_text(d: u32) -> (t: &'static str)
    requires
        d < 16,
    ensures
        t@ == seq![digit_char(d as nat)],
{
    proof {
        reveal_strlit("0"); reveal_strlit("1"); reveal_strlit("2"); reveal_strlit("3");
        reveal_strlit("4"); reveal_strlit("5"); reveal_strlit("6"); reveal_strlit("7");
        reveal_strlit("8"); reveal_strlit("9"); reveal_strlit("a"); reveal_strlit("b");
        reveal_strlit("c"); reveal_strlit("d"); reveal_strlit("e"); reveal_strlit("f");
    }
    let t: &'static str = if d == 0 { "0" }
    else if d == 1 { "1" }
    else if d == 2 { "2" }
    else if d == 3 { "3" }
    else if d == 4 { "4" }
    else if d == 5 { "5" }
    else if d == 6 { "6" }
    else if d == 7 { "7" }
    else if d == 8 { "8" }
    else if d == 9 { "9" }
    else if d == 10 { "a" }
    else if d == 11 { "b" }
    else if d == 12 { "c" }
    else if d == 13 { "d" }
    else if d == 14 { "e" }
    else { "f" };
    assert(t@ =~= seq![digit_char(d as nat)]);
    t
}

/// Appends the hexadecimal digits of `n` to `out`.
pub fn push_hex_digits(out: &mut String, n: u32)
    ensures
        final(out)@ == old(out)@ + hex_digits(n as nat),
    decreases n,
{
    if n >= 16 {
        push_hex_digits(out, n / 16);
        out.append(digit_text(n % 16));
        assert(final(out)@ =~= old(out)@ + hex_digits(n as nat));
    } else {
        out.append(digit_text(n));
    }
}

/// Appends the decimal digits of `n` to `out`.
pub fn push_dec_digits(out: &mut String, n: u32)
    ensures
        final(out)@ == old(out)@ + dec_digits(n as nat),
    decreases n,
{
    if n >= 10 {
        push_dec_digits(out, n / 10);
        out.append(digit_text(n % 10));
        assert(final(out)@ =~= old(out)@ + dec_digits(n as nat));
    } else {
        out.append(digit_text(n));
    }
}

/// Appends `n` in hexadecimal, prefixed and padded as `hex_code` says.
pub fn push_hex_code(out: &mut String, n: u32)
    ensures
        final(out)@ == old(out)@ + hex_code(n as nat),
{
    proof {
        reveal_strlit("0x");
        reveal_strlit("0x0");
    }
    if n < 16 {
        out.append("0x0");
        out.append(digit_text(n));
    } else {
        out.append("0x");
        push_hex_digits(out, n);
    }
    assert(final(out)@ =~= old(out)@ + hex_code(n as nat));
}

/// Appends one byte as two hexadecimal digits.
pub fn push_hex_byte(out: &mut String, b: u8)
    ensures
        final(out)@ == old(out)@ + hex_byte(b),
{
    let hi: u32 = (b / 16) as u32;
    let lo: u32 = (b % 16) as u32;
    out.append(digit_text(hi));
    out.append(digit_text(lo));
    assert(final(out)@ =~= old(out)@ + hex_byte(b));
}

/// Appends `n` in decimal.
pub fn push_decimal(out: &mut String, n: i32)
    ensures
        final(out)@ == old(out)@ + decimal(n as int),
{
    proof {
        reveal_strlit("-");
    }
    if n < 0 {
        out.append("-");
    }
    push_dec_digits(out, unsigned_magnitude(n));
    assert(final(out)@ =~= old(out)@ + decimal(n as int));
}

/// Two numbers with the same hexadecimal digits are the same number.
pub proof fn hex_digits_injective(a: nat, b: nat)
    requires
        hex_digits(a) == hex_digits(b),
    ensures
        a == b,
    decreases a,
{
    hex_digits_len(a);
    hex_digits_len(b);
    if a < 16 || b < 16 {
        assert(a < 16 && b < 16);
        assert(hex_digits(a)[0] == digit_char(a));
        assert(hex_digits(b)[0] == digit_char(b));
    } else {
        let da = hex_digits(a / 16);
        let db = hex_digits(b / 16);
        assert(da.push(digit_char(a % 16)).drop_last() =~= da);
        assert(db.push(digit_char(b % 16)).drop_last() =~= db);
        assert(da.push(digit_char(a % 16)).last() == digit_char(a % 16));
        assert(db.push(digit_char(b % 16)).last() == digit_char(b % 16));
        assert(da == db);
        hex_digits_injective(a / 16, b / 16);
        assert(a % 16 == b % 16);
    }
}

/// A hexadecimal rendering has one digit below sixteen and at least two from
/// sixteen on.
pub proof fn hex_digits_len(n: nat)
    ensures
        hex_digits(n).len() >= 1,
        n >= 16 ==> hex_digits(n).len() >= 2,
    decreases n,
{
    if n >= 16 {
        hex_digits_len(n / 16);
    }
}

/// Two numbers with the same prefixed hexadecimal rendering are the same
/// number.
pub proof fn hex_code_injective(a: nat, b: nat)
    requires
        hex_code(a) == hex_code(b),
    ensures
        a == b,
{
    hex_digits_len(a);
    hex_digits_len(b);
    if a < 16 && b < 16 {
        assert(hex_code(a)[3] == digit_char(a));
        assert(hex_code(b)[3] == digit_char(b));
    } else if a >= 16 && b >= 16 {
        assert((seq!['0', 'x'] + hex_digits(a)).subrange(2, hex_code(a).len() as int) =~= hex_digits(a));
        assert((seq!['0', 'x'] + hex_digits(b)).subrange(2, hex_code(b).len() as int) =~= hex_digits(b));
        hex_digits_injective(a, b);
    } else if a < 16 {
        hex_code_wide(b);
    } else {
        hex_code_wide(a);
    }
}

/// From sixteen on, the prefixed rendering is not that of a number below
/// sixteen: it is longer, or its first digit is not zero.
pub proof fn hex_code_wide(n: nat)
    requires
        n >= 16,
    ensures
        hex_code(n).len() > 4 || (hex_code(n).len() == 4 && hex_code(n)[2] != '0'),
{
    hex_digits_len(n);
    hex_digits_first(n);
    assert(hex_code(n)[2] == hex_digits(n)[0]);
}

/// The first digit of a number that is not zero is not `0`.
pub proof fn hex_digits_first(n: nat)
    requires
        n >= 1,
    ensures
        hex_digits(n)[0] != '0',
    decreases n,
{
    if n >= 16 {
        hex_digits_first(n / 16);
        hex_digits_len(n / 16);
    }
}

} // verus!
