use vstd::prelude::*;
use vstd::string::*;

verus! {

/// The upper-case hexadecimal digit for a value below 16.
pub open spec fn hex_char(d: nat) -> char {
    if d < 10 {
        ((d + 48) as u8) as char
    } else {
        ((d + 55) as u8) as char
    }
}

/// The last `width` hexadecimal digits of `n`, most significant first.
pub open spec fn hex_digits(n: nat, width: nat) -> Seq<char>
    decreases width,
{
    if width == 0 {
        Seq::empty()
    } else {
        hex_digits(n / 16, (width - 1) as nat).push(hex_char(n % 16))
    }
}

/// The decimal digits of a value below 100.
pub open spec fn dec_digits(n: nat) -> Seq<char> {
    if n < 10 {
        seq![hex_char(n)]
    } else {
        seq![hex_char(n / 10), hex_char(n % 10)]
    }
}

fn digit_text(d: usize) -> (r: &'static str)
    requires
        d < 16,
    ensures
        r@ == seq![hex_char(d as nat)],
{
    proof {
        reveal_strlit("0"); reveal_strlit("1"); reveal_strlit("2"); reveal_strlit("3");
        reveal_strlit("4"); reveal_strlit("5"); reveal_strlit("6"); reveal_strlit("7");
        reveal_strlit("8"); reveal_strlit("9"); reveal_strlit("A"); reveal_strlit("B");
        reveal_strlit("C"); reveal_strlit("D"); reveal_strlit("E"); reveal_strlit("F");
    }
    let r = if d == 0 { "0" } else if d == 1 { "1" } else if d == 2 { "2" } else if d == 3 {
        "3"
    } else if d == 4 { "4" } else if d == 5 { "5" } else if d == 6 { "6" } else if d == 7 {
        "7"
    } else if d == 8 { "8" } else if d == 9 { "9" } else if d == 10 { "A" } else if d == 11 {
        "B"
    } else if d == 12 { "C" } else if d == 13 { "D" } else if d == 14 { "E" } else { "F" };
    assert(r@ =~= seq![hex_char(d as nat)]);
    r
}

/// Appends the last `width` hexadecimal digits of `n`.
pub fn push_hex(s: &mut String, n: usize, width: usize)
    ensures
        final(s)@ == old(s)@ + hex_digits(n as nat, width as nat),
    decreases width,
{
    if width > 0 {
        push_hex(s, n / 16, width - 1);
        s.append(digit_text(n % 16));
        assert(s@ =~= old(s)@ + hex_digits(n as nat, width as nat));
    } else {
        assert(s@ =~= old(s)@ + hex_digits(n as nat, width as nat));
    }
}

/// Appends the decimal digits of a value below 100.
pub fn push_dec(s: &mut String, n: usize)
    requires
        n < 100,
    ensures
        final(s)@ == old(s)@ + dec_digits(n as nat),
{
    if n < 10 {
        s.append(digit_text(n));
    } else {
        s.append(digit_text(n / 10));
        s.append(digit_text(n % 10));
    }
    assert(s@ =~= old(s)@ + dec_digits(n as nat));
}

/// Register name: `V` and one hexadecimal digit.
pub open spec fn reg_text(x: nat) -> Seq<char> {
    "V"@ + hex_digits(x, 1)
}

/// Appends a register name.
pub fn push_reg(s: &mut String, x: usize)
    ensures
        final(s)@ == old(s)@ + reg_text(x as nat),
{
    s.append("V");
    push_hex(s, x, 1);
    assert(s@ =~= old(s)@ + reg_text(x as nat));
}

} // verus!
