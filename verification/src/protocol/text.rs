//! Decimal and hexadecimal text of numbers, for the display texts.

use vstd::prelude::*;

verus! {

/// The decimal digit `d`.
pub open spec fn digit_char(d: int) -> char {
    if d == 0 {
        '0'
    } else if d == 1 {
        '1'
    } else if d == 2 {
        '2'
    } else if d == 3 {
        '3'
    } else if d == 4 {
        '4'
    } else if d == 5 {
        '5'
    } else if d == 6 {
        '6'
    } else if d == 7 {
        '7'
    } else if d == 8 {
        '8'
    } else {
        '9'
    }
}

/// The hexadecimal digit `d`, in upper or lower case.
pub open spec fn hex_char(d: int, upper: bool) -> char {
    if d < 10 {
        digit_char(d)
    } else if d == 10 {
        if upper { 'A' } else { 'a' }
    } else if d == 11 {
        if upper { 'B' } else { 'b' }
    } else if d == 12 {
        if upper { 'C' } else { 'c' }
    } else if d == 13 {
        if upper { 'D' } else { 'd' }
    } else if d == 14 {
        if upper { 'E' } else { 'e' }
    } else {
        if upper { 'F' } else { 'f' }
    }
}

/// The decimal text of `n`, without leading zeros.
pub open spec fn spec_decimal(n: nat) -> Seq<char>
    decreases n,
{
    if n < 10 {
        seq![digit_char(n as int)]
    } else {
        spec_decimal(n / 10) + seq![digit_char((n % 10) as int)]
    }
}

/// The last `width` hexadecimal digits of `v`, zeros included.
pub open spec fn spec_hex(v: nat, width: nat, upper: bool) -> Seq<char>
    decreases width,
{
    if width == 0 {
        Seq::empty()
    } else {
        spec_hex(v / 16, (width - 1) as nat, upper) + seq![hex_char((v % 16) as int, upper)]
    }
}

/// The text of a hexadecimal digit.
fn hex_str(d: u64, upper: bool) -> (s: &'static str)
    requires
        d < 16,
    ensures
        s@ == seq![hex_char(d as int, upper)],
{
    proof {
        reveal_strlit("0");
        reveal_strlit("1");
        reveal_strlit("2");
        reveal_strlit("3");
        reveal_strlit("4");
        reveal_strlit("5");
        reveal_strlit("6");
        reveal_strlit("7");
        reveal_strlit("8");
        reveal_strlit("9");
        reveal_strlit("A");
        reveal_strlit("B");
        reveal_strlit("C");
        reveal_strlit("D");
        reveal_strlit("E");
        reveal_strlit("F");
        reveal_strlit("a");
        reveal_strlit("b");
        reveal_strlit("c");
        reveal_strlit("d");
        reveal_strlit("e");
        reveal_strlit("f");
    }
    match d {
        0 => "0",
        1 => "1",
        2 => "2",
        3 => "3",
        4 => "4",
        5 => "5",
        6 => "6",
        7 => "7",
        8 => "8",
        9 => "9",
        10 => if upper { "A" } else { "a" },
        11 => if upper { "B" } else { "b" },
        12 => if upper { "C" } else { "c" },
        13 => if upper { "D" } else { "d" },
        14 => if upper { "E" } else { "e" },
        _ => if upper { "F" } else { "f" },
    }
}

/// Appends the decimal text of `n`.
pub fn append_decimal(s: &mut String, n: u64)
    ensures
        final(s)@ == old(s)@ + spec_decimal(n as nat),
    decreases n,
{
    if n >= 10 {
        append_decimal(s, n / 10);
    }
    s.append(hex_str(n % 10, false));
    proof {
        assert(final(s)@ =~= old(s)@ + spec_decimal(n as nat));
    }
}

/// Appends the last `width` hexadecimal digits of `v`.
pub fn append_hex(s: &mut String, v: u64, width: u32, upper: bool)
    ensures
        final(s)@ == old(s)@ + spec_hex(v as nat, width as nat, upper),
    decreases width,
{
    if width > 0 {
        append_hex(s, v / 16, width - 1, upper);
        s.append(hex_str(v % 16, upper));
    }
    proof {
        assert(final(s)@ =~= old(s)@ + spec_hex(v as nat, width as nat, upper));
    }
}

} // verus!
