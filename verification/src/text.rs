//! Building text: comparing strings, and writing numbers in decimal and
//! hexadecimal the way Rust's formatting does.

use vstd::prelude::*;
use vstd::string::{StrSliceExecFns, StringExecFns};

verus! {

/// `String::push`: appends one character.
#[verifier::external_body]
pub(crate) fn push_char(s: &mut String, c: char)
    ensures
        final(s)@ == old(s)@.push(c),
{
    s.push(c)
}

/// Appends a string slice.
pub fn push_str(s: &mut String, t: &str)
    ensures
        final(s)@ == old(s)@ + t@,
{
    s.append(t)
}

/// A new string holding `t`.
pub fn string_of(t: &str) -> (s: String)
    ensures
        s@ == t@,
{
    String::from_str(t)
}

/// The characters of a string slice.
pub fn chars_of(s: &str) -> (r: Vec<char>)
    ensures
        r@ == s@,
{
    let n = s.unicode_len();
    let mut r: Vec<char> = Vec::new();
    let mut i: usize = 0;
    while i < n
        invariant
            n == s@.len(),
            i <= n,
            r@ == s@.subrange(0, i as int),
        decreases n - i,
    {
        r.push(s.get_char(i));
        i = i + 1;
        assert(r@ =~= s@.subrange(0, i as int));
    }
    assert(s@.subrange(0, n as int) =~= s@);
    r
}

/// Whether two string slices hold the same characters.
pub fn str_eq(a: &str, b: &str) -> (r: bool)
    ensures
        r == (a@ == b@),
{
    let n = a.unicode_len();
    if n != b.unicode_len() {
        return false;
    }
    let mut i: usize = 0;
    while i < n
        invariant
            n == a@.len(),
            n == b@.len(),
            i <= n,
            forall|j: int| 0 <= j < i ==> a@[j] == b@[j],
        decreases n - i,
    {
        if a.get_char(i) != b.get_char(i) {
            return false;
        }
        i = i + 1;
    }
    assert(a@ =~= b@);
    true
}

/// The decimal digit character for `d`.
pub open spec fn decimal_digit(d: nat) -> char {
    if d == 0 {
        '0'
    } else if d == 1 {
        '1'
    } else if d == 2 {
        '2'
    } else if d == 3 {
        '3'
    } else if d == 4 {
        '4'
    } else if d == 5 {
        '5'
    } else if d == 6 {
        '6'
    } else if d == 7 {
        '7'
    } else if d == 8 {
        '8'
    } else {
        '9'
    }
}

/// The upper-case hexadecimal digit character for `d`.
pub open spec fn hex_digit_upper(d: nat) -> char {
    if d < 10 {
        decimal_digit(d)
    } else if d == 10 {
        'A'
    } else if d == 11 {
        'B'
    } else if d == 12 {
        'C'
    } else if d == 13 {
        'D'
    } else if d == 14 {
        'E'
    } else {
        'F'
    }
}

/// The lower-case hexadecimal digit character for `d`.
pub open spec fn hex_digit_lower(d: nat) -> char {
    if d < 10 {
        decimal_digit(d)
    } else if d == 10 {
        'a'
    } else if d == 11 {
        'b'
    } else if d == 12 {
        'c'
    } else if d == 13 {
        'd'
    } else if d == 14 {
        'e'
    } else {
        'f'
    }
}

/// `v` in decimal, without leading zeros (`0` for zero).
pub open spec fn decimal(v: nat) -> Seq<char>
    decreases v,
{
    if v < 10 {
        seq![decimal_digit(v)]
    } else {
        decimal(v / 10).push(decimal_digit(v % 10))
    }
}

/// `v` in decimal, padded with zeros to at least `width` digits.
pub open spec fn decimal_padded(v: nat, width: nat) -> Seq<char> {
    if decimal(v).len() >= width {
        decimal(v)
    } else {
        Seq::new((width - decimal(v).len()) as nat, |i: int| '0') + decimal(v)
    }
}

/// `v` in upper-case hexadecimal, without leading zeros (`0` for zero).
pub open spec fn hex_upper(v: nat) -> Seq<char>
    decreases v,
{
    if v < 16 {
        seq![hex_digit_upper(v)]
    } else {
        hex_upper(v / 16).push(hex_digit_upper(v % 16))
    }
}

/// The lowest `width` hexadecimal digits of `v`, in lower case.
pub open spec fn hex_lower_fixed(v: nat, width: nat) -> Seq<char>
    decreases width,
{
    if width == 0 {
        Seq::empty()
    } else {
        hex_lower_fixed(v / 16, (width - 1) as nat).push(hex_digit_lower(v % 16))
    }
}

/// `v` as Rust's `{:#X}` writes it: `0x` and upper-case hexadecimal.
pub open spec fn alt_hex_upper(v: nat) -> Seq<char> {
    seq!['0', 'x'] + hex_upper(v)
}

fn decimal_digit_char(d: u64) -> (c: char)
    requires
        d < 10,
    ensures
        c == decimal_digit(d as nat),
{
    if d == 0 {
        '0'
    } else if d == 1 {
        '1'
    } else if d == 2 {
        '2'
    } else if d == 3 {
        '3'
    } else if d == 4 {
        '4'
    } else if d == 5 {
        '5'
    } else if d == 6 {
        '6'
    } else if d == 7 {
        '7'
    } else if d == 8 {
        '8'
    } else {
        '9'
    }
}

fn hex_digit_char(d: u64, upper: bool) -> (c: char)
    requires
        d < 16,
    ensures
        c == if upper {
            hex_digit_upper(d as nat)
        } else {
            hex_digit_lower(d as nat)
        },
{
    if d < 10 {
        decimal_digit_char(d)
    } else if d == 10 {
        if upper { 'A' } else { 'a' }
    } else if d == 11 {
        if upper { 'B' } else { 'b' }
    } else if d == 12 {
        if upper { 'C' } else { 'c' }
    } else if d == 13 {
        if upper { 'D' } else { 'd' }
    } else if d == 14 {
        if upper { 'E' } else { 'e' }
    } else {
        if upper { 'F' } else { 'f' }
    }
}

/// Appends `v` in decimal.
pub fn push_decimal(s: &mut String, v: u64)
    ensures
        final(s)@ == old(s)@ + decimal(v as nat),
    decreases v,
{
    if v >= 10 {
        push_decimal(s, v / 10);
    }
    push_char(s, decimal_digit_char(v % 10));
    assert(final(s)@ =~= old(s)@ + decimal(v as nat));
}

/// Appends `v` in decimal, padded with zeros to at least `width` digits.
pub fn push_decimal_padded(s: &mut String, v: u64, width: usize)
    ensures
        final(s)@ == old(s)@ + decimal_padded(v as nat, width as nat),
{
    let n = decimal_len(v);
    let w = width as u64;
    let mut i: u64 = n;
    while i < w
        invariant
            n == decimal(v as nat).len(),
            w == width,
            n <= i <= w || (w < n && i == n),
            s@ == old(s)@ + Seq::new((i - n) as nat, |k: int| '0'),
        decreases w - i,
    {
        push_char(s, '0');
        i = i + 1;
        assert(s@ =~= old(s)@ + Seq::new((i - n) as nat, |k: int| '0'));
    }
    push_decimal(s, v);
    assert(s@ =~= old(s)@ + decimal_padded(v as nat, width as nat));
}

/// The number of decimal digits of `v`.
fn decimal_len(v: u64) -> (n: u64)
    ensures
        n == decimal(v as nat).len(),
        n <= v + 1,
    decreases v,
{
    if v < 10 {
        1
    } else {
        decimal_len(v / 10) + 1
    }
}

/// Appends `v` in upper-case hexadecimal.
pub fn push_hex_upper(s: &mut String, v: u64)
    ensures
        final(s)@ == old(s)@ + hex_upper(v as nat),
    decreases v,
{
    if v >= 16 {
        push_hex_upper(s, v / 16);
    }
    push_char(s, hex_digit_char(v % 16, true));
    assert(final(s)@ =~= old(s)@ + hex_upper(v as nat));
}

/// Appends `v` as `{:#X}` writes it.
pub fn push_alt_hex_upper(s: &mut String, v: u64)
    ensures
        final(s)@ == old(s)@ + alt_hex_upper(v as nat),
{
    push_char(s, '0');
    push_char(s, 'x');
    push_hex_upper(s, v);
    assert(final(s)@ =~= old(s)@ + alt_hex_upper(v as nat));
}

/// Appends the lowest `width` hexadecimal digits of `v` in lower case.
pub fn push_hex_lower_fixed(s: &mut String, v: u128, width: usize)
    ensures
        final(s)@ == old(s)@ + hex_lower_fixed(v as nat, width as nat),
    decreases width,
{
    if width > 0 {
        push_hex_lower_fixed(s, v / 16, width - 1);
        push_char(s, hex_digit_char((v % 16) as u64, false));
    }
    assert(final(s)@ =~= old(s)@ + hex_lower_fixed(v as nat, width as nat));
}

} // verus!
