//! Text primitives shared by the lexer, the parser and the renderer.
//!
//! Every text in a contract is a `Seq<char>`: the view of a `str` or a `String`.

use vstd::prelude::*;

verus! {

/// `String::push` of the standard library: the character is appended at the end
/// of the string and nothing else changes. This is taken from its documentation
/// and is not proved here.
pub assume_specification[ String::push ](s: &mut String, ch: char)
    ensures
        final(s)@ == old(s)@.push(ch),
;

/// ASCII decimal digit.
pub open spec fn is_digit(c: char) -> bool {
    '0' <= c <= '9'
}

/// ASCII letter, upper or lower case.
pub open spec fn is_letter(c: char) -> bool {
    ('a' <= c <= 'z') || ('A' <= c <= 'Z')
}

/// The characters that separate tokens without being one.
pub open spec fn is_blank(c: char) -> bool {
    c == ' ' || c == '\t' || c == '\n' || c == '\r'
}

/// Whether `c` is an ASCII decimal digit.
pub(crate) fn char_is_digit(c: char) -> (r: bool)
    ensures
        r == is_digit(c),
{
    '0' <= c && c <= '9'
}

/// Whether `c` is an ASCII letter.
pub(crate) fn char_is_letter(c: char) -> (r: bool)
    ensures
        r == is_letter(c),
{
    ('a' <= c && c <= 'z') || ('A' <= c && c <= 'Z')
}

/// Whether `c` is a blank.
pub(crate) fn char_is_blank(c: char) -> (r: bool)
    ensures
        r == is_blank(c),
{
    c == ' ' || c == '\t' || c == '\n' || c == '\r'
}

/// Whether two texts hold the same characters.
pub(crate) fn same_text(a: &str, b: &str) -> (r: bool)
    ensures
        r == (a@ == b@),
{
    let x = a.as_bytes();
    let y = b.as_bytes();
    proof {
        // The encoding can be decoded again, so equal bytes mean equal characters.
        vstd::utf8::encode_utf8_decode_utf8(a@);
        vstd::utf8::encode_utf8_decode_utf8(b@);
    }
    if x.len() != y.len() {
        return false;
    }
    let mut i: usize = 0;
    while i < x.len()
        invariant
            x@.len() == y@.len(),
            i <= x@.len(),
            forall|j: int| 0 <= j < i ==> x@[j] == y@[j],
            x@ == vstd::utf8::encode_utf8(a@),
            y@ == vstd::utf8::encode_utf8(b@),
            vstd::utf8::decode_utf8(vstd::utf8::encode_utf8(a@)) == a@,
            vstd::utf8::decode_utf8(vstd::utf8::encode_utf8(b@)) == b@,
        decreases x@.len() - i,
    {
        if x[i] != y[i] {
            return false;
        }
        i += 1;
    }
    assert(x@ =~= y@);
    true
}

/// The characters of a text, in order.
pub(crate) fn chars_of(s: &str) -> (v: Vec<char>)
    ensures
        v@ == s@,
{
    let mut v: Vec<char> = Vec::new();
    for c in it: s.chars()
        invariant
            v@ == it.seq().take(it.index() as int),
            it.seq() == s@,
    {
        v.push(c);
    }
    v
}

/// The text made of the characters `v[from..to]`.
pub(crate) fn text_of(v: &Vec<char>, from: usize, to: usize) -> (s: String)
    requires
        from <= to <= v@.len(),
    ensures
        s@ == v@.subrange(from as int, to as int),
{
    let mut s = String::new();
    let mut i: usize = from;
    while i < to
        invariant
            from <= i <= to <= v@.len(),
            s@ == v@.subrange(from as int, i as int),
        decreases to - i,
    {
        s.push(v[i]);
        i += 1;
        assert(v@.subrange(from as int, i as int) == v@.subrange(from as int, i - 1).push(
            v@[i - 1],
        ));
    }
    s
}

/// The character that writes the digit `d`.
pub open spec fn digit_char(d: nat) -> char
    recommends
        d < 10,
{
    (('0' as nat) + d) as char
}

/// The decimal numeral of `n`, without leading zeros.
pub open spec fn decimal(n: nat) -> Seq<char>
    decreases n,
{
    if n < 10 {
        seq![digit_char(n)]
    } else {
        decimal(n / 10).push(digit_char(n % 10))
    }
}

/// Appends the decimal numeral of `n` to `out`.
pub(crate) fn push_decimal(out: &mut String, n: u32)
    ensures
        final(out)@ == old(out)@ + decimal(n as nat),
    decreases n,
{
    if n >= 10 {
        push_decimal(out, n / 10);
    }
    out.push(digit_of(n % 10));
    assert(final(out)@ =~= old(out)@ + decimal(n as nat));
}

/// The decimal numeral of an integer, with a minus sign where it is negative.
pub open spec fn signed_decimal(n: int) -> Seq<char> {
    if n < 0 {
        seq!['-'] + decimal((-n) as nat)
    } else {
        decimal(n as nat)
    }
}

/// Appends the decimal numeral of `n` to `out`.
pub(crate) fn push_signed_decimal(out: &mut String, n: i32)
    ensures
        final(out)@ == old(out)@ + signed_decimal(n as int),
{
    if n < 0 {
        out.push('-');
        let m: u32 = (-(n as i64)) as u32;
        push_decimal(out, m);
        assert(final(out)@ =~= old(out)@ + signed_decimal(n as int));
    } else {
        push_decimal(out, n as u32);
    }
}

/// The digits after the decimal point of `f` ten-thousandths, without the
/// zeros at the end.
pub open spec fn fraction_digits(f: nat) -> Seq<char>
    recommends
        f < 10000,
{
    let a = digit_char(f / 1000);
    let b = digit_char(f / 100 % 10);
    let c = digit_char(f / 10 % 10);
    let d = digit_char(f % 10);
    if f % 1000 == 0 {
        seq![a]
    } else if f % 100 == 0 {
        seq![a, b]
    } else if f % 10 == 0 {
        seq![a, b, c]
    } else {
        seq![a, b, c, d]
    }
}

/// A length of `w` ten-thousandths of a unit, as a decimal fraction of the
/// unit: `10000` is written `1`, `-1667` is written `-0.1667`.
pub open spec fn fraction_text(w: int) -> Seq<char> {
    let a: nat = if w < 0 {
        (-w) as nat
    } else {
        w as nat
    };
    let sign: Seq<char> = if w < 0 {
        seq!['-']
    } else {
        Seq::empty()
    };
    if a % 10000 == 0 {
        sign + decimal(a / 10000)
    } else {
        sign + decimal(a / 10000) + seq!['.'] + fraction_digits(a % 10000)
    }
}

fn digit_of(d: u32) -> (c: char)
    requires
        d < 10,
    ensures
        c == digit_char(d as nat),
{
    assert('0' as nat == 48);
    (48u8 + (d as u8)) as char
}

/// Appends `w` ten-thousandths, written as a decimal fraction, to `out`.
pub(crate) fn push_fraction(out: &mut String, w: i32)
    ensures
        final(out)@ == old(out)@ + fraction_text(w as int),
{
    let a: u32 = if w < 0 {
        out.push('-');
        (-(w as i64)) as u32
    } else {
        w as u32
    };
    push_decimal(out, a / 10000);
    let f: u32 = a % 10000;
    if f != 0 {
        out.push('.');
        out.push(digit_of(f / 1000));
        if f % 1000 != 0 {
            out.push(digit_of(f / 100 % 10));
            if f % 100 != 0 {
                out.push(digit_of(f / 10 % 10));
                if f % 10 != 0 {
                    out.push(digit_of(f % 10));
                }
            }
        }
    }
    assert(final(out)@ =~= old(out)@ + fraction_text(w as int));
}

/// How one character is written inside a quoted text: a backslash before a
/// backslash and before the quote mark in use, the usual letters for line feed,
/// carriage return, tabulator and the zero character, anything else as it is.
pub open spec fn escaped(c: char, quote: char) -> Seq<char> {
    if c == '\\' {
        seq!['\\', '\\']
    } else if c == quote {
        seq!['\\', quote]
    } else if c == '\n' {
        seq!['\\', 'n']
    } else if c == '\r' {
        seq!['\\', 'r']
    } else if c == '\t' {
        seq!['\\', 't']
    } else if c == '\0' {
        seq!['\\', '0']
    } else {
        seq![c]
    }
}

/// The characters of `s`, each one escaped for a text in double quotes.
pub open spec fn escaped_text(s: Seq<char>) -> Seq<char>
    decreases s.len(),
{
    if s.len() == 0 {
        Seq::empty()
    } else {
        escaped_text(s.drop_last()) + escaped(s.last(), '"')
    }
}

/// A character between single quotes.
pub open spec fn quoted_char(c: char) -> Seq<char> {
    seq!['\''] + escaped(c, '\'') + seq!['\'']
}

/// A text between double quotes.
pub open spec fn quoted_text(s: Seq<char>) -> Seq<char> {
    seq!['"'] + escaped_text(s) + seq!['"']
}

/// Appends `c`, escaped for a text between `quote` marks, to `out`.
pub(crate) fn push_escaped(out: &mut String, c: char, quote: char)
    ensures
        final(out)@ == old(out)@ + escaped(c, quote),
{
    if c == '\\' {
        out.push('\\');
        out.push('\\');
    } else if c == quote {
        out.push('\\');
        out.push(quote);
    } else if c == '\n' {
        out.push('\\');
        out.push('n');
    } else if c == '\r' {
        out.push('\\');
        out.push('r');
    } else if c == '\t' {
        out.push('\\');
        out.push('t');
    } else if c == '\0' {
        out.push('\\');
        out.push('0');
    } else {
        out.push(c);
    }
    assert(final(out)@ =~= old(out)@ + escaped(c, quote));
}

/// Appends `c` between single quotes to `out`.
pub(crate) fn push_quoted_char(out: &mut String, c: char)
    ensures
        final(out)@ == old(out)@ + quoted_char(c),
{
    out.push('\'');
    push_escaped(out, c, '\'');
    out.push('\'');
    assert(final(out)@ =~= old(out)@ + quoted_char(c));
}

/// Appends `s` between double quotes to `out`.
pub(crate) fn push_quoted_text(out: &mut String, s: &str)
    ensures
        final(out)@ == old(out)@ + quoted_text(s@),
{
    let v = chars_of(s);
    out.push('"');
    let mut i: usize = 0;
    while i < v.len()
        invariant
            i <= v@.len(),
            v@ == s@,
            out@ == old(out)@.push('"') + escaped_text(v@.take(i as int)),
        decreases v@.len() - i,
    {
        push_escaped(out, v[i], '"');
        assert(v@.take(i + 1).drop_last() == v@.take(i as int));
        i += 1;
    }
    assert(v@.take(i as int) == v@);
    out.push('"');
    assert(final(out)@ =~= old(out)@ + quoted_text(s@));
}

} // verus!
