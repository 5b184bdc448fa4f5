use vstd::prelude::*;

verus! {

/// Whether a character beyond ASCII has the Unicode `Alphabetic` property,
/// as the tables behind `char::is_alphabetic` decide it.
pub uninterp spec fn unicode_alphabetic(c: char) -> bool;

/// Whether a character beyond ASCII is in one of the Unicode general
/// categories for numbers (`Nd`, `Nl`, `No`), as the tables behind
/// `char::is_numeric` decide it.
pub uninterp spec fn unicode_numeric(c: char) -> bool;

/// Whether a character is alphabetic: an ASCII letter, or a character
/// beyond ASCII with the Unicode `Alphabetic` property.
pub open spec fn alphabetic_char(c: char) -> bool {
    if c <= '\x7f' {
        ascii_letter(c)
    } else {
        unicode_alphabetic(c)
    }
}

/// Whether a character is numeric: an ASCII digit, or a character beyond
/// ASCII in a Unicode number category.
pub open spec fn numeric_char(c: char) -> bool {
    if c <= '\x7f' {
        ascii_digit(c)
    } else {
        unicode_numeric(c)
    }
}

/// Whether a character is alphabetic or numeric.
pub open spec fn alphanumeric_char(c: char) -> bool {
    alphabetic_char(c) || numeric_char(c)
}

/// Whether a character is one of the ASCII letters `a` to `z` and `A` to `Z`.
pub open spec fn ascii_letter(c: char) -> bool {
    ('a' <= c && c <= 'z') || ('A' <= c && c <= 'Z')
}

/// Whether a character is one of the ASCII digits `0` to `9`.
pub open spec fn ascii_digit(c: char) -> bool {
    '0' <= c && c <= '9'
}

/// The character of a decimal digit.
pub open spec fn digit_char(d: nat) -> char {
    ((d + 48) as u8) as char
}

/// The decimal numeral of a natural number, without leading zeros.
pub open spec fn decimal(n: nat) -> Seq<char>
    decreases n,
{
    if n < 10 {
        seq![digit_char(n)]
    } else {
        decimal(n / 10).push(digit_char(n % 10))
    }
}

/// Calls `char::is_alphabetic`: among ASCII characters std answers `true`
/// for the letters `a`-`z` and `A`-`Z` alone; beyond ASCII it consults the
/// Unicode tables, whose answer is named `unicode_alphabetic`.
#[verifier::external_body]
pub(crate) fn char_is_alphabetic(c: char) -> (r: bool)
    ensures
        r == (if c <= '\x7f' { ascii_letter(c) } else { unicode_alphabetic(c) }),
{
    c.is_alphabetic()
}

/// Calls `char::is_numeric`: among ASCII characters std answers `true` for
/// the digits `0`-`9` alone; beyond ASCII it consults the Unicode tables,
/// whose answer is named `unicode_numeric`.
#[verifier::external_body]
pub(crate) fn char_is_numeric(c: char) -> (r: bool)
    ensures
        r == (if c <= '\x7f' { ascii_digit(c) } else { unicode_numeric(c) }),
{
    c.is_numeric()
}

/// Whether a character is alphabetic or numeric, as `char::is_alphanumeric`
/// decides it.
pub(crate) fn char_is_alphanumeric(c: char) -> (r: bool)
    ensures
        r == alphanumeric_char(c),
{
    char_is_alphabetic(c) || char_is_numeric(c)
}

/// Calls `String::push`, which appends one character.
#[verifier::external_body]
pub(crate) fn push_char(s: &mut String, c: char)
    ensures
        final(s)@ == old(s)@.push(c),
{
    s.push(c)
}

/// Whether a character is one of the ASCII digits, as `char::is_ascii_digit`
/// decides it.
pub fn is_ascii_digit(c: char) -> (r: bool)
    ensures
        r == ascii_digit(c),
{
    '0' <= c && c <= '9'
}

/// The decimal numeral of `n`.
pub fn decimal_string(n: usize) -> (r: String)
    ensures
        r@ == decimal(n as nat),
    decreases n,
{
    let d: u8 = (n % 10) as u8;
    let c: char = (d + 48u8) as char;
    if n < 10 {
        let mut s = String::new();
        push_char(&mut s, c);
        s
    } else {
        let mut s = decimal_string(n / 10);
        push_char(&mut s, c);
        s
    }
}

/// Appends the characters `chars[from..to]` to `s`.
pub(crate) fn push_chars(s: &mut String, chars: &Vec<char>, from: usize, to: usize)
    requires
        from <= to <= chars@.len(),
    ensures
        final(s)@ == old(s)@ + chars@.subrange(from as int, to as int),
{
    let mut i = from;
    while i < to
        invariant
            from <= i <= to <= chars@.len(),
            s@ == old(s)@ + chars@.subrange(from as int, i as int),
        decreases to - i,
    {
        push_char(s, chars[i]);
        assert(chars@.subrange(from as int, i + 1) == chars@.subrange(from as int, i as int).push(chars@[i as int]));
        i += 1;
    }
}

} // verus!
