//! Classification of characters by their place in the ASCII range, and the
//! arithmetic on letters that the substitution relies on.
//!
//! Every predicate here is stated over the code point of a `char`, and every
//! executable function is proved to compute exactly its predicate.

use vstd::prelude::*;

verus! {

/// The five ASCII whitespace characters: space, tab, line feed, form feed and
/// carriage return.
pub open spec fn whitespace(c: char) -> bool {
    c == ' ' || c == '\t' || c == '\n' || c == '\x0C' || c == '\r'
}

/// The ten decimal digits.
pub open spec fn digit(c: char) -> bool {
    '0' <= c <= '9'
}

/// The thirty-two ASCII punctuation characters, which lie in four runs:
/// `!` to `/`, `:` to `@`, `[` to `` ` `` and `{` to `~`.
pub open spec fn punctuation(c: char) -> bool {
    ||| '!' <= c <= '/'
    ||| ':' <= c <= '@'
    ||| '[' <= c <= '`'
    ||| '{' <= c <= '~'
}

/// One of `A` to `Z`.
pub open spec fn uppercase(c: char) -> bool {
    'A' <= c <= 'Z'
}

/// One of `a` to `z`.
pub open spec fn lowercase(c: char) -> bool {
    'a' <= c <= 'z'
}

/// An ASCII letter of either case.
pub open spec fn letter(c: char) -> bool {
    uppercase(c) || lowercase(c)
}

/// A character that is copied to the output as it stands.
pub open spec fn passthrough(c: char) -> bool {
    whitespace(c) || digit(c) || punctuation(c)
}

/// A character for which a result exists: a letter or a passthrough character.
pub open spec fn translatable(c: char) -> bool {
    passthrough(c) || letter(c)
}

/// The zero-based place of a letter in the alphabet, whatever its case:
/// `A` and `a` are at 0, `Z` and `z` at 25.
pub open spec fn position(c: char) -> int
    recommends
        letter(c),
{
    if uppercase(c) {
        c as int - 'A' as int
    } else {
        c as int - 'a' as int
    }
}

/// The uppercase letter at a place of the alphabet.
pub open spec fn letter_at(i: int) -> char
    recommends
        0 <= i < 26,
{
    ('A' as int + i) as char
}

/// An uppercase letter turned into its lowercase form; any other character
/// unchanged.
pub open spec fn lowered(c: char) -> char {
    if uppercase(c) {
        (c as int + 32) as char
    } else {
        c
    }
}

/// A lowercase letter turned into its uppercase form; any other character
/// unchanged.
pub open spec fn raised(c: char) -> char {
    if lowercase(c) {
        (c as int - 32) as char
    } else {
        c
    }
}

/// Tells whether `c` is copied to the output as it stands.
pub fn is_passthrough(c: char) -> (r: bool)
    ensures
        r == passthrough(c),
{
    let is_whitespace: bool = c == ' ' || c == '\t' || c == '\n' || c == '\x0C' || c == '\r';
    let is_digit: bool = '0' <= c && c <= '9';
    let is_punctuation: bool = ('!' <= c && c <= '/') || (':' <= c && c <= '@') || ('[' <= c && c
        <= '`') || ('{' <= c && c <= '~');
    is_whitespace || is_digit || is_punctuation
}

/// Tells whether `c` is one of `a` to `z`.
pub fn is_lowercase(c: char) -> (r: bool)
    ensures
        r == lowercase(c),
{
    'a' <= c && c <= 'z'
}

/// The place of `c` in the alphabet if it is a letter, and nothing otherwise.
pub fn letter_position(c: char) -> (r: Option<usize>)
    ensures
        r is Some <==> letter(c),
        letter(c) ==> r.unwrap() == position(c) && r.unwrap() < 26,
{
    if 'A' <= c && c <= 'Z' {
        Some((c as u8 - 'A' as u8) as usize)
    } else if 'a' <= c && c <= 'z' {
        Some((c as u8 - 'a' as u8) as usize)
    } else {
        None
    }
}

/// The lowercase form of an uppercase letter; any other character comes back
/// unchanged.
pub fn to_lowercase(c: char) -> (r: char)
    ensures
        r == lowered(c),
{
    if 'A' <= c && c <= 'Z' {
        (c as u8 + 32) as char
    } else {
        c
    }
}

/// The uppercase form of a lowercase letter; any other character comes back
/// unchanged.
pub fn to_uppercase(c: char) -> (r: char)
    ensures
        r == raised(c),
{
    if 'a' <= c && c <= 'z' {
        (c as u8 - 32) as char
    } else {
        c
    }
}

/// No letter passes through, no letter has both cases, a letter's place lies
/// within the alphabet, and turning the case of a letter keeps its place and
/// can be turned back.
pub proof fn lemma_classes(c: char)
    ensures
        !(passthrough(c) && letter(c)),
        !(uppercase(c) && lowercase(c)),
        letter(c) ==> 0 <= position(c) < 26,
        letter(c) ==> letter_at(position(c)) == raised(c),
        uppercase(c) ==> lowercase(lowered(c)) && position(lowered(c)) == position(c),
        lowercase(c) ==> uppercase(raised(c)) && position(raised(c)) == position(c),
        uppercase(c) ==> raised(lowered(c)) == c,
        lowercase(c) ==> lowered(raised(c)) == c,
{
}

} // verus!
