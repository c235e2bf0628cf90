//! A translator for the Al Bhed language.
//!
//! Al Bhed is the language spoken by the Al Bhed people in the land of Spira,
//! the main setting of the game Final Fantasy X. It is written with the
//! English alphabet, each letter standing for another one.
//!
//! A character is translated on its own: a letter is replaced by the letter
//! that a fixed table gives for it, in the case of the letter that came in;
//! whitespace, digits and punctuation stay as they are; anything else has no
//! translation. English loanwords that Al Bhed keeps (airship, fiend and the
//! like) are not detected.
//!
//! [`from_al_bhed`] and [`to_al_bhed`] translate one character, and
//! [`text::text_from_al_bhed`] and [`text::text_to_al_bhed`] a whole text.
//! The module [`laws`] proves that the two tables are permutations of the
//! alphabet and undo each other.

use vstd::prelude::*;
use crate::ascii::{
    is_lowercase, is_passthrough, letter, letter_position, lowercase, lowered, passthrough,
    position, raised, to_lowercase, to_uppercase, translatable, uppercase,
};

pub mod ascii;
pub mod laws;
pub mod text;

verus! {

/// The English letter that each Al Bhed letter stands for, by the place of the
/// Al Bhed letter in the alphabet. For instance, `A` in Al Bhed is the English
/// `E`.
pub const AL_BHED: [char; 26] = [
    'E', 'P', 'S', 'T', 'I', 'W', 'K', 'N', 'U', 'V', 'G', 'C', 'L', 'R', 'Y', 'B', 'X', 'H', 'M',
    'D', 'O', 'F', 'Z', 'Q', 'A', 'J',
];

/// The Al Bhed letter for each English letter, by the place of the English
/// letter in the alphabet. For instance, the English `A` is `Y` in Al Bhed.
pub const ENGLISH: [char; 26] = [
    'Y', 'P', 'L', 'T', 'A', 'V', 'K', 'R', 'E', 'Z', 'G', 'M', 'S', 'H', 'U', 'B', 'X', 'N', 'C',
    'D', 'I', 'J', 'F', 'Q', 'O', 'W',
];

/// What a letter becomes under a table: the entry at the letter's place in the
/// alphabet, in lowercase for a lowercase letter and in uppercase for an
/// uppercase one.
pub open spec fn substituted(table: Seq<char>, c: char) -> char
    recommends
        table.len() == 26,
        letter(c),
{
    if lowercase(c) {
        lowered(table[position(c)])
    } else {
        raised(table[position(c)])
    }
}

/// The translation of one character under a table, if it has one.
pub open spec fn translated(table: Seq<char>, c: char) -> Option<char>
    recommends
        table.len() == 26,
{
    if passthrough(c) {
        Some(c)
    } else if letter(c) {
        Some(substituted(table, c))
    } else {
        None
    }
}

/// The English for one character of Al Bhed, if it has a translation.
pub open spec fn english_of(c: char) -> Option<char> {
    translated(AL_BHED@, c)
}

/// The Al Bhed for one character of English, if it has a translation.
pub open spec fn al_bhed_of(c: char) -> Option<char> {
    translated(ENGLISH@, c)
}

/// Translates one character under `table`.
///
/// Whitespace, digits and punctuation come back unchanged. A letter comes back
/// as the table's entry for its place in the alphabet, in the case of `c`
/// whatever the case of the entry. Any other character has no translation.
pub fn work(table: &[char; 26], c: char) -> (r: Option<char>)
    ensures
        r == translated(table@, c),
        r is Some <==> translatable(c),
        passthrough(c) ==> r == Some(c),
        letter(c) && letter(table@[position(c)]) ==> letter(r.unwrap()) && (lowercase(c)
            <==> lowercase(r.unwrap())) && (uppercase(c) <==> uppercase(r.unwrap())),
{
    if is_passthrough(c) {
        Some(c)
    } else {
        match letter_position(c) {
            Some(index) => {
                let trans: char = table[index];
                if is_lowercase(c) {
                    Some(to_lowercase(trans))
                } else {
                    Some(to_uppercase(trans))
                }
            },
            None => None,
        }
    }
}

/// Convert a single `char` from Al Bhed into English.
pub fn from_al_bhed(c: char) -> (r: Option<char>)
    ensures
        r == english_of(c),
        r is Some <==> translatable(c),
        passthrough(c) ==> r == Some(c),
        letter(c) ==> letter(r.unwrap()) && (lowercase(c) <==> lowercase(r.unwrap())) && (
        uppercase(c) <==> uppercase(r.unwrap())),
{
    work(&AL_BHED, c)
}

/// Convert a single `char` from English into Al Bhed.
pub fn to_al_bhed(c: char) -> (r: Option<char>)
    ensures
        r == al_bhed_of(c),
        r is Some <==> translatable(c),
        passthrough(c) ==> r == Some(c),
        letter(c) ==> letter(r.unwrap()) && (lowercase(c) <==> lowercase(r.unwrap())) && (
        uppercase(c) <==> uppercase(r.unwrap())),
{
    work(&ENGLISH, c)
}

} // verus!
