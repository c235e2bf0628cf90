//! What holds of the two tables and of the translation in both directions.
//!
//! The tables are written out by hand, one letter at a time, and a slip in
//! either would go unnoticed at run time. The proofs here rule that out: each
//! table holds every letter once, and each undoes the other.

use vstd::prelude::*;
use crate::ascii::{
    lemma_classes, letter, letter_at, lowercase, passthrough, position, translatable, uppercase,
};
use crate::{al_bhed_of, english_of, translated, AL_BHED, ENGLISH};

verus! {

/// A table is an alphabet when it has 26 entries, all of them uppercase
/// letters, and every uppercase letter stands at exactly one place in it.
pub open spec fn is_alphabet(table: Seq<char>) -> bool {
    &&& table.len() == 26
    &&& forall|i: int| 0 <= i < 26 ==> uppercase(#[trigger] table[i])
    &&& forall|i: int, j: int|
        0 <= i < 26 && 0 <= j < 26 && #[trigger] table[i] == #[trigger] table[j] ==> i == j
    &&& forall|l: char| #[trigger]
        uppercase(l) ==> exists|i: int| 0 <= i < 26 && #[trigger] table[i] == l
}

/// The second table undoes the first: where the first has the letter `x` at
/// the place of the letter `y`, the second has `y` at the place of `x`.
pub open spec fn undoes(first: Seq<char>, second: Seq<char>) -> bool
    recommends
        is_alphabet(first),
        is_alphabet(second),
{
    forall|i: int| 0 <= i < 26 ==> second[position(#[trigger] first[i])] == letter_at(i)
}

/// Each of the two tables holds each of the 26 uppercase letters exactly once.
pub proof fn lemma_tables_are_alphabets()
    ensures
        is_alphabet(AL_BHED@),
        is_alphabet(ENGLISH@),
{
    assert forall|l: char| #[trigger] uppercase(l) implies exists|i: int|
        0 <= i < 26 && #[trigger] AL_BHED@[i] == l by {
        let i = position(ENGLISH@[position(l)]);
        assert(0 <= i < 26 && AL_BHED@[i] == l);
    }
    assert forall|l: char| #[trigger] uppercase(l) implies exists|i: int|
        0 <= i < 26 && #[trigger] ENGLISH@[i] == l by {
        let i = position(AL_BHED@[position(l)]);
        assert(0 <= i < 26 && ENGLISH@[i] == l);
    }
}

/// The two tables undo each other, in both orders.
pub proof fn lemma_tables_undo_each_other()
    ensures
        undoes(AL_BHED@, ENGLISH@),
        undoes(ENGLISH@, AL_BHED@),
{
}

/// Under any two alphabets of which the second undoes the first, translating
/// a character with the first and the result with the second gives the
/// character back, in its case; a character without a translation under the
/// first has none under the second either.
pub proof fn lemma_round_trip(first: Seq<char>, second: Seq<char>, c: char)
    requires
        is_alphabet(first),
        is_alphabet(second),
        undoes(first, second),
    ensures
        translatable(c) ==> translated(first, c) is Some && translated(
            second,
            translated(first, c).unwrap(),
        ) == Some(c),
        !translatable(c) ==> translated(first, c) is None && translated(second, c) is None,
{
    lemma_classes(c);
    if letter(c) {
        let i = position(c);
        let x = first[i];
        assert(uppercase(x));
        lemma_classes(x);
        assert(second[position(x)] == letter_at(i));
    }
}

/// English put into Al Bhed and back into English is the English again, for
/// every character that has a translation: the 26 letters in either case, and
/// the characters that pass through.
pub proof fn lemma_english_round_trip(c: char)
    requires
        translatable(c),
    ensures
        al_bhed_of(c) is Some,
        english_of(al_bhed_of(c).unwrap()) == Some(c),
{
    lemma_tables_are_alphabets();
    lemma_tables_undo_each_other();
    lemma_round_trip(ENGLISH@, AL_BHED@, c);
}

/// Al Bhed put into English and back into Al Bhed is the Al Bhed again, for
/// every character that has a translation.
pub proof fn lemma_al_bhed_round_trip(c: char)
    requires
        translatable(c),
    ensures
        english_of(c) is Some,
        al_bhed_of(english_of(c).unwrap()) == Some(c),
{
    lemma_tables_are_alphabets();
    lemma_tables_undo_each_other();
    lemma_round_trip(AL_BHED@, ENGLISH@, c);
}

/// Under any table whose entries are letters, a letter is translated to a
/// letter of its own case.
pub proof fn lemma_case_is_kept(table: Seq<char>, c: char)
    requires
        table.len() == 26,
        forall|i: int| 0 <= i < 26 ==> letter(#[trigger] table[i]),
        letter(c),
    ensures
        translated(table, c) is Some,
        letter(translated(table, c).unwrap()),
        uppercase(c) <==> uppercase(translated(table, c).unwrap()),
        lowercase(c) <==> lowercase(translated(table, c).unwrap()),
{
    lemma_classes(c);
    assert(letter(table[position(c)]));
}

/// Whitespace, digits and punctuation are their own translation under every
/// table.
pub proof fn lemma_passthrough_is_kept(table: Seq<char>, c: char)
    requires
        passthrough(c),
    ensures
        translated(table, c) == Some(c),
{
}

/// A character that is neither a letter nor whitespace, a digit or
/// punctuation has no translation under any table, and every other character
/// has one.
pub proof fn lemma_others_are_dropped(table: Seq<char>, c: char)
    ensures
        translated(table, c) is None <==> !translatable(c),
{
}

} // verus!
