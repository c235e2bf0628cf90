//! Translation of a whole text, one character after the other.
//!
//! The characters that have a translation are translated and joined in their
//! order; the others leave no trace in the result.

use vstd::prelude::*;
use crate::ascii::translatable;
use crate::laws::{
    is_alphabet, lemma_round_trip, lemma_tables_are_alphabets, lemma_tables_undo_each_other,
    undoes,
};
use crate::{translated, work, AL_BHED, ENGLISH};

verus! {

/// The translation of a text under a table: the translations of its
/// characters in their order, without the characters that have none.
pub open spec fn translated_text(table: Seq<char>, text: Seq<char>) -> Seq<char> {
    text.filter_map(|c: char| translated(table, c))
}

/// The English for a text in Al Bhed.
pub open spec fn english_text_of(text: Seq<char>) -> Seq<char> {
    translated_text(AL_BHED@, text)
}

/// The Al Bhed for a text in English.
pub open spec fn al_bhed_text_of(text: Seq<char>) -> Seq<char> {
    translated_text(ENGLISH@, text)
}

/// The characters of a text that have a translation, in their order.
pub open spec fn kept(text: Seq<char>) -> Seq<char> {
    text.filter(|c: char| translatable(c))
}

/// `String::push` of the standard library, which appends one character to the
/// end of a string and leaves what was there before as it was.
pub assume_specification[ String::push ](s: &mut String, c: char)
    ensures
        final(s)@ == old(s)@.push(c),
;

/// Translates a text under `table`, dropping the characters that have no
/// translation.
pub fn work_text(table: &[char; 26], text: &str) -> (r: String)
    ensures
        r@ == translated_text(table@, text@),
{
    let mut out = String::new();
    proof {
        vstd::string::axiom_spec_iter(text);
    }
    for c in it: text.chars()
        invariant
            it.seq() == text@,
            out@ == translated_text(table@, text@.take(it.index())),
    {
        proof {
            text@.lemma_filter_map_take_succ(|c: char| translated(table@, c), it.index());
        }
        match work(table, c) {
            Some(d) => {
                out.push(d);
            },
            None => {},
        }
    }
    assert(text@.take(text@.len() as int) == text@);
    out
}

/// Convert a text from Al Bhed into English, dropping the characters that
/// have no translation.
pub fn text_from_al_bhed(text: &str) -> (r: String)
    ensures
        r@ == english_text_of(text@),
{
    work_text(&AL_BHED, text)
}

/// Convert a text from English into Al Bhed, dropping the characters that
/// have no translation.
pub fn text_to_al_bhed(text: &str) -> (r: String)
    ensures
        r@ == al_bhed_text_of(text@),
{
    work_text(&ENGLISH, text)
}

/// The translation of a text with one more character at its end is the
/// translation of the text, followed by that of the character if it has one.
pub proof fn lemma_text_push(table: Seq<char>, text: Seq<char>, c: char)
    ensures
        translated_text(table, text.push(c)) == match translated(table, c) {
            Some(d) => translated_text(table, text).push(d),
            None => translated_text(table, text),
        },
        kept(text.push(c)) == if translatable(c) {
            kept(text).push(c)
        } else {
            kept(text)
        },
{
    assert(text.push(c).drop_last() == text);
    assert(text.push(c).last() == c);
    reveal(Seq::filter);
}

/// A translation is never longer than its text, and as long as the text when
/// every character of the text has a translation; each character then stands
/// at its place.
pub proof fn lemma_text_length(table: Seq<char>, text: Seq<char>)
    ensures
        translated_text(table, text).len() == kept(text).len() <= text.len(),
        (forall|i: int| 0 <= i < text.len() ==> translatable(#[trigger] text[i])) ==> {
            &&& translated_text(table, text).len() == text.len()
            &&& forall|i: int|
                0 <= i < text.len() ==> Some(#[trigger] translated_text(table, text)[i])
                    == translated(table, text[i])
        },
    decreases text.len(),
{
    reveal(Seq::filter);
    if text.len() > 0 {
        lemma_text_length(table, text.drop_last());
        assert(text.drop_last().push(text.last()) == text);
        lemma_text_push(table, text.drop_last(), text.last());
    }
}

/// Translating two texts one after the other and joining the results is the
/// same as translating the joined text: a character is translated without
/// regard to its neighbours.
pub proof fn lemma_text_concat(table: Seq<char>, left: Seq<char>, right: Seq<char>)
    ensures
        translated_text(table, left + right) == translated_text(table, left) + translated_text(
            table,
            right,
        ),
    decreases right.len(),
{
    if right.len() == 0 {
        assert(left + right == left);
    } else {
        lemma_text_concat(table, left, right.drop_last());
        assert((left + right.drop_last()).push(right.last()) == left + right);
        assert(right.drop_last().push(right.last()) == right);
        lemma_text_push(table, left + right.drop_last(), right.last());
        lemma_text_push(table, right.drop_last(), right.last());
    }
}

/// Under any two alphabets of which the second undoes the first, translating
/// a text with the first and the result with the second gives back the
/// characters of the text that have a translation.
pub proof fn lemma_text_round_trip(first: Seq<char>, second: Seq<char>, text: Seq<char>)
    requires
        is_alphabet(first),
        is_alphabet(second),
        undoes(first, second),
    ensures
        translated_text(second, translated_text(first, text)) == kept(text),
    decreases text.len(),
{
    reveal(Seq::filter);
    if text.len() > 0 {
        let c = text.last();
        lemma_text_round_trip(first, second, text.drop_last());
        assert(text.drop_last().push(c) == text);
        lemma_text_push(first, text.drop_last(), c);
        lemma_round_trip(first, second, c);
        if translatable(c) {
            lemma_text_push(
                second,
                translated_text(first, text.drop_last()),
                translated(first, c).unwrap(),
            );
        }
    }
}

/// A text put from English into Al Bhed and back, or from Al Bhed into
/// English and back, is the text again but for the characters that have no
/// translation, which are gone.
pub proof fn lemma_text_there_and_back(text: Seq<char>)
    ensures
        english_text_of(al_bhed_text_of(text)) == kept(text),
        al_bhed_text_of(english_text_of(text)) == kept(text),
{
    lemma_tables_are_alphabets();
    lemma_tables_undo_each_other();
    lemma_text_round_trip(ENGLISH@, AL_BHED@, text);
    lemma_text_round_trip(AL_BHED@, ENGLISH@, text);
}

} // verus!
