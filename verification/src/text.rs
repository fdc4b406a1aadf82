//! Predicates on text and the joining of words, shared by names and titles.

use vstd::prelude::*;
use vstd::string::StringExecFns;

verus! {

/// Whether `text` holds a space character anywhere.
pub open spec fn has_space(text: Seq<char>) -> bool {
    text.contains(' ')
}

/// The words joined into one text, with a single space between neighbours.
pub open spec fn join_words(words: Seq<Seq<char>>) -> Seq<char>
    decreases words.len(),
{
    if words.len() == 0 {
        Seq::empty()
    } else if words.len() == 1 {
        words[0]
    } else {
        join_words(words.drop_last()) + seq![' '] + words.last()
    }
}

/// Joining one more word adds a space and the word, or the bare word when
/// it is the first.
pub proof fn lemma_join_words_push(words: Seq<Seq<char>>, word: Seq<char>)
    ensures
        join_words(words.push(word)) == if words.len() == 0 {
            word
        } else {
            join_words(words) + seq![' '] + word
        },
{
    assert(words.push(word).drop_last() =~= words);
}

/// Appends `word` to `text`, after a space unless `word` is the first.
pub(crate) fn push_word(
    text: &mut String,
    word: &str,
    first: bool,
    Ghost(words): Ghost<Seq<Seq<char>>>,
)
    requires
        old(text)@ == join_words(words),
        first == (words.len() == 0),
    ensures
        final(text)@ == join_words(words.push(word@)),
{
    proof {
        reveal_strlit(" ");
        lemma_join_words_push(words, word@);
        assert(" "@ =~= seq![' ']);
    }
    if !first {
        text.append(" ");
    }
    text.append(word);
    proof {
        assert(Seq::<char>::empty() + word@ =~= word@);
    }
}

/// Searches `text` for a space character.
pub fn contains_space(text: &str) -> (found: bool)
    ensures
        found == has_space(text@),
{
    broadcast use vstd::string::group_string_axioms;

    let mut found = false;
    let chars = text.chars();
    for c in iter: chars
        invariant
            iter.seq() == text@,
            found <==> exists|j: int| 0 <= j < iter.index() && text@[j] == ' ',
    {
        if c == ' ' {
            found = true;
        }
    }
    found
}

} // verus!
