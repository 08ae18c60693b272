//! Cutting a line of a dump into its whitespace-delimited words.

use vstd::prelude::*;

verus! {

/// Whether a character separates words: the space character and everything
/// below it, which takes in tabs and line ends.
pub open spec fn is_separator(c: char) -> bool {
    c as u32 <= 0x20
}

/// The words of a text: its maximal runs of characters that are no
/// separators, in order.
pub open spec fn words_of(text: Seq<char>) -> Seq<Seq<char>>
    decreases text.len(),
{
    if text.len() == 0 {
        Seq::empty()
    } else {
        let front = text.drop_last();
        if is_separator(text.last()) {
            words_of(front)
        } else if front.len() > 0 && !is_separator(front.last()) {
            let before = words_of(front);
            before.drop_last().push(before.last().push(text.last()))
        } else {
            words_of(front).push(seq![text.last()])
        }
    }
}

/// Whether a word is not empty and holds no separator.
pub open spec fn is_word(word: Seq<char>) -> bool {
    word.len() > 0 && forall|j: int| 0 <= j < word.len() ==> !is_separator(#[trigger] word[j])
}

/// Every word of a text is not empty and holds no separator; a text that
/// ends in a character that is no separator has a word.
pub proof fn lemma_words_hold_no_separator(text: Seq<char>)
    ensures
        forall|i: int| 0 <= i < words_of(text).len() ==> is_word(#[trigger] words_of(text)[i]),
        text.len() > 0 && !is_separator(text.last()) ==> words_of(text).len() > 0,
    decreases text.len(),
{
    if text.len() > 0 {
        let front = text.drop_last();
        lemma_words_hold_no_separator(front);
        if !is_separator(text.last()) && front.len() > 0 && !is_separator(front.last()) {
            // the last word of `front` grows by one character
            assert forall|i: int| 0 <= i < words_of(text).len() implies is_word(
                #[trigger] words_of(text)[i],
            ) by {}
        }
    }
}

/// The character sequences of a list of strings.
pub open spec fn texts(words: Seq<String>) -> Seq<Seq<char>> {
    words.map_values(|w: String| w@)
}

/// Calls `whiteread::parse_string` to read the line as a vector of strings.
/// That crate cuts a text at every byte up to the space character, which in
/// UTF-8 is always a character of its own, and hands out the runs between
/// them. A string is read from any word and a vector takes all the words
/// there are, so the call reports no error.
#[verifier::external_body]
fn read_words(line: &str) -> (words: Vec<String>)
    ensures
        texts(words@) == words_of(line@),
{
    whiteread::parse_string::<Vec<String>>(line).unwrap_or_default()
}

/// Splits a line into its words. None of them is empty or holds a blank, a
/// tab or a line end.
pub fn split_words(line: &str) -> (words: Vec<String>)
    ensures
        texts(words@) == words_of(line@),
        forall|i: int| 0 <= i < words@.len() ==> is_word(#[trigger] words@[i]@),
{
    let words = read_words(line);
    proof {
        lemma_words_hold_no_separator(line@);
        assert forall|i: int| 0 <= i < words@.len() implies is_word(#[trigger] words@[i]@) by {
            assert(texts(words@)[i] == words@[i]@);
        }
    }
    words
}

/// Tells whether two texts are the same.
pub fn same_text(a: &str, b: &str) -> (r: bool)
    ensures
        r == (a@ == b@),
{
    let x = a.to_owned();
    let y = b.to_owned();
    x == y
}

} // verus!
