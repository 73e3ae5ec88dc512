//! Upper and lower case.

use vstd::prelude::*;

use crate::text::{
    chars_of, is_word, join, joined, law_words_are_words, lemma_joined_maps, plus, split_whitespace,
    text_between, texts, words,
};

verus! {

/// `s` in lower case, as Unicode maps it.
pub uninterp spec fn lowercase(s: Seq<char>) -> Seq<char>;

/// `s` in upper case, as Unicode maps it.
pub uninterp spec fn uppercase(s: Seq<char>) -> Seq<char>;

/// Every character of `s` is an ASCII character.
pub open spec fn is_ascii_text(s: Seq<char>) -> bool {
    forall|i: int| 0 <= i < s.len() ==> (#[trigger] s[i] as u32) < 128
}

/// An ASCII character in lower case.
pub open spec fn ascii_lower(c: char) -> char {
    if 'A' <= c <= 'Z' {
        (c as u32 + 32) as char
    } else {
        c
    }
}

/// An ASCII character in upper case.
pub open spec fn ascii_upper(c: char) -> char {
    if 'a' <= c <= 'z' {
        (c as u32 - 32) as char
    } else {
        c
    }
}

/// `s` with every ASCII letter in lower case.
pub open spec fn ascii_lowered(s: Seq<char>) -> Seq<char> {
    s.map_values(|c: char| ascii_lower(c))
}

/// `s` is made of ASCII characters, and so is lowered letter by letter, as `to_lowercase` promises.
pub open spec fn lowers_by_letter(s: Seq<char>) -> bool {
    is_ascii_text(s) && lowercase(s) == ascii_lowered(s)
}

/// Lines of ASCII characters that are joined by a line break or a space are lowered line by line.
pub proof fn lemma_lines_are_lowered(lines: Seq<Seq<char>>, sep: Seq<char>)
    requires
        sep == "\n"@ || sep == " "@,
        lowers_by_letter(joined(lines, sep)),
    ensures
        lowercase(joined(lines, sep)) == joined(
            lines.map_values(|line: Seq<char>| ascii_lowered(line)),
            sep,
        ),
{
    reveal_strlit("\n");
    reveal_strlit(" ");
    let f = |c: char| ascii_lower(c);
    lemma_joined_maps(lines, sep, f);
    assert(sep.map_values(f) =~= sep);
    assert(lines.map_values(|line: Seq<char>| line.map_values(f)) =~= lines.map_values(
        |line: Seq<char>| ascii_lowered(line),
    ));
}

/// `str::to_lowercase`: the result is a function of the text alone, here called `lowercase`. On a
/// text of ASCII characters it maps `A` to `Z` to `a` to `z` and keeps the rest.
#[verifier::external_body]
pub(crate) fn to_lowercase(s: &str) -> (r: String)
    ensures
        r@ == lowercase(s@),
        is_ascii_text(s@) ==> r@ == s@.map_values(|c: char| ascii_lower(c)),
{
    s.to_lowercase()
}

/// `str::to_uppercase`: the result is a function of the text alone, here called `uppercase`. On a
/// text of ASCII characters it maps `a` to `z` to `A` to `Z` and keeps the rest.
#[verifier::external_body]
pub(crate) fn to_uppercase(s: &str) -> (r: String)
    ensures
        r@ == uppercase(s@),
        is_ascii_text(s@) ==> r@ == s@.map_values(|c: char| ascii_upper(c)),
{
    s.to_uppercase()
}

/// A word in title case: its first letter in upper case, and the rest in lower case.
pub open spec fn title_word(word: Seq<char>) -> Seq<char> {
    if word.len() == 0 {
        Seq::empty()
    } else {
        uppercase(word.take(1)) + lowercase(word.skip(1))
    }
}

/// `s` in title case, word by word, with one space between the words.
pub open spec fn title_case(s: Seq<char>) -> Seq<char> {
    joined(words(s).map_values(|word: Seq<char>| title_word(word)), " "@)
}

/// A word in title case.
fn to_title_word(word: &str) -> (r: String)
    ensures
        r@ == title_word(word@),
{
    let letters = chars_of(word);
    if letters.len() == 0 {
        String::new()
    } else {
        let first = text_between(&letters, 0, 1);
        let rest = text_between(&letters, 1, letters.len());
        proof {
            assert(first@ =~= word@.take(1));
            assert(rest@ =~= word@.skip(1));
        }
        let lower = to_lowercase(rest.as_str());
        plus(to_uppercase(first.as_str()), lower.as_str())
    }
}

/// `s` in title case, word by word, with one space between the words.
pub fn to_title_case(s: &str) -> (r: String)
    ensures
        r@ == title_case(s@),
{
    let parts = split_whitespace(s);
    let mut titled: Vec<String> = Vec::new();
    let mut i: usize = 0;
    while i < parts.len()
        invariant
            i <= parts@.len(),
            titled@.len() == i,
            texts(parts@) == words(s@),
            forall|j: int| 0 <= j < i ==> (#[trigger] titled@[j])@ == title_word(words(s@)[j]),
        decreases parts@.len() - i,
    {
        proof {
            assert(texts(parts@)[i as int] == parts@[i as int]@);
        }
        titled.push(to_title_word(parts[i].as_str()));
        i = i + 1;
    }
    proof {
        assert(texts(titled@) =~= words(s@).map_values(|word: Seq<char>| title_word(word)));
    }
    join(&titled, " ")
}

/// Title case goes word by word: the first letter of each word in upper case, the rest of it in
/// lower case, and one space between the words.
pub proof fn law_title_case_goes_word_by_word(s: Seq<char>, list: Seq<Seq<char>>)
    requires
        words(s) == list,
    ensures
        title_case(s) == joined(
            list.map_values(
                |word: Seq<char>| uppercase(word.take(1)) + lowercase(word.skip(1)),
            ),
            " "@,
        ),
{
    law_words_are_words(s);
    assert(forall|i: int| 0 <= i < list.len() ==> is_word(#[trigger] list[i]));
    assert(words(s).map_values(|word: Seq<char>| title_word(word))
        =~= list.map_values(|word: Seq<char>| uppercase(word.take(1)) + lowercase(word.skip(1))));
}

} // verus!
