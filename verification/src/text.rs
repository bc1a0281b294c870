//! Splitting a typed line into words.

use vstd::prelude::*;

verus! {

/// The characters that separate words: the code points with the Unicode
/// property White_Space.
pub open spec fn is_whitespace(c: char) -> bool {
    ||| '\u{9}' <= c <= '\u{d}'
    ||| c == ' '
    ||| c == '\u{85}'
    ||| c == '\u{a0}'
    ||| c == '\u{1680}'
    ||| '\u{2000}' <= c <= '\u{200a}'
    ||| c == '\u{2028}'
    ||| c == '\u{2029}'
    ||| c == '\u{202f}'
    ||| c == '\u{205f}'
    ||| c == '\u{3000}'
}

/// A text without a word in it: every character is whitespace.
pub open spec fn is_blank(s: Seq<char>) -> bool {
    forall|i: int| 0 <= i < s.len() ==> is_whitespace(#[trigger] s[i])
}

/// A text that is one word, or the empty text: no character is whitespace.
pub open spec fn is_solid(s: Seq<char>) -> bool {
    forall|i: int| 0 <= i < s.len() ==> !is_whitespace(#[trigger] s[i])
}

/// The length of the word that `s` starts with: the number of characters
/// before the first whitespace, or all of them where there is none.
pub open spec fn word_len(s: Seq<char>) -> nat
    decreases s.len(),
{
    if s.len() == 0 || is_whitespace(s[0]) {
        0
    } else {
        1 + word_len(s.skip(1))
    }
}

/// The words of `s` in order: its maximal runs of characters that are not
/// whitespace.
pub open spec fn words(s: Seq<char>) -> Seq<Seq<char>>
    decreases s.len(),
    via words_terminates
{
    if s.len() == 0 {
        Seq::empty()
    } else if is_whitespace(s[0]) {
        words(s.skip(1))
    } else {
        seq![s.take(word_len(s) as int)] + words(s.skip(word_len(s) as int))
    }
}

#[via_fn]
proof fn words_terminates(s: Seq<char>) {
    lemma_word_len_bound(s);
}

/// Whether `c` separates words.
pub fn separates(c: char) -> (r: bool)
    ensures
        r == is_whitespace(c),
{
    ('\u{9}' <= c && c <= '\u{d}') || c == ' ' || c == '\u{85}' || c == '\u{a0}' || c
        == '\u{1680}' || ('\u{2000}' <= c && c <= '\u{200a}') || c == '\u{2028}' || c
        == '\u{2029}' || c == '\u{202f}' || c == '\u{205f}' || c == '\u{3000}'
}

/// Whether `line` has no word in it.
pub fn blank(line: &str) -> (r: bool)
    ensures
        r == is_blank(line@),
{
    for c in it: line.chars()
        invariant
            it.seq() == line@,
            forall|i: int| 0 <= i < it.index() ==> is_whitespace(#[trigger] line@[i]),
    {
        if !separates(c) {
            return false;
        }
    }
    true
}

/// Splits `line` into its words.
pub fn split_whitespace(line: &str) -> (out: Vec<String>)
    ensures
        out.deep_view() == words(line@),
{
    let mut out: Vec<String> = Vec::new();
    let mut word = String::new();
    assert(word@ + line@.skip(0) == line@);
    for c in it: line.chars()
        invariant
            it.seq() == line@,
            is_solid(word@),
            out.deep_view() + words(word@ + line@.skip(it.index())) == words(line@),
    {
        let ghost rest = line@.skip(it.index());
        let ghost tail = line@.skip(it.index() + 1);
        assert(rest.skip(1) == tail);
        if !separates(c) {
            let ghost before = word@;
            word.push(c);
            assert(word@ + tail == before + rest);
        } else if !word.as_str().is_empty() {
            proof {
                lemma_words_after_word(word@, rest);
            }
            out.push(word);
            word = String::new();
        }
    }
    if !word.as_str().is_empty() {
        proof {
            lemma_words_after_word(word@, Seq::empty());
        }
        out.push(word);
    }
    out
}

/// The first word ends within the text.
pub proof fn lemma_word_len_bound(s: Seq<char>)
    ensures
        word_len(s) <= s.len(),
        s.len() > 0 && !is_whitespace(s[0]) ==> word_len(s) > 0,
    decreases s.len(),
{
    if s.len() > 0 && !is_whitespace(s[0]) {
        lemma_word_len_bound(s.skip(1));
    }
}

/// A word `w` followed by `rest`, which is empty or starts with whitespace,
/// splits into `w` and the words of `rest`.
pub proof fn lemma_words_after_word(w: Seq<char>, rest: Seq<char>)
    requires
        w.len() > 0,
        is_solid(w),
        rest.len() == 0 || is_whitespace(rest[0]),
    ensures
        word_len(w + rest) == w.len(),
        words(w + rest) == seq![w] + words(rest),
{
    lemma_word_len_concat(w, rest);
    let s = w + rest;
    assert(s.take(w.len() as int) == w);
    assert(s.skip(w.len() as int) == rest);
}

/// A word followed by whitespace, or by nothing, ends where it ends.
proof fn lemma_word_len_concat(w: Seq<char>, rest: Seq<char>)
    requires
        is_solid(w),
        rest.len() == 0 || is_whitespace(rest[0]),
    ensures
        word_len(w + rest) == w.len(),
    decreases w.len(),
{
    if w.len() > 0 {
        assert((w + rest).skip(1) == w.skip(1) + rest);
        assert(is_solid(w.skip(1)));
        lemma_word_len_concat(w.skip(1), rest);
    }
}

/// Whitespace after a text does not change the word that the text starts
/// with.
proof fn lemma_word_len_before_whitespace(a: Seq<char>, rest: Seq<char>)
    requires
        rest.len() > 0,
        is_whitespace(rest[0]),
    ensures
        word_len(a + rest) == word_len(a),
    decreases a.len(),
{
    if a.len() > 0 && !is_whitespace(a[0]) {
        assert((a + rest).skip(1) == a.skip(1) + rest);
        lemma_word_len_before_whitespace(a.skip(1), rest);
    }
}

/// A whitespace character parts the words before it from the words after
/// it: the words of the whole are those of the one side, then those of the
/// other.
pub proof fn lemma_words_around_whitespace(a: Seq<char>, c: char, b: Seq<char>)
    requires
        is_whitespace(c),
    ensures
        words(a + seq![c] + b) == words(a) + words(b),
    decreases a.len(),
{
    let rest = seq![c] + b;
    let s = a + seq![c] + b;
    assert(s == a + rest);
    if a.len() == 0 {
        assert(s.skip(1) == b);
    } else if is_whitespace(a[0]) {
        assert(s.skip(1) == a.skip(1) + seq![c] + b);
        lemma_words_around_whitespace(a.skip(1), c, b);
    } else {
        let n = word_len(a) as int;
        lemma_word_len_bound(a);
        lemma_word_len_before_whitespace(a, rest);
        assert(s.take(n) == a.take(n));
        assert(s.skip(n) == a.skip(n) + seq![c] + b);
        lemma_words_around_whitespace(a.skip(n), c, b);
    }
}

/// A text without whitespace that has a character in it is its own one
/// word.
pub proof fn lemma_words_of_word(w: Seq<char>)
    requires
        w.len() > 0,
        is_solid(w),
    ensures
        words(w) == seq![w],
{
    lemma_words_after_word(w, Seq::empty());
}

/// The word that a text starts with has no whitespace in it.
proof fn lemma_first_word_is_solid(s: Seq<char>)
    ensures
        word_len(s) <= s.len(),
        is_solid(s.take(word_len(s) as int)),
    decreases s.len(),
{
    lemma_word_len_bound(s);
    if s.len() > 0 && !is_whitespace(s[0]) {
        lemma_first_word_is_solid(s.skip(1));
        let word = s.take(word_len(s) as int);
        let inner = s.skip(1).take(word_len(s.skip(1)) as int);
        assert forall|i: int| 0 <= i < word.len() implies !is_whitespace(#[trigger] word[i]) by {
            if i > 0 {
                assert(word[i] == inner[i - 1]);
            }
        }
    }
}

/// Every word has a character in it and no whitespace.
pub proof fn lemma_words_are_solid(s: Seq<char>)
    ensures
        forall|i: int|
            0 <= i < words(s).len() ==> (#[trigger] words(s)[i]).len() > 0 && is_solid(words(s)[i]),
    decreases s.len(),
{
    if s.len() > 0 && is_whitespace(s[0]) {
        lemma_words_are_solid(s.skip(1));
        assert(words(s) == words(s.skip(1)));
    } else if s.len() > 0 {
        let n = word_len(s) as int;
        lemma_first_word_is_solid(s);
        lemma_words_are_solid(s.skip(n));
        assert forall|i: int| 0 <= i < words(s).len() implies (#[trigger] words(s)[i]).len() > 0
            && is_solid(words(s)[i]) by {
            if i > 0 {
                assert(words(s)[i] == words(s.skip(n))[i - 1]);
            }
        }
    }
}

/// A text is blank exactly when it has no words.
pub proof fn lemma_blank_iff_no_words(s: Seq<char>)
    ensures
        is_blank(s) <==> words(s).len() == 0,
    decreases s.len(),
{
    if s.len() > 0 && is_whitespace(s[0]) {
        lemma_blank_iff_no_words(s.skip(1));
        if is_blank(s.skip(1)) {
            assert forall|i: int| 0 <= i < s.len() implies is_whitespace(#[trigger] s[i]) by {
                if i > 0 {
                    assert(s[i] == s.skip(1)[i - 1]);
                }
            }
        }
        if is_blank(s) {
            assert(is_blank(s.skip(1)));
        }
    } else if s.len() > 0 {
        lemma_word_len_bound(s);
    }
}

} // verus!
