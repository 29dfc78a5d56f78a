//! Splitting a text into its words.
//!
//! A word is a maximal run of characters that are not separators; a separator
//! is a character with the Unicode property White_Space. Runs of separators,
//! however long, lie between words and yield no empty word.

use vstd::prelude::*;
use vstd::slice::slice_subrange;

verus! {

/// Whether `c` separates words: the code points that carry the Unicode
/// property White_Space.
pub open spec fn is_space(c: char) -> bool {
    let u = c as u32;
    ||| 0x09 <= u <= 0x0D
    ||| u == 0x20
    ||| u == 0x85
    ||| u == 0xA0
    ||| u == 0x1680
    ||| 0x2000 <= u <= 0x200A
    ||| u == 0x2028
    ||| u == 0x2029
    ||| u == 0x202F
    ||| u == 0x205F
    ||| u == 0x3000
}

/// The length of the longest prefix of `s` that holds no separator.
pub open spec fn word_len(s: Seq<char>) -> nat
    decreases s.len(),
{
    if s.len() == 0 || is_space(s[0]) {
        0
    } else {
        1 + word_len(s.drop_first())
    }
}

/// The words of `s`, in the order in which they stand in it.
pub open spec fn words_of(s: Seq<char>) -> Seq<Seq<char>>
    decreases s.len(),
{
    if s.len() == 0 {
        Seq::empty()
    } else if is_space(s[0]) {
        words_of(s.drop_first())
    } else {
        proof {
            lemma_word_len_bound(s);
        }
        let n = word_len(s) as int;
        seq![s.take(n)] + words_of(s.skip(n))
    }
}

/// Whether `s` holds nothing but separators.
pub open spec fn is_blank(s: Seq<char>) -> bool {
    forall|i: int| 0 <= i < s.len() ==> is_space(#[trigger] s[i])
}

/// The first word of a text ends inside the text.
pub proof fn lemma_word_len_bound(s: Seq<char>)
    ensures
        word_len(s) <= s.len(),
        forall|i: int| 0 <= i < word_len(s) ==> !is_space(#[trigger] s[i]),
        word_len(s) < s.len() ==> is_space(s[word_len(s) as int]),
    decreases s.len(),
{
    if s.len() != 0 && !is_space(s[0]) {
        let t = s.drop_first();
        lemma_word_len_bound(t);
        assert forall|i: int| 0 <= i < word_len(s) implies !is_space(#[trigger] s[i]) by {
            if i > 0 {
                assert(s[i] == t[i - 1]);
            }
        }
    }
}

/// A text has no word exactly when it is blank: the empty text and a text of
/// separators alone are the texts without a word.
pub proof fn lemma_no_words_iff_blank(s: Seq<char>)
    ensures
        words_of(s).len() == 0 <==> is_blank(s),
    decreases s.len(),
{
    if s.len() > 0 && is_space(s[0]) {
        let t = s.drop_first();
        lemma_no_words_iff_blank(t);
        if is_blank(t) {
            assert forall|i: int| 0 <= i < s.len() implies is_space(#[trigger] s[i]) by {
                if i > 0 {
                    assert(s[i] == t[i - 1]);
                }
            }
        }
        if is_blank(s) {
            assert(forall|i: int| 0 <= i < t.len() ==> is_space(#[trigger] t[i]));
        }
    }
}

/// No word is empty and none holds a separator.
pub proof fn lemma_words_are_solid(s: Seq<char>, k: int)
    requires
        0 <= k < words_of(s).len(),
    ensures
        words_of(s)[k].len() > 0,
        forall|i: int| 0 <= i < words_of(s)[k].len() ==> !is_space(#[trigger] words_of(s)[k][i]),
    decreases s.len(),
{
    if is_space(s[0]) {
        lemma_words_are_solid(s.drop_first(), k);
    } else {
        lemma_word_len_bound(s);
        if k > 0 {
            lemma_words_are_solid(s.skip(word_len(s) as int), k - 1);
        }
    }
}

/// Tells a separator from a character of a word.
pub fn is_whitespace(c: char) -> (r: bool)
    ensures
        r == is_space(c),
{
    let u: u32 = c as u32;
    (0x09 <= u && u <= 0x0D) || u == 0x20 || u == 0x85 || u == 0xA0 || u == 0x1680 || (0x2000 <= u
        && u <= 0x200A) || u == 0x2028 || u == 0x2029 || u == 0x202F || u == 0x205F || u == 0x3000
}

/// The characters of `s`, one by one.
pub fn chars_of(s: &str) -> (r: Vec<char>)
    ensures
        r@ == s@,
{
    let mut v: Vec<char> = Vec::new();
    for c in it: s.chars()
        invariant
            v@ == it.seq().take(it.index() as int),
    {
        v.push(c);
    }
    v
}

/// `Iterator::collect` into a `String`, over the characters of the slice: the
/// string holds exactly those characters, in the same order. This is believed
/// of the standard library, not proved.
#[verifier::external_body]
pub(crate) fn string_of(chars: &[char]) -> (r: String)
    ensures
        r@ == chars@,
{
    chars.iter().collect()
}

/// The string made of `chars[from..to]`.
fn string_between(chars: &Vec<char>, from: usize, to: usize) -> (r: String)
    requires
        from <= to <= chars.len(),
    ensures
        r@ == chars@.subrange(from as int, to as int),
{
    string_of(slice_subrange(chars.as_slice(), from, to))
}

/// Splits `book` into its words.
pub fn text_process(book: &str) -> (words: Vec<String>)
    ensures
        words.deep_view() == words_of(book@),
{
    let chars = chars_of(book);
    let n: usize = chars.len();
    let mut words: Vec<String> = Vec::new();
    let mut i: usize = 0;
    assert(chars@.skip(0) == chars@);
    while i < n
        invariant
            n == chars.len(),
            i <= n,
            words.deep_view() + words_of(chars@.skip(i as int)) == words_of(chars@),
        decreases n - i,
    {
        let ghost rest = chars@.skip(i as int);
        if is_whitespace(chars[i]) {
            assert(rest.drop_first() == chars@.skip(i + 1));
            i += 1;
        } else {
            let mut j: usize = i + 1;
            assert(rest.drop_first() == chars@.skip(j as int));
            while j < n && !is_whitespace(chars[j])
                invariant
                    n == chars.len(),
                    i < j <= n,
                    (j - i) + word_len(chars@.skip(j as int)) == word_len(chars@.skip(i as int)),
                decreases n - j,
            {
                assert(chars@.skip(j as int).drop_first() == chars@.skip(j + 1));
                j += 1;
            }
            proof {
                assert(rest.take(j - i) == chars@.subrange(i as int, j as int));
                assert(rest.skip(j - i) == chars@.skip(j as int));
            }
            let word = string_between(&chars, i, j);
            words.push(word);
            i = j;
        }
    }
    words
}

} // verus!
