//! The tokenizer: split the source text on whitespace, then strip each
//! chunk down to its alphanumeric characters.
//!
//! A chunk made entirely of punctuation becomes the empty token; it is kept,
//! not dropped, because display simply renders whatever string results. An
//! all-whitespace text yields no tokens at all.

use vstd::prelude::*;

use crate::strutil::push_char;

verus! {

/// Whether `char::is_whitespace` holds of a character: the Unicode
/// `White_Space` property, which only that function decides here.
pub uninterp spec fn is_whitespace_char(c: char) -> bool;

/// Whether `char::is_alphanumeric` holds of a character: the Unicode
/// alphabetic and numeric categories, which only that function decides here.
pub uninterp spec fn is_alphanumeric_char(c: char) -> bool;

/// Relies on char::is_whitespace: true exactly of characters with the
/// Unicode `White_Space` property, a function of the character alone.
pub assume_specification[ char::is_whitespace ](c: char) -> (r: bool)
    ensures
        r == is_whitespace_char(c),
;

/// Relies on char::is_alphanumeric: true exactly of characters in the
/// Unicode alphabetic and numeric categories, a function of the character
/// alone.
pub assume_specification[ char::is_alphanumeric ](c: char) -> (r: bool)
    ensures
        r == is_alphanumeric_char(c),
;

/// The alphanumeric characters of a chunk, in order.
pub open spec fn spec_filter_alnum(s: Seq<char>) -> Seq<char> {
    s.filter(|c: char| is_alphanumeric_char(c))
}

/// The position just past the whitespace-free run that starts at `i`: the
/// first position at or after `i` holding whitespace, or the text's end.
pub open spec fn spec_word_end(s: Seq<char>, i: int) -> int
    decreases s.len() - i,
    when 0 <= i <= s.len()
{
    if i >= s.len() || is_whitespace_char(s[i]) {
        i
    } else {
        spec_word_end(s, i + 1)
    }
}

/// Where the whitespace-free run starting at `i` ends: no whitespace before
/// it, whitespace (or the text's end) at it.
pub proof fn lemma_word_end(s: Seq<char>, i: int)
    requires
        0 <= i <= s.len(),
    ensures
        i <= spec_word_end(s, i) <= s.len(),
        forall|k: int| i <= k < spec_word_end(s, i) ==> !is_whitespace_char(s[k]),
        spec_word_end(s, i) < s.len() ==> is_whitespace_char(s[spec_word_end(s, i)]),
        i < s.len() && !is_whitespace_char(s[i]) ==> spec_word_end(s, i) > i,
    decreases s.len() - i,
{
    if i < s.len() && !is_whitespace_char(s[i]) {
        lemma_word_end(s, i + 1);
    }
}

/// The only position that ends a whitespace-free run from `i` is
/// `spec_word_end(s, i)`.
pub proof fn lemma_word_end_unique(s: Seq<char>, i: int, b: int)
    requires
        0 <= i <= b <= s.len(),
        forall|k: int| i <= k < b ==> !is_whitespace_char(s[k]),
        b < s.len() ==> is_whitespace_char(s[b]),
    ensures
        b == spec_word_end(s, i),
    decreases b - i,
{
    if i < b {
        assert(!is_whitespace_char(s[i]));
        lemma_word_end_unique(s, i + 1, b);
    }
}

#[via_fn]
proof fn spec_tokenize_from_decreases(s: Seq<char>, i: int) {
    if 0 <= i <= s.len() {
        lemma_word_end(s, i);
    }
}

/// The tokens of the text from position `i` on: skip whitespace; at each
/// whitespace-free chunk, keep its alphanumeric characters as one token.
pub open spec fn spec_tokenize_from(s: Seq<char>, i: int) -> Seq<Seq<char>>
    decreases s.len() - i,
    when 0 <= i <= s.len()
    via spec_tokenize_from_decreases
{
    if i >= s.len() {
        Seq::empty()
    } else if is_whitespace_char(s[i]) {
        spec_tokenize_from(s, i + 1)
    } else {
        seq![spec_filter_alnum(s.subrange(i, spec_word_end(s, i)))] + spec_tokenize_from(
            s,
            spec_word_end(s, i),
        )
    }
}

/// The tokens of a whole text.
pub open spec fn spec_tokenize(s: Seq<char>) -> Seq<Seq<char>> {
    spec_tokenize_from(s, 0)
}

/// Whether position `k` starts a whitespace-delimited chunk: it holds a
/// non-whitespace character and is the text's start or preceded by
/// whitespace.
pub open spec fn spec_is_chunk_start(s: Seq<char>, k: int) -> bool {
    &&& 0 <= k < s.len()
    &&& !is_whitespace_char(s[k])
    &&& (k == 0 || is_whitespace_char(s[k - 1]))
}

/// How many chunk starts lie at or after position `i`.
pub open spec fn spec_chunk_starts_from(s: Seq<char>, i: int) -> nat
    decreases s.len() - i,
    when 0 <= i <= s.len()
{
    if i >= s.len() {
        0
    } else if spec_is_chunk_start(s, i) {
        1 + spec_chunk_starts_from(s, i + 1)
    } else {
        spec_chunk_starts_from(s, i + 1)
    }
}

/// How many whitespace-delimited chunks the text has.
pub open spec fn spec_chunk_count(s: Seq<char>) -> nat {
    spec_chunk_starts_from(s, 0)
}

/// No position strictly inside or just past a whitespace-free run starts a
/// chunk, so the count of chunk starts is unchanged across the run.
proof fn lemma_no_starts_inside_word(s: Seq<char>, i: int, e: int)
    requires
        0 <= i < e <= s.len(),
        forall|k: int| i <= k < e ==> !is_whitespace_char(s[k]),
    ensures
        spec_chunk_starts_from(s, i + 1) == spec_chunk_starts_from(s, e),
    decreases e - i,
{
    if i + 1 < e {
        assert(!spec_is_chunk_start(s, i + 1));
        lemma_no_starts_inside_word(s, i + 1, e);
    }
}

/// One token is produced for each whitespace-delimited chunk: from any
/// position not strictly inside a chunk, the tokens that remain are exactly
/// as many as the chunk starts that remain.
pub proof fn lemma_token_count_from(s: Seq<char>, i: int)
    requires
        0 <= i <= s.len(),
        i == 0 || is_whitespace_char(s[i - 1]) || (i < s.len() && is_whitespace_char(s[i])),
    ensures
        spec_tokenize_from(s, i).len() == spec_chunk_starts_from(s, i),
    decreases s.len() - i,
{
    if i < s.len() {
        if is_whitespace_char(s[i]) {
            assert(!spec_is_chunk_start(s, i));
            lemma_token_count_from(s, i + 1);
        } else {
            assert(spec_is_chunk_start(s, i));
            let e = spec_word_end(s, i);
            lemma_word_end(s, i);
            if e < s.len() {
                lemma_token_count_from(s, e);
            } else {
                assert(spec_tokenize_from(s, e).len() == 0);
                assert(spec_chunk_starts_from(s, e) == 0);
            }
            lemma_no_starts_inside_word(s, i, e);
        }
    }
}

/// The number of tokens equals the number of whitespace-delimited chunks.
pub proof fn lemma_token_count(s: Seq<char>)
    ensures
        spec_tokenize(s).len() == spec_chunk_count(s),
{
    lemma_token_count_from(s, 0);
}

/// Every character of every token is alphanumeric.
pub proof fn lemma_tokens_alphanumeric(s: Seq<char>)
    ensures
        forall|t: int, k: int|
            0 <= t < spec_tokenize(s).len() && 0 <= k < spec_tokenize(s)[t].len()
                ==> is_alphanumeric_char(#[trigger] spec_tokenize(s)[t][k]),
{
    lemma_tokens_alphanumeric_from(s, 0);
}

proof fn lemma_tokens_alphanumeric_from(s: Seq<char>, i: int)
    requires
        0 <= i <= s.len(),
    ensures
        forall|t: int, k: int|
            0 <= t < spec_tokenize_from(s, i).len() && 0 <= k < spec_tokenize_from(s, i)[t].len()
                ==> is_alphanumeric_char(#[trigger] spec_tokenize_from(s, i)[t][k]),
    decreases s.len() - i,
{
    broadcast use vstd::seq_lib::group_filter_ensures;

    if i < s.len() {
        if is_whitespace_char(s[i]) {
            lemma_tokens_alphanumeric_from(s, i + 1);
            let toks = spec_tokenize_from(s, i);
            assert(toks == spec_tokenize_from(s, i + 1));
            assert forall|t: int, k: int|
                0 <= t < toks.len() && 0 <= k < toks[t].len() implies is_alphanumeric_char(
                #[trigger] toks[t][k],
            ) by {
                assert(toks[t][k] == spec_tokenize_from(s, i + 1)[t][k]);
            }
        } else {
            let e = spec_word_end(s, i);
            lemma_word_end(s, i);
            lemma_tokens_alphanumeric_from(s, e);
            let word = spec_filter_alnum(s.subrange(i, e));
            let toks = spec_tokenize_from(s, i);
            let rest = spec_tokenize_from(s, e);
            assert(toks == seq![word] + rest);
            assert forall|t: int, k: int|
                0 <= t < toks.len() && 0 <= k < toks[t].len() implies is_alphanumeric_char(
                #[trigger] toks[t][k],
            ) by {
                if t == 0 {
                    assert(toks[0] == word);
                    assert(is_alphanumeric_char(word[k]));
                } else {
                    assert(toks[t] == rest[t - 1]);
                }
            }
        }
    }
}

/// An all-whitespace text — and so an empty one — yields no tokens.
pub proof fn lemma_all_whitespace_empty(s: Seq<char>)
    requires
        forall|k: int| 0 <= k < s.len() ==> is_whitespace_char(#[trigger] s[k]),
    ensures
        spec_tokenize(s).len() == 0,
{
    lemma_all_whitespace_empty_from(s, 0);
}

proof fn lemma_all_whitespace_empty_from(s: Seq<char>, i: int)
    requires
        0 <= i <= s.len(),
        forall|k: int| 0 <= k < s.len() ==> is_whitespace_char(#[trigger] s[k]),
    ensures
        spec_tokenize_from(s, i).len() == 0,
    decreases s.len() - i,
{
    if i < s.len() {
        lemma_all_whitespace_empty_from(s, i + 1);
    }
}

/// Whether the character at position `j` of the text is whitespace.
fn whitespace_at(text: &str, j: usize) -> (b: bool)
    requires
        j < text@.len(),
    ensures
        b == is_whitespace_char(text@[j as int]),
{
    text.get_char(j).is_whitespace()
}

/// Split the text into display tokens: one per whitespace-delimited chunk,
/// each stripped down to its alphanumeric characters.
pub fn tokenize_text(text: &str) -> (tokens: Vec<String>)
    ensures
        tokens.deep_view() == spec_tokenize(text@),
{
    let n = text.unicode_len();
    let mut tokens: Vec<String> = Vec::new();
    let mut i: usize = 0;
    while i < n
        invariant
            n == text@.len(),
            i <= n,
            spec_tokenize(text@) == tokens.deep_view() + spec_tokenize_from(text@, i as int),
        decreases n - i,
    {
        if whitespace_at(text, i) {
            i = i + 1;
        } else {
            let ghost word_end = spec_word_end(text@, i as int);
            proof {
                lemma_word_end(text@, i as int);
            }
            let mut word = String::new();
            let mut j: usize = i;
            proof {
                assert(text@.subrange(i as int, i as int) =~= Seq::<char>::empty());
                assert(spec_filter_alnum(Seq::<char>::empty()) =~= Seq::<char>::empty()) by {
                    reveal(Seq::filter);
                }
            }
            while j < n && !whitespace_at(text, j)
                invariant
                    n == text@.len(),
                    i <= j <= n,
                    forall|k: int| i <= k < j ==> !is_whitespace_char(text@[k]),
                    word@ == spec_filter_alnum(text@.subrange(i as int, j as int)),
                decreases n - j,
            {
                let c = text.get_char(j);
                proof {
                    let prefix = text@.subrange(i as int, j as int);
                    let extended = text@.subrange(i as int, j as int + 1);
                    assert(extended.drop_last() =~= prefix);
                    assert(extended.last() == c);
                    reveal(Seq::filter);
                }
                if c.is_alphanumeric() {
                    push_char(&mut word, c);
                }
                j = j + 1;
            }
            proof {
                lemma_word_end_unique(text@, i as int, j as int);
            }
            tokens.push(word);
            proof {
                assert(tokens.deep_view() =~= tokens.deep_view().subrange(
                    0,
                    tokens.deep_view().len() - 1,
                ).push(word@));
                assert(spec_tokenize_from(text@, i as int) == seq![word@] + spec_tokenize_from(
                    text@,
                    j as int,
                ));
                assert(tokens.deep_view() + spec_tokenize_from(text@, j as int)
                    =~= tokens.deep_view().subrange(0, tokens.deep_view().len() - 1) + (seq![word@]
                    + spec_tokenize_from(text@, j as int)));
            }
            i = j;
        }
    }
    proof {
        assert(spec_tokenize_from(text@, n as int) =~= Seq::<Seq<char>>::empty());
        assert(tokens.deep_view() + Seq::<Seq<char>>::empty() =~= tokens.deep_view());
    }
    tokens
}

} // verus!
