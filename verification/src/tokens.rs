//! Cutting a line into tokens.
//!
//! A token is a maximal run of characters that are not white space. There is
//! no quoting: white space always separates.

use vstd::prelude::*;
use crate::text::{chars_of, is_space, is_whitespace, lemma_text_end, lemma_word_end,
    lemma_word_start, text_end, texts, trimmed, word_end, word_start};

verus! {

/// The tokens of `s` that begin at or after index `i`, from left to right.
pub open spec fn tokens_from(s: Seq<char>, i: int) -> Seq<Seq<char>>
    decreases s.len() - i,
{
    if 0 <= i <= s.len() {
        let from = word_start(s, i);
        if from < s.len() {
            let to = word_end(s, from + 1);
            proof {
                lemma_word_start(s, i);
                lemma_word_end(s, from + 1);
            }
            seq![s.subrange(from, to)] + tokens_from(s, to)
        } else {
            Seq::empty()
        }
    } else {
        Seq::empty()
    }
}

/// The tokens of a line.
pub open spec fn tokens_of(s: Seq<char>) -> Seq<Seq<char>> {
    tokens_from(s, 0)
}

/// What a token is: at least one character, none of them white space.
pub open spec fn is_word(w: Seq<char>) -> bool {
    &&& w.len() > 0
    &&& forall|k: int| 0 <= k < w.len() ==> !is_space(#[trigger] w[k])
}

/// Every token from index `i` on is a word.
proof fn lemma_tokens_from_are_words(s: Seq<char>, i: int)
    requires
        0 <= i <= s.len(),
    ensures
        forall|k: int|
            0 <= k < tokens_from(s, i).len() ==> is_word(#[trigger] tokens_from(s, i)[k]),
    decreases s.len() - i,
{
    lemma_word_start(s, i);
    let from = word_start(s, i);
    if from < s.len() {
        lemma_word_end(s, from + 1);
        let to = word_end(s, from + 1);
        lemma_tokens_from_are_words(s, to);
        let first = s.subrange(from, to);
        assert forall|k: int| 0 <= k < first.len() implies !is_space(#[trigger] first[k]) by {
            assert(first[k] == s[from + k]);
        }
        assert(is_word(first));
        assert forall|k: int| 0 <= k < tokens_from(s, i).len() implies is_word(
            #[trigger] tokens_from(s, i)[k],
        ) by {
            if k > 0 {
                assert(tokens_from(s, i)[k] == tokens_from(s, to)[k - 1]);
            }
        }
    }
}

/// Every token is a word: it is not empty and holds no white space.
pub proof fn lemma_tokens_are_words(s: Seq<char>)
    ensures
        forall|k: int| 0 <= k < tokens_of(s).len() ==> is_word(#[trigger] tokens_of(s)[k]),
{
    lemma_tokens_from_are_words(s, 0);
}

/// Inside a window of `s` that ends where white space begins, words start
/// where they start in `s`.
proof fn lemma_word_start_in_window(s: Seq<char>, a: int, b: int, i: int)
    requires
        0 <= a <= i <= b <= s.len(),
    ensures
        word_start(s.subrange(a, b), i - a) == if word_start(s, i) < b {
            word_start(s, i) - a
        } else {
            b - a
        },
    decreases b - i,
{
    let t = s.subrange(a, b);
    lemma_word_start(s, i);
    if i < b {
        assert(t[i - a] == s[i]);
        if is_space(s[i]) {
            lemma_word_start_in_window(s, a, b, i + 1);
        }
    }
}

/// Inside a window of `s`, words end where they end in `s`, or at the end
/// of the window.
proof fn lemma_word_end_in_window(s: Seq<char>, a: int, b: int, i: int)
    requires
        0 <= a <= i <= b <= s.len(),
    ensures
        word_end(s.subrange(a, b), i - a) == if word_end(s, i) < b {
            word_end(s, i) - a
        } else {
            b - a
        },
    decreases b - i,
{
    let t = s.subrange(a, b);
    lemma_word_end(s, i);
    if i < b {
        assert(t[i - a] == s[i]);
        if !is_space(s[i]) {
            lemma_word_end_in_window(s, a, b, i + 1);
        }
    }
}

/// A window of `s` that is followed by white space alone holds, from any
/// index on, the tokens that `s` holds from there on.
proof fn lemma_tokens_in_window(s: Seq<char>, a: int, b: int, i: int)
    requires
        0 <= a <= i <= b <= s.len(),
        forall|k: int| b <= k < s.len() ==> is_space(#[trigger] s[k]),
    ensures
        tokens_from(s.subrange(a, b), i - a) == tokens_from(s, i),
    decreases b - i,
{
    let t = s.subrange(a, b);
    lemma_word_start(s, i);
    lemma_word_start_in_window(s, a, b, i);
    let from = word_start(s, i);
    if from < b {
        lemma_word_end(s, from + 1);
        lemma_word_end_in_window(s, a, b, from + 1);
        let to = word_end(s, from + 1);
        if to > b {
            assert(is_space(s[b]));
        }
        lemma_tokens_in_window(s, a, b, to);
        assert(t.subrange(from - a, to - a) =~= s.subrange(from, to));
    } else if from < s.len() {
        assert(is_space(s[from]));
    }
}

/// The white space around a line adds no token and changes none.
pub proof fn lemma_tokens_of_trimmed(s: Seq<char>)
    ensures
        tokens_of(trimmed(s)) == tokens_of(s),
{
    let a = word_start(s, 0);
    let b = text_end(s, s.len() as int);
    lemma_word_start(s, 0);
    lemma_text_end(s, s.len() as int);
    if a < b {
        lemma_word_start(s, a);
        assert(word_start(s, a) == a);
        assert(tokens_from(s, 0) == tokens_from(s, a));
        lemma_tokens_in_window(s, a, b, a);
    } else if a < s.len() {
        assert(is_space(s[a]));
    }
}

/// A line that has a token begins, once trimmed, with its first token, and
/// either ends there or goes on with white space.
pub proof fn lemma_first_token_leads(s: Seq<char>)
    requires
        tokens_of(s).len() > 0,
    ensures
        tokens_of(s)[0].len() <= trimmed(s).len(),
        trimmed(s).take(tokens_of(s)[0].len() as int) == tokens_of(s)[0],
        tokens_of(s)[0].len() < trimmed(s).len() ==> is_space(
            trimmed(s)[tokens_of(s)[0].len() as int],
        ),
{
    let a = word_start(s, 0);
    let b = text_end(s, s.len() as int);
    lemma_word_start(s, 0);
    lemma_text_end(s, s.len() as int);
    lemma_word_end(s, a + 1);
    let to = word_end(s, a + 1);
    assert(a < b) by {
        if a >= b {
            assert(is_space(s[a]));
        }
    }
    assert(to <= b) by {
        if to > b {
            assert(is_space(s[b]));
        }
    }
    let t = s.subrange(a, b);
    assert(t.take(to - a) =~= s.subrange(a, to));
    if to < b {
        assert(t[to - a] == s[to]);
    }
}

/// Cuts `line` into its tokens.
pub fn tokenize<'a>(line: &'a str) -> (tokens: Vec<&'a str>)
    ensures
        texts(tokens@) == tokens_of(line@),
{
    let chars = chars_of(line);
    let n = chars.len();
    let mut tokens: Vec<&'a str> = Vec::new();
    let mut i: usize = 0;
    loop
        invariant
            chars@ == line@,
            n == chars@.len(),
            i <= n,
            texts(tokens@) + tokens_from(line@, i as int) == tokens_of(line@),
        ensures
            texts(tokens@) == tokens_of(line@),
        decreases n - i,
    {
        let ghost start = i;
        while i < n && is_whitespace(chars[i])
            invariant
                n == chars@.len(),
                start <= i <= n,
                word_start(chars@, i as int) == word_start(chars@, start as int),
            decreases n - i,
        {
            i += 1;
        }
        if i >= n {
            proof {
                assert(tokens_from(line@, start as int) =~= Seq::<Seq<char>>::empty());
                assert(texts(tokens@) + Seq::<Seq<char>>::empty() =~= texts(tokens@));
            }
            break;
        }
        let from = i;
        i += 1;
        while i < n && !is_whitespace(chars[i])
            invariant
                n == chars@.len(),
                from < i <= n,
                word_end(chars@, i as int) == word_end(chars@, from + 1),
            decreases n - i,
        {
            i += 1;
        }
        let token = line.substring_char(from, i);
        proof {
            let before = texts(tokens@);
            let rest = tokens_from(line@, i as int);
            assert(tokens_from(line@, start as int) == seq![token@] + rest);
            assert(texts(tokens@.push(token)) =~= before.push(token@));
            assert(before.push(token@) + rest =~= before + (seq![token@] + rest));
        }
        tokens.push(token);
    }
    tokens
}

} // verus!
