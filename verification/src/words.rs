//! How a line falls into words, and how words are joined again.

use crate::text::{chars_of, is_space, separates};
use vstd::prelude::*;
use vstd::string::StringExecFns;

verus! {

/// How many characters stand before the first separator of `s`.
pub open spec fn run_len(s: Seq<char>) -> nat
    decreases s.len(),
{
    if s.len() == 0 || is_space(s[0]) {
        0
    } else {
        1 + run_len(s.drop_first())
    }
}

/// The words of `s`: its maximal runs of characters that are no separators,
/// from left to right.
pub open spec fn words(s: Seq<char>) -> Seq<Seq<char>>
    decreases s.len(),
{
    if s.len() == 0 {
        Seq::empty()
    } else if is_space(s[0]) {
        words(s.drop_first())
    } else {
        let n = run_len(s);
        if n >= s.len() {
            seq![s]
        } else {
            seq![s.take(n as int)] + words(s.skip(n as int))
        }
    }
}

/// The words put together again, with one space between neighbours.
pub open spec fn joined(words: Seq<Seq<char>>) -> Seq<char>
    decreases words.len(),
{
    if words.len() == 0 {
        Seq::empty()
    } else if words.len() == 1 {
        words[0]
    } else {
        joined(words.drop_last()) + seq![' '] + words.last()
    }
}

/// A word: not empty, and free of separators.
pub open spec fn is_word(w: Seq<char>) -> bool {
    w.len() > 0 && forall|i: int| 0 <= i < w.len() ==> !is_space(#[trigger] w[i])
}

/// Blank: nothing but separators.
pub open spec fn is_blank(s: Seq<char>) -> bool {
    forall|i: int| 0 <= i < s.len() ==> is_space(#[trigger] s[i])
}

/// `s` without the separators at its start.
pub open spec fn trim_start(s: Seq<char>) -> Seq<char>
    decreases s.len(),
{
    if s.len() > 0 && is_space(s[0]) {
        trim_start(s.drop_first())
    } else {
        s
    }
}

/// `s` without the separators at its end.
pub open spec fn trim_end(s: Seq<char>) -> Seq<char>
    decreases s.len(),
{
    if s.len() > 0 && is_space(s.last()) {
        trim_end(s.drop_last())
    } else {
        s
    }
}

/// `s` without the separators around it.
pub open spec fn trimmed(s: Seq<char>) -> Seq<char> {
    trim_end(trim_start(s))
}

/// A run of characters that are no separators, closed by a separator or by
/// the end, is counted in full.
proof fn lemma_run_len(s: Seq<char>, n: int)
    requires
        0 <= n <= s.len(),
        forall|k: int| 0 <= k < n ==> !is_space(#[trigger] s[k]),
        n == s.len() || is_space(s[n]),
    ensures
        run_len(s) == n,
    decreases n,
{
    if n > 0 {
        let rest = s.drop_first();
        assert forall|k: int| 0 <= k < n - 1 implies !is_space(#[trigger] rest[k]) by {
            assert(rest[k] == s[k + 1]);
        }
        lemma_run_len(rest, n - 1);
    }
}

/// Behind a first word of `n` characters the words of the rest follow.
proof fn lemma_words_after_run(s: Seq<char>, n: int)
    requires
        0 < n <= s.len(),
        forall|k: int| 0 <= k < n ==> !is_space(#[trigger] s[k]),
        n == s.len() || is_space(s[n]),
    ensures
        words(s) == seq![s.take(n)] + words(s.skip(n)),
{
    lemma_run_len(s, n);
    if n == s.len() {
        assert(s.take(n) == s);
    }
}

/// The words of `line`, in order.
pub fn split_words(line: &str) -> (out: Vec<String>)
    ensures
        out.deep_view() == words(line@),
{
    let chars = chars_of(line);
    let n = chars.len();
    let mut out: Vec<String> = Vec::new();
    let mut i: usize = 0;
    assert(line@.skip(0) == line@);
    while i < n
        invariant
            i <= n,
            n == chars@.len(),
            chars@ == line@,
            words(line@) == out.deep_view() + words(line@.skip(i as int)),
        decreases n - i,
    {
        let ghost rest = line@.skip(i as int);
        if separates(chars[i]) {
            assert(rest.drop_first() == line@.skip(i + 1));
            i = i + 1;
        } else {
            let start = i;
            while i < n && !separates(chars[i])
                invariant
                    start <= i <= n,
                    n == chars@.len(),
                    forall|k: int| start <= k < i ==> !is_space(#[trigger] chars@[k]),
                decreases n - i,
            {
                i = i + 1;
            }
            let word = line.substring_char(start, i);
            let ghost before = out.deep_view();
            proof {
                lemma_words_after_run(rest, i - start);
                assert(rest.take(i - start) == line@.subrange(start as int, i as int));
                assert(rest.skip(i - start) == line@.skip(i as int));
            }
            out.push(String::from_str(word));
        }
    }
    out
}

/// The words joined by single spaces.
pub fn join_words(words: &Vec<String>) -> (text: String)
    ensures
        text@ == joined(words.deep_view()),
{
    let mut text = String::new();
    let mut i: usize = 0;
    let ghost all = words.deep_view();
    while i < words.len()
        invariant
            i <= words.len(),
            all == words.deep_view(),
            text@ == joined(all.take(i as int)),
        decreases words.len() - i,
    {
        proof {
            let next = all.take(i + 1);
            assert(next.drop_last() == all.take(i as int));
        }
        if i > 0 {
            proof {
                reveal_strlit(" ");
            }
            text.append(" ");
        }
        text.append(words[i].as_str());
        i = i + 1;
    }
    assert(all.take(i as int) == all);
    text
}

/// The run at the start of `s` lies within `s`, holds no separator, and
/// ends at a separator or at the end.
proof fn lemma_run_is_maximal(s: Seq<char>)
    ensures
        run_len(s) <= s.len(),
        forall|k: int| 0 <= k < run_len(s) ==> !is_space(#[trigger] s[k]),
        run_len(s) == s.len() || is_space(s[run_len(s) as int]),
    decreases s.len(),
{
    if s.len() > 0 && !is_space(s[0]) {
        let rest = s.drop_first();
        lemma_run_is_maximal(rest);
        assert forall|k: int| 0 <= k < run_len(s) implies !is_space(#[trigger] s[k]) by {
            if k > 0 {
                assert(s[k] == rest[k - 1]);
            }
        }
    }
}

/// Every word of a line is a word: not empty, and free of separators.
pub proof fn law_words_are_words(s: Seq<char>)
    ensures
        forall|i: int| 0 <= i < words(s).len() ==> is_word(#[trigger] words(s)[i]),
    decreases s.len(),
{
    if s.len() == 0 {
    } else if is_space(s[0]) {
        law_words_are_words(s.drop_first());
        assert(words(s) == words(s.drop_first()));
    } else {
        let n = run_len(s) as int;
        lemma_run_is_maximal(s);
        lemma_words_after_run(s, n);
        let first = s.take(n);
        let rest = words(s.skip(n));
        assert(is_word(first)) by {
            assert forall|k: int| 0 <= k < first.len() implies !is_space(#[trigger] first[k]) by {
                assert(first[k] == s[k]);
            }
        }
        law_words_are_words(s.skip(n));
        assert forall|i: int| 0 <= i < words(s).len() implies is_word(#[trigger] words(s)[i]) by {
            if i > 0 {
                assert(words(s)[i] == rest[i - 1]);
            }
        }
    }
}

/// A line has no word if and only if it is blank.
pub proof fn law_no_words_iff_blank(s: Seq<char>)
    ensures
        words(s).len() == 0 <==> is_blank(s),
    decreases s.len(),
{
    if s.len() > 0 {
        if is_space(s[0]) {
            let rest = s.drop_first();
            law_no_words_iff_blank(rest);
            if is_blank(rest) {
                assert forall|i: int| 0 <= i < s.len() implies is_space(#[trigger] s[i]) by {
                    if i > 0 {
                        assert(s[i] == rest[i - 1]);
                    }
                }
            } else {
                let i = choose|i: int| 0 <= i < rest.len() && !is_space(#[trigger] rest[i]);
                assert(s[i + 1] == rest[i]);
            }
        }
    }
}

/// A word is the one word of itself.
pub proof fn law_word_is_its_only_word(w: Seq<char>)
    requires
        is_word(w),
    ensures
        words(w) == seq![w],
{
    lemma_run_len(w, w.len() as int);
}

/// A separator at the end of a line adds no word.
proof fn lemma_words_push_space(s: Seq<char>, c: char)
    requires
        is_space(c),
    ensures
        words(s.push(c)) == words(s),
    decreases s.len(),
{
    let longer = s.push(c);
    if s.len() == 0 {
        assert(longer.drop_first() == s);
    } else if is_space(s[0]) {
        assert(longer.drop_first() == s.drop_first().push(c));
        lemma_words_push_space(s.drop_first(), c);
    } else {
        let n = run_len(s) as int;
        lemma_run_is_maximal(s);
        assert forall|k: int| 0 <= k < n implies !is_space(#[trigger] longer[k]) by {
            assert(longer[k] == s[k]);
        }
        lemma_words_after_run(longer, n);
        assert(longer.take(n) == s.take(n));
        assert(longer.skip(n) == s.skip(n).push(c));
        lemma_words_push_space(s.skip(n), c);
        lemma_words_after_run(s, n);
    }
}

/// The separators at the start of a line add no word.
proof fn lemma_trim_start_keeps_words(s: Seq<char>)
    ensures
        words(trim_start(s)) == words(s),
        trim_start(s).len() == 0 || !is_space(trim_start(s)[0]),
        is_blank(s) <==> trim_start(s).len() == 0,
    decreases s.len(),
{
    if s.len() > 0 && is_space(s[0]) {
        let rest = s.drop_first();
        lemma_trim_start_keeps_words(rest);
        if is_blank(rest) {
            assert forall|i: int| 0 <= i < s.len() implies is_space(#[trigger] s[i]) by {
                if i > 0 {
                    assert(s[i] == rest[i - 1]);
                }
            }
        } else {
            let i = choose|i: int| 0 <= i < rest.len() && !is_space(#[trigger] rest[i]);
            assert(s[i + 1] == rest[i]);
        }
    }
}

/// The separators at the end of a line add no word, and taking them off
/// leaves the start of the line as it is.
proof fn lemma_trim_end_keeps_words(s: Seq<char>)
    ensures
        words(trim_end(s)) == words(s),
        s.len() > 0 && !is_space(s[0]) ==> trim_end(s).len() > 0,
    decreases s.len(),
{
    if s.len() > 0 && is_space(s.last()) {
        let rest = s.drop_last();
        lemma_trim_end_keeps_words(rest);
        assert(rest.push(s.last()) == s);
        lemma_words_push_space(rest, s.last());
    }
}

/// To trim a line first and split it then gives the words of the line, and
/// the trimmed line is empty if and only if the line has no word.
pub proof fn law_trimming_keeps_words(s: Seq<char>)
    ensures
        words(trimmed(s)) == words(s),
        trimmed(s).len() == 0 <==> words(s).len() == 0,
{
    lemma_trim_start_keeps_words(s);
    lemma_trim_end_keeps_words(trim_start(s));
    law_no_words_iff_blank(s);
}

/// A word behind a line and a space is one more word of the line.
proof fn lemma_words_append_word(s: Seq<char>, w: Seq<char>)
    requires
        is_word(w),
    ensures
        words(s.push(' ') + w) == words(s).push(w),
    decreases s.len(),
{
    let longer = s.push(' ') + w;
    if s.len() == 0 {
        assert(longer.drop_first() == w);
        law_word_is_its_only_word(w);
    } else if is_space(s[0]) {
        assert(longer.drop_first() == s.drop_first().push(' ') + w);
        lemma_words_append_word(s.drop_first(), w);
    } else {
        let n = run_len(s) as int;
        lemma_run_is_maximal(s);
        assert forall|k: int| 0 <= k < n implies !is_space(#[trigger] longer[k]) by {
            assert(longer[k] == s[k]);
        }
        assert(is_space(longer[n]));
        lemma_words_after_run(longer, n);
        assert(longer.take(n) == s.take(n));
        assert(longer.skip(n) == s.skip(n).push(' ') + w);
        lemma_words_append_word(s.skip(n), w);
        lemma_words_after_run(s, n);
        assert(seq![s.take(n)] + words(s.skip(n)).push(w) == (seq![s.take(n)] + words(
            s.skip(n),
        )).push(w));
    }
}

/// Words that are joined by single spaces and split again are the same
/// words.
pub proof fn law_joined_words_split_back(list: Seq<Seq<char>>)
    requires
        forall|i: int| 0 <= i < list.len() ==> is_word(#[trigger] list[i]),
    ensures
        words(joined(list)) == list,
    decreases list.len(),
{
    if list.len() == 0 {
    } else if list.len() == 1 {
        law_word_is_its_only_word(list[0]);
    } else {
        let before = list.drop_last();
        assert forall|i: int| 0 <= i < before.len() implies is_word(#[trigger] before[i]) by {
            assert(before[i] == list[i]);
        }
        law_joined_words_split_back(before);
        lemma_words_append_word(joined(before), list.last());
        assert(joined(before) + seq![' '] + list.last() == joined(before).push(' ') + list.last());
    }
}

} // verus!
