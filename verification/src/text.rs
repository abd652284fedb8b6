//! Word-level text analysis for enriched search results: the estimated
//! reading time of an article and its short summary.
//!
//! Both are functions of the whitespace-delimited words of the text, named
//! `words_of` and produced by the standard splitter behind a trusted
//! wrapper.

use vstd::prelude::*;
use vstd::string::StringExecFns;

verus! {

/// Number of words a summary keeps before it is cut off.
pub const SUMMARY_WORD_LIMIT: usize = 50;

/// Words read per minute underlying the reading-time estimate.
pub const WORDS_PER_MINUTE: usize = 100;

/// The whitespace-delimited words of a text, in order.
pub uninterp spec fn words_of(s: Seq<char>) -> Seq<Seq<char>>;

/// Relies on str::split_whitespace: the whitespace-delimited words of the
/// text, in order. The word sequence depends on the characters alone.
#[verifier::external_body]
fn split_words(s: &str) -> (r: Vec<String>)
    ensures
        r.deep_view() == words_of(s@),
{
    s.split_whitespace().map(|w| w.to_string()).collect()
}

/// How many whitespace-delimited words the text holds.
pub fn word_count(content: &str) -> (n: usize)
    ensures
        n == words_of(content@).len(),
{
    let words = split_words(content);
    words.len()
}

/// Estimated minutes to read `n` words: one minute per hundred words,
/// rounded down, and never below one.
pub open spec fn reading_time_spec(n: nat) -> nat {
    let q = n / (WORDS_PER_MINUTE as nat);
    if q == 0 {
        1
    } else if q > u32::MAX {
        u32::MAX as nat
    } else {
        q
    }
}

/// Estimated minutes to read the text, from its word count.
pub fn reading_time(content: &str) -> (r: u32)
    ensures
        r as nat == reading_time_spec(words_of(content@).len()),
{
    let n = word_count(content);
    let q = n / WORDS_PER_MINUTE;
    if q == 0 {
        1
    } else if q > u32::MAX as usize {
        u32::MAX
    } else {
        q as u32
    }
}

/// The words joined by single spaces.
pub open spec fn join_words(ws: Seq<Seq<char>>) -> Seq<char>
    decreases ws.len(),
{
    if ws.len() == 0 {
        Seq::empty()
    } else if ws.len() == 1 {
        ws[0]
    } else {
        join_words(ws.drop_last()) + " "@ + ws.last()
    }
}

/// The summary of a word sequence: all words space-joined when there are at
/// most `SUMMARY_WORD_LIMIT` of them, otherwise the first
/// `SUMMARY_WORD_LIMIT` space-joined with a trailing ellipsis.
pub open spec fn summary_spec(ws: Seq<Seq<char>>) -> Seq<char> {
    if ws.len() <= SUMMARY_WORD_LIMIT {
        join_words(ws)
    } else {
        join_words(ws.take(SUMMARY_WORD_LIMIT as int)) + "..."@
    }
}

/// Summarize the text: its first `SUMMARY_WORD_LIMIT` words space-joined,
/// with `...` appended exactly when the text has more words than that.
pub fn generate_summary(content: &str) -> (r: String)
    ensures
        r@ == summary_spec(words_of(content@)),
{
    let ghost ws = words_of(content@);
    let words = split_words(content);
    let n = words.len();
    let take_n = if n > SUMMARY_WORD_LIMIT {
        SUMMARY_WORD_LIMIT
    } else {
        n
    };
    let mut s = String::new();
    let mut i: usize = 0;
    proof {
        assert(ws.take(0) =~= Seq::<Seq<char>>::empty());
    }
    while i < take_n
        invariant
            0 <= i <= take_n,
            take_n <= n,
            n == ws.len(),
            take_n == if n > SUMMARY_WORD_LIMIT {
                SUMMARY_WORD_LIMIT as int
            } else {
                n as int
            },
            words.deep_view() == ws,
            words@.len() == n,
            s@ == join_words(ws.take(i as int)),
        decreases take_n - i,
    {
        proof {
            assert(words.deep_view()[i as int] == words@[i as int]@);
        }
        if i > 0 {
            s.append(" ");
        }
        s.append(words[i].as_str());
        proof {
            if i == 0 {
                assert(ws.take(1).len() == 1);
                assert(ws.take(1)[0] == ws[0]);
            } else {
                assert(ws.take(i + 1).drop_last() =~= ws.take(i as int));
                assert(ws.take(i + 1).last() == ws[i as int]);
            }
        }
        i = i + 1;
    }
    if n > SUMMARY_WORD_LIMIT {
        s.append("...");
    } else {
        proof {
            assert(ws.take(n as int) =~= ws);
        }
    }
    s
}

} // verus!
