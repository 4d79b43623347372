//! Core of a terminal front-end for an external package manager: a
//! task-slot pool that runs at most one cancellable worker per command
//! kind, a process-runner protocol that drains a child's output without
//! leaking reader threads, and the command syntax of the Homebrew backend.

pub mod commands;
pub mod package_manager;
pub mod state;
pub mod task_manager;
pub mod widget;
pub mod worker;

use vstd::prelude::*;

verus! {

/// Edit distance between two character sequences: the least number of
/// single-character insertions, deletions and substitutions turning one
/// into the other, computed here by the classic recurrence on suffixes.
pub open spec fn lev(s: Seq<char>, t: Seq<char>) -> nat
    decreases s.len() + t.len(),
{
    if s.len() == 0 {
        t.len()
    } else if t.len() == 0 {
        s.len()
    } else {
        let cost: nat = if s.last() == t.last() {
            0
        } else {
            1
        };
        min3(
            lev(s.drop_last(), t) + 1,
            lev(s, t.drop_last()) + 1,
            lev(s.drop_last(), t.drop_last()) + cost,
        )
    }
}

pub open spec fn min3(a: nat, b: nat, c: nat) -> nat {
    if a <= b && a <= c {
        a
    } else if b <= c {
        b
    } else {
        c
    }
}

/// The edit distance never exceeds the two lengths put together.
pub proof fn lemma_lev_bound(s: Seq<char>, t: Seq<char>)
    ensures
        lev(s, t) <= s.len() + t.len(),
    decreases s.len() + t.len(),
{
    if s.len() == 0 || t.len() == 0 {
    } else {
        lemma_lev_bound(s.drop_last(), t);
        lemma_lev_bound(s, t.drop_last());
        lemma_lev_bound(s.drop_last(), t.drop_last());
    }
}

pub fn levenshtein_distance(s: &str, t: &str) -> (r: usize)
    requires
        s@.len() + t@.len() <= usize::MAX,
    ensures
        r == lev(s@, t@),
    decreases s@.len() + t@.len(),
{
    let s_len = s.unicode_len();
    let t_len = t.unicode_len();
    if s_len == 0 {
        return t_len;
    } else if t_len == 0 {
        return s_len;
    }
    let cost: usize = if s.get_char(s_len - 1) == t.get_char(t_len - 1) {
        0
    } else {
        1
    };
    let s_short = s.substring_char(0, s_len - 1);
    let t_short = t.substring_char(0, t_len - 1);
    proof {
        assert(s_short@ == s@.drop_last());
        assert(t_short@ == t@.drop_last());
        lemma_lev_bound(s@.drop_last(), t@);
        lemma_lev_bound(s@, t@.drop_last());
        lemma_lev_bound(s@.drop_last(), t@.drop_last());
    }
    let a = levenshtein_distance(s_short, t) + 1;
    let b = levenshtein_distance(s, t_short) + 1;
    let c = levenshtein_distance(s_short, t_short) + cost;
    let ab = if a <= b {
        a
    } else {
        b
    };
    if ab <= c {
        ab
    } else {
        c
    }
}

/// Keep the words whose edit distance to the query is below the threshold.
#[verifier::loop_isolation(false)]
pub fn fuzz(word_list: Vec<String>, query: String, threshold: usize) -> (r: Vec<String>)
    requires
        forall|i: int|
            0 <= i < word_list.deep_view().len() ==> word_list.deep_view()[i].len() + query@.len()
                <= usize::MAX,
    ensures
        r.deep_view() == word_list.deep_view().filter(
            |word: Seq<char>| lev(word, query@) < threshold,
        ),
{
    let ghost pred = |word: Seq<char>| lev(word, query@) < threshold;
    let mut r: Vec<String> = Vec::new();
    let mut i: usize = 0;
    proof {
        reveal(Seq::filter);
        assert(word_list.deep_view().take(0).filter(pred) =~= Seq::<Seq<char>>::empty());
    }
    while i < word_list.len()
        invariant
            i <= word_list.len(),
            word_list.deep_view().len() == word_list.len(),
            forall|j: int|
                0 <= j < word_list.deep_view().len() ==> word_list.deep_view()[j].len()
                    + query@.len() <= usize::MAX,
            r.deep_view() == word_list.deep_view().take(i as int).filter(pred),
        decreases word_list.len() - i,
    {
        let ghost prefix = word_list.deep_view().take(i as int);
        let ghost r_before = r.deep_view();
        let word = &word_list[i];
        proof {
            assert(word_list.deep_view()[i as int] == word@);
        }
        let keep = levenshtein_distance(word.as_str(), query.as_str()) < threshold;
        if keep {
            r.push(word.clone());
        }
        proof {
            reveal(Seq::filter);
            let appended = prefix.push(word@);
            assert(appended.drop_last() =~= prefix);
            assert(appended.last() == word@);
            assert(word_list.deep_view().take(i + 1) =~= appended);
            assert(keep == pred(word@));
            assert(appended.filter(pred) == if pred(word@) {
                prefix.filter(pred).push(word@)
            } else {
                prefix.filter(pred)
            });
            if keep {
                assert(r.deep_view() =~= r_before.push(word@));
            }
        }
        i = i + 1;
    }
    proof {
        assert(word_list.deep_view().take(word_list.len() as int) =~= word_list.deep_view());
    }
    r
}

} // verus!
