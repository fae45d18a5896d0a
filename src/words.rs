use vstd::prelude::*;
use crate::text::{is_space, space_char};

verus! {

/// Number of characters before the first white space of `s` (all of `s` if none).
pub open spec fn run_len(s: Seq<char>) -> nat
    decreases s.len(),
{
    if s.len() == 0 || is_space(s[0]) {
        0
    } else {
        1 + run_len(s.drop_first())
    }
}

/// The words of a line: its maximal runs of characters that are not white space, in order.
pub open spec fn words(s: Seq<char>) -> Seq<Seq<char>>
    decreases s.len(),
    via words_decreases
{
    if s.len() == 0 {
        Seq::empty()
    } else if is_space(s[0]) {
        words(s.drop_first())
    } else {
        let k = run_len(s);
        seq![s.take(k as int)] + words(s.skip(k as int))
    }
}

#[via_fn]
proof fn words_decreases(s: Seq<char>) {
    lemma_run_len_bound(s);
}

proof fn lemma_run_len_bound(s: Seq<char>)
    ensures
        run_len(s) <= s.len(),
        s.len() > 0 && !is_space(s[0]) ==> run_len(s) > 0,
    decreases s.len(),
{
    if s.len() > 0 && !is_space(s[0]) {
        lemma_run_len_bound(s.drop_first());
    }
}

/// Every word is non-empty and holds no white space: no word can contain a space.
pub proof fn lemma_words_clean(s: Seq<char>)
    ensures
        forall|i: int| 0 <= i < words(s).len() ==> #[trigger] words(s)[i].len() > 0,
        forall|i: int, j: int|
            0 <= i < words(s).len() && 0 <= j < words(s)[i].len() ==> !is_space(
                #[trigger] words(s)[i][j],
            ),
    decreases s.len(),
{
    if s.len() > 0 {
        if is_space(s[0]) {
            lemma_words_clean(s.drop_first());
            assert(words(s) == words(s.drop_first()));
        } else {
            let k = run_len(s) as int;
            lemma_run_len_bound(s);
            lemma_run_prefix(s);
            lemma_words_clean(s.skip(k));
            let rest = words(s.skip(k));
            assert(words(s) == seq![s.take(k)] + rest);
            assert forall|i: int| 0 <= i < words(s).len() implies #[trigger] words(s)[i].len()
                > 0 by {
                if i > 0 {
                    assert(words(s)[i] == rest[i - 1]);
                }
            }
            assert forall|i: int, j: int|
                0 <= i < words(s).len() && 0 <= j < words(s)[i].len() implies !is_space(
                #[trigger] words(s)[i][j],
            ) by {
                if i > 0 {
                    assert(words(s)[i] == rest[i - 1]);
                } else {
                    assert(words(s)[0] == s.take(k));
                    assert(s.take(k)[j] == s[j]);
                }
            }
        }
    }
}

proof fn lemma_run_prefix(s: Seq<char>)
    ensures
        forall|j: int| 0 <= j < run_len(s) ==> !is_space(#[trigger] s[j]),
    decreases s.len(),
{
    if s.len() > 0 && !is_space(s[0]) {
        let t = s.drop_first();
        lemma_run_prefix(t);
        lemma_run_len_bound(s);
        assert forall|j: int| 0 <= j < run_len(s) implies !is_space(#[trigger] s[j]) by {
            if j > 0 {
                assert(s[j] == t[j - 1]);
            }
        }
    }
}

/// The characters of a sequence of strings.
pub open spec fn views(v: Seq<String>) -> Seq<Seq<char>> {
    v.map_values(|w: String| w@)
}

proof fn lemma_run_len(s: Seq<char>, k: int)
    requires
        0 <= k <= s.len(),
        forall|j: int| 0 <= j < k ==> !is_space(#[trigger] s[j]),
        k == s.len() || is_space(s[k]),
    ensures
        run_len(s) == k,
    decreases k,
{
    if k > 0 {
        let t = s.drop_first();
        assert forall|j: int| 0 <= j < k - 1 implies !is_space(#[trigger] t[j]) by {
            assert(t[j] == s[j + 1]);
        }
        lemma_run_len(t, k - 1);
    }
}

/// Splits a line into its words, on runs of white space.
pub fn split_words(line: &str) -> (r: Vec<String>)
    ensures
        views(r@) == words(line@),
{
    let n = line.unicode_len();
    let ghost s = line@;
    let mut out: Vec<String> = Vec::new();
    let mut i: usize = 0;
    assert(s.skip(0) =~= s);
    assert(views(out@) =~= Seq::<Seq<char>>::empty());
    while i < n
        invariant
            n == s.len(),
            s == line@,
            i <= n,
            views(out@) + words(s.skip(i as int)) == words(s),
        decreases n - i,
    {
        let ghost t = s.skip(i as int);
        if space_char(line.get_char(i)) {
            assert(t.drop_first() =~= s.skip(i + 1));
            i = i + 1;
        } else {
            let mut j: usize = i + 1;
            while j < n && !space_char(line.get_char(j))
                invariant
                    n == s.len(),
                    s == line@,
                    i < j <= n,
                    forall|m: int| i <= m < j ==> !is_space(#[trigger] s[m]),
                decreases n - j,
            {
                j = j + 1;
            }
            let word = line.substring_char(i, j);
            proof {
                lemma_run_len(t, j - i);
                assert(t.take(j - i) =~= s.subrange(i as int, j as int));
                assert(t.skip(j - i) =~= s.skip(j as int));
            }
            let w = String::from_str(word);
            let ghost before = out@;
            out.push(w);
            proof {
                assert(views(out@) =~= views(before).push(word@));
                assert(views(out@) + words(s.skip(j as int)) =~= views(before) + (seq![
                    word@,
                ] + words(s.skip(j as int))));
            }
            i = j;
        }
    }
    assert(s.skip(n as int) =~= Seq::<char>::empty());
    assert(views(out@) + Seq::<Seq<char>>::empty() =~= views(out@));
    out
}

} // verus!
