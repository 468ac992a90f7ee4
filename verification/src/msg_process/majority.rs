use vstd::prelude::*;

verus! {

/// How many of the indexes in `s` are at least `x`.
pub open spec fn count_at_least(s: Seq<usize>, x: int) -> nat
    decreases s.len(),
{
    if s.len() == 0 {
        0
    } else {
        count_at_least(s.drop_last(), x) + if s.last() >= x {
            1nat
        } else {
            0nat
        }
    }
}

/// How many of `n` nodes make a majority.
pub open spec fn majority_of(n: nat) -> nat {
    n / 2 + 1
}

/// `m` is one of the indexes in `s`, a majority of them are at least `m`, and no majority is
/// at least `m + 1`: `m` is the largest index that a majority has reached.
pub open spec fn is_majority_match(s: Seq<usize>, m: usize) -> bool {
    &&& s.contains(m)
    &&& count_at_least(s, m as int) >= majority_of(s.len())
    &&& count_at_least(s, m + 1) < majority_of(s.len())
}

/// The largest index that a majority of `s` has reached (meaningful where `s` is not empty).
pub open spec fn majority_match(s: Seq<usize>) -> usize {
    choose|m: usize| is_majority_match(s, m)
}

proof fn lemma_count_monotone(s: Seq<usize>, x: int, y: int)
    requires
        x <= y,
    ensures
        count_at_least(s, y) <= count_at_least(s, x),
    decreases s.len(),
{
    if s.len() > 0 {
        lemma_count_monotone(s.drop_last(), x, y);
    }
}

proof fn lemma_count_all(s: Seq<usize>, x: int)
    requires
        forall|i: int| 0 <= i < s.len() ==> s[i] >= x,
    ensures
        count_at_least(s, x) == s.len(),
    decreases s.len(),
{
    if s.len() > 0 {
        lemma_count_all(s.drop_last(), x);
    }
}

proof fn lemma_count_gap(s: Seq<usize>, x: int, y: int)
    requires
        x <= y,
        forall|i: int| 0 <= i < s.len() ==> !(x <= #[trigger] s[i] < y),
    ensures
        count_at_least(s, x) == count_at_least(s, y),
    decreases s.len(),
{
    if s.len() > 0 {
        lemma_count_gap(s.drop_last(), x, y);
    }
}

/// Where some index of `s` is at least `x`, the position of the smallest such index.
proof fn lemma_least_at_least(s: Seq<usize>, x: int) -> (j: int)
    requires
        count_at_least(s, x) > 0,
    ensures
        0 <= j < s.len(),
        s[j] >= x,
        forall|i: int| 0 <= i < s.len() && s[i] >= x ==> s[j] <= s[i],
    decreases s.len(),
{
    let t = s.drop_last();
    assert(forall|i: int| 0 <= i < t.len() ==> t[i] == s[i]);
    if count_at_least(t, x) > 0 {
        let j0 = lemma_least_at_least(t, x);
        if s.last() >= x && s.last() < s[j0] {
            (s.len() - 1) as int
        } else {
            j0
        }
    } else {
        assert forall|i: int| 0 <= i < t.len() implies t[i] < x by {
            if t[i] >= x {
                lemma_count_positive(t, x, i);
            }
        }
        (s.len() - 1) as int
    }
}

proof fn lemma_count_positive(s: Seq<usize>, x: int, i: int)
    requires
        0 <= i < s.len(),
        s[i] >= x,
    ensures
        count_at_least(s, x) > 0,
    decreases s.len(),
{
    if i < s.len() - 1 {
        lemma_count_positive(s.drop_last(), x, i);
    }
}

/// At most one index is the largest that a majority has reached.
pub proof fn lemma_majority_match_unique(s: Seq<usize>, m1: usize, m2: usize)
    requires
        is_majority_match(s, m1),
        is_majority_match(s, m2),
    ensures
        m1 == m2,
{
    if m1 < m2 {
        lemma_count_monotone(s, m1 + 1, m2 as int);
    }
    if m2 < m1 {
        lemma_count_monotone(s, m2 + 1, m1 as int);
    }
}

/// `best` is the largest of the indexes among the first `i` of `s` that a majority has reached,
/// if any.
pub open spec fn largest_candidate(s: Seq<usize>, i: int, best: Option<usize>) -> bool {
    &&& forall|j: int|
        0 <= j < i && count_at_least(s, s[j] as int) >= majority_of(s.len()) ==> (best matches Some(b)
            && s[j] <= b)
    &&& best matches Some(b) ==> s.contains(b) && count_at_least(s, b as int) >= majority_of(s.len())
}

/// The largest of the indexes of `s` that a majority has reached is the largest index that a
/// majority has reached.
proof fn lemma_candidates_have_a_largest(s: Seq<usize>, best: Option<usize>)
    requires
        s.len() > 0,
        largest_candidate(s, s.len() as int, best),
    ensures
        best matches Some(b) && is_majority_match(s, b),
{
    let k = majority_of(s.len());
    lemma_count_all(s, 0);
    let j0 = lemma_least_at_least(s, 0);
    lemma_count_all(s, s[j0] as int);
    assert(best is Some);
    let b = best->0;
    if count_at_least(s, b + 1) >= k {
        let j1 = lemma_least_at_least(s, b + 1);
        lemma_count_gap(s, b + 1, s[j1] as int);
        assert(false);
    }
}

proof fn lemma_largest_candidate_upto(s: Seq<usize>, i: int) -> (best: Option<usize>)
    requires
        0 <= i <= s.len(),
    ensures
        largest_candidate(s, i, best),
    decreases i,
{
    if i == 0 {
        None
    } else {
        let prev = lemma_largest_candidate_upto(s, i - 1);
        let c = s[i - 1];
        if count_at_least(s, c as int) >= majority_of(s.len()) {
            match prev {
                Some(b) => if c > b {
                    Some(c)
                } else {
                    prev
                },
                None => Some(c),
            }
        } else {
            prev
        }
    }
}

/// A non-empty sequence of indexes has a largest index that a majority has reached.
pub proof fn lemma_majority_match_exists(s: Seq<usize>)
    requires
        s.len() > 0,
    ensures
        is_majority_match(s, majority_match(s)),
{
    let best = lemma_largest_candidate_upto(s, s.len() as int);
    lemma_candidates_have_a_largest(s, best);
}

/// How many of the indexes in `s` are at least `x`.
fn count_indexes_at_least(s: &Vec<usize>, x: usize) -> (n: usize)
    ensures
        n == count_at_least(s@, x as int),
{
    let mut n: usize = 0;
    for i in 0..s.len()
        invariant
            n == count_at_least(s@.take(i as int), x as int),
            n <= i,
    {
        assert(s@.take(i + 1).drop_last() =~= s@.take(i as int));
        if s[i] >= x {
            n = n + 1;
        }
    }
    assert(s@.take(s@.len() as int) =~= s@);
    n
}

/// The largest index that a majority of `s` has reached, or `None` when `s` is empty: what the
/// smallest of the `s.len() / 2 + 1` largest indexes of `s` is.
pub fn majority_match_idx(s: &Vec<usize>) -> (r: Option<usize>)
    ensures
        r is None <==> s@.len() == 0,
        r matches Some(m) ==> is_majority_match(s@, m) && m == majority_match(s@),
{
    let n = s.len();
    let k = n / 2 + 1;
    let mut best: Option<usize> = None;
    for i in 0..n
        invariant
            n == s@.len(),
            k == majority_of(n as nat),
            largest_candidate(s@, i as int, best),
    {
        let c = s[i];
        if count_indexes_at_least(s, c) >= k {
            match best {
                Some(b) => {
                    if c > b {
                        best = Some(c);
                    }
                },
                None => {
                    best = Some(c);
                },
            }
        }
    }
    proof {
        if n > 0 {
            lemma_candidates_have_a_largest(s@, best);
            let b = best->0;
            lemma_majority_match_unique(s@, b, majority_match(s@));
        }
    }
    best
}

} // verus!
