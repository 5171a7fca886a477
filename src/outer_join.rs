//! Positional alignment of a new ordered sequence against an old one.
use vstd::prelude::*;

verus! {

/// The classification of one aligned position.
#[derive(Clone, Copy, Debug, PartialEq, Eq)]
pub enum Joined<A, B> {
    /// The position exists in both sequences.
    Both(A, B),
    /// The position exists only in the new sequence.
    Left(A),
    /// The position exists only in the old sequence.
    Right(B),
}

pub open spec fn min_len(n: int, m: int) -> int {
    if n <= m { n } else { m }
}

pub open spec fn max_len(n: int, m: int) -> int {
    if n <= m { m } else { n }
}

/// What position `i` of the alignment of `new` against `old` holds.
pub open spec fn joined_at<A, B>(new: Seq<A>, old: Seq<B>, i: int) -> Joined<A, B> {
    if i < new.len() && i < old.len() {
        Joined::Both(new[i], old[i])
    } else if i < new.len() {
        Joined::Left(new[i])
    } else {
        Joined::Right(old[i])
    }
}

/// The alignment of `new` against `old` by index: one entry per position of
/// the longer sequence.
pub open spec fn spec_outer_join<A, B>(new: Seq<A>, old: Seq<B>) -> Seq<Joined<A, B>> {
    Seq::new(max_len(new.len() as int, old.len() as int) as nat, |i: int| joined_at(new, old, i))
}

/// Walks `new` and `old` in lock-step by index. Positions below both lengths
/// pair up, the tail of the longer sequence comes out alone.
pub fn outer_join<A: Copy, B: Copy>(new: &Vec<A>, old: &Vec<B>) -> (r: Vec<Joined<A, B>>)
    ensures
        r@ == spec_outer_join(new@, old@),
{
    let n = new.len();
    let m = old.len();
    let total = if n <= m { m } else { n };
    let mut r: Vec<Joined<A, B>> = Vec::new();
    let mut i: usize = 0;
    while i < total
        invariant
            n == new@.len(),
            m == old@.len(),
            total == max_len(n as int, m as int),
            i <= total,
            r@.len() == i,
            forall|j: int| 0 <= j < i ==> r@[j] == joined_at(new@, old@, j),
        decreases total - i,
    {
        let entry = if i < n && i < m {
            Joined::Both(new[i], old[i])
        } else if i < n {
            Joined::Left(new[i])
        } else {
            Joined::Right(old[i])
        };
        r.push(entry);
        i = i + 1;
    }
    assert(r@ =~= spec_outer_join(new@, old@));
    r
}

/// How many entries of `s` satisfy `p`.
pub open spec fn count_where<T>(s: Seq<T>, p: spec_fn(T) -> bool) -> nat
    decreases s.len(),
{
    if s.len() == 0 {
        0
    } else {
        count_where(s.drop_last(), p) + if p(s.last()) { 1nat } else { 0nat }
    }
}

/// Where `p` holds exactly on the positions `lo..hi`, it holds on
/// `hi - lo` entries.
pub proof fn lemma_count_range<T>(s: Seq<T>, p: spec_fn(T) -> bool, lo: int, hi: int)
    requires
        0 <= lo <= hi,
        forall|i: int| 0 <= i < s.len() ==> (p(#[trigger] s[i]) <==> lo <= i < hi),
    ensures
        count_where(s, p) == if hi <= s.len() { hi - lo } else if lo <= s.len() { s.len() - lo } else { 0 },
    decreases s.len(),
{
    if s.len() > 0 {
        let t = s.drop_last();
        assert forall|i: int| 0 <= i < t.len() implies (p(#[trigger] t[i]) <==> lo <= i < hi) by {
            assert(t[i] == s[i]);
        }
        lemma_count_range(t, p, lo, hi);
        assert(s.last() == s[s.len() - 1]);
    }
}

pub open spec fn is_both<A, B>() -> spec_fn(Joined<A, B>) -> bool {
    |j: Joined<A, B>| j is Both
}

pub open spec fn is_left<A, B>() -> spec_fn(Joined<A, B>) -> bool {
    |j: Joined<A, B>| j is Left
}

pub open spec fn is_right<A, B>() -> spec_fn(Joined<A, B>) -> bool {
    |j: Joined<A, B>| j is Right
}

/// The alignment of `N` new items against `M` old keys holds exactly
/// `min(N, M)` `Both` entries, `N - M` `Left` entries when `N > M` (else
/// none) and `M - N` `Right` entries when `M > N` (else none).
pub proof fn lemma_outer_join_counts<A, B>(new: Seq<A>, old: Seq<B>)
    ensures
        count_where(spec_outer_join(new, old), is_both()) == min_len(new.len() as int, old.len() as int),
        count_where(spec_outer_join(new, old), is_left())
            == if new.len() > old.len() { new.len() - old.len() } else { 0 },
        count_where(spec_outer_join(new, old), is_right())
            == if old.len() > new.len() { old.len() - new.len() } else { 0 },
{
    let s = spec_outer_join(new, old);
    let n = new.len() as int;
    let m = old.len() as int;
    let lo = min_len(n, m);
    lemma_count_range(s, is_both(), 0, lo);
    if n > m {
        lemma_count_range(s, is_left(), m, n);
    } else {
        lemma_count_range(s, is_left(), 0, 0);
    }
    if m > n {
        lemma_count_range(s, is_right(), n, m);
    } else {
        lemma_count_range(s, is_right(), 0, 0);
    }
}

/// Every pair of lengths has an alignment, laid out by position: the first
/// `min(N, M)` entries pair the two sequences in order, the remaining
/// `max(N, M) - min(N, M)` entries are all `Left` (new items, in order) when the
/// new sequence is longer, or all `Right` (old keys, in order) when the old one
/// is; two empty sequences give an empty alignment.
pub proof fn lemma_outer_join_shape<A, B>(new: Seq<A>, old: Seq<B>)
    ensures
        spec_outer_join(new, old).len() == max_len(new.len() as int, old.len() as int),
        forall|i: int|
            0 <= i < min_len(new.len() as int, old.len() as int) ==> #[trigger] spec_outer_join(
                new,
                old,
            )[i] == Joined::Both(new[i], old[i]),
        new.len() > old.len() ==> forall|i: int|
            old.len() <= i < new.len() ==> #[trigger] spec_outer_join(new, old)[i]
                == Joined::<A, B>::Left(new[i]),
        old.len() > new.len() ==> forall|i: int|
            new.len() <= i < old.len() ==> #[trigger] spec_outer_join(new, old)[i]
                == Joined::<A, B>::Right(old[i]),
        new.len() == 0 && old.len() == 0 ==> spec_outer_join(new, old).len() == 0,
{
}

/// Aligning a sequence against one of the same length classifies every
/// position as `Both`: nothing is created and nothing is destroyed.
pub proof fn lemma_outer_join_same_length<A, B>(new: Seq<A>, old: Seq<B>)
    requires
        new.len() == old.len(),
    ensures
        spec_outer_join(new, old).len() == new.len(),
        forall|i: int|
            0 <= i < new.len() ==> (#[trigger] spec_outer_join(new, old)[i]) is Both,
{
}

} // verus!
