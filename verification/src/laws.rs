//! The emission model of an indexing adapter, and the laws proved over it.
//!
//! An adapter's traversal state is a triple: the elements the inner sequence
//! has yet to produce, the counter, and the step.  `Indexer::next` promises
//! exactly the single-step transition these definitions iterate, so the
//! lemmas here describe every run of the executable adapter.

use vstd::prelude::*;

verus! {

/// The pairs an adapter in state `(s, start, step)` emits when driven
/// forward to exhaustion: each produce-next call emits the pair and moves to
/// the successor state that `Indexer::next` promises.
pub open spec fn front_emissions<V>(s: Seq<V>, start: int, step: int) -> Seq<(int, V)>
    decreases s.len(),
{
    if s.len() == 0 {
        Seq::empty()
    } else {
        seq![(start, s[0])] + front_emissions(s.skip(1), start + step, step)
    }
}

/// The pairs an adapter in state `(s, start, step)` emits when driven
/// backward to exhaustion: each produce-from-back call emits the pair and
/// leaves the state that `Indexer::next_back` promises.
pub open spec fn back_emissions<V>(s: Seq<V>, start: int, step: int) -> Seq<(int, V)>
    decreases s.len(),
{
    if s.len() == 0 {
        Seq::empty()
    } else {
        seq![(start + (s.len() - 1) * step, s.last())] + back_emissions(
            s.drop_last(),
            start,
            step,
        )
    }
}

/// The adapter state reached after `k` single forward steps from
/// `(s, start)`, iterating the transition that `Indexer::next` promises.
pub open spec fn state_after<V>(s: Seq<V>, start: int, step: int, k: nat) -> (Seq<V>, int)
    decreases k,
{
    if k == 0 {
        (s, start)
    } else {
        let prev = state_after(s, start, step, (k - 1) as nat);
        (prev.0.skip(1), prev.1 + step)
    }
}

/// One forward step of the model: the first pair emitted is the counter
/// paired with the first element, and what remains to be emitted is the
/// model of the successor state, which is exactly the transition
/// `Indexer::next` promises.
pub proof fn lemma_front_emissions_step<V>(s: Seq<V>, start: int, step: int)
    requires
        s.len() > 0,
    ensures
        front_emissions(s, start, step)[0] == (start, s[0]),
        front_emissions(s, start, step).skip(1) == front_emissions(s.skip(1), start + step, step),
{
    let head = seq![(start, s[0])];
    let tail = front_emissions(s.skip(1), start + step, step);
    assert(front_emissions(s, start, step) == head + tail);
    assert((head + tail)[0] == head[0]);
    assert((head + tail).skip(1) =~= tail);
}

/// Driving an adapter forward emits one pair per remaining element.
pub proof fn lemma_front_emissions_len<V>(s: Seq<V>, start: int, step: int)
    ensures
        front_emissions(s, start, step).len() == s.len(),
    decreases s.len(),
{
    if s.len() > 0 {
        lemma_front_emissions_len(s.skip(1), start + step, step);
    }
}

/// Sequencing law: the `k`-th pair emitted by forward traversal carries
/// index `start + k * step` and the `k`-th remaining element.
pub proof fn lemma_sequencing<V>(s: Seq<V>, start: int, step: int, k: int)
    requires
        0 <= k < s.len(),
    ensures
        front_emissions(s, start, step)[k] == (start + k * step, s[k]),
    decreases k,
{
    lemma_front_emissions_len(s.skip(1), start + step, step);
    let head = seq![(start, s[0])];
    let tail = front_emissions(s.skip(1), start + step, step);
    assert(front_emissions(s, start, step) == head + tail);
    if k == 0 {
        assert((head + tail)[0] == head[0]);
    } else {
        lemma_sequencing(s.skip(1), start + step, step, k - 1);
        assert((head + tail)[k] == tail[k - 1]);
        assert((k - 1) * step == k * step - step) by (nonlinear_arith);
        assert(s.skip(1)[k - 1] == s[k]);
    }
}

/// After `k` single forward steps the remaining elements are the original
/// ones with the first `k` removed, and the counter has advanced by
/// `k * step`.
pub proof fn lemma_state_after<V>(s: Seq<V>, start: int, step: int, k: nat)
    requires
        k <= s.len(),
    ensures
        state_after(s, start, step, k) == (s.skip(k as int), start + k * step),
    decreases k,
{
    if k == 0 {
        assert(s.skip(0) =~= s);
    } else {
        lemma_state_after(s, start, step, (k - 1) as nat);
        let prev = state_after(s, start, step, (k - 1) as nat);
        assert(state_after(s, start, step, k) == (prev.0.skip(1), prev.1 + step));
        assert(s.skip(k as int - 1).skip(1) =~= s.skip(k as int));
        assert((k - 1) * step == k * step - step) by (nonlinear_arith);
    }
}

/// Skip-equivalence law: skipping `n` elements and producing is the same as
/// producing `n + 1` times and discarding the first `n` results.  The pair
/// that skip-ahead emits, `(start + n * step, s[n])`, is the last of those
/// `n + 1` single-step pairs, and the state skip-ahead leaves,
/// `(s.skip(n + 1), start + (n + 1) * step)`, is the state those `n + 1`
/// single steps reach.
pub proof fn lemma_skip_equivalence<V>(s: Seq<V>, start: int, step: int, n: int)
    requires
        0 <= n < s.len(),
    ensures
        front_emissions(s, start, step)[n] == (start + n * step, s[n]),
        state_after(s, start, step, (n + 1) as nat) == (
            s.skip(n + 1),
            start + (n + 1) * step,
        ),
{
    lemma_sequencing(s, start, step, n);
    lemma_state_after(s, start, step, (n + 1) as nat);
}

/// Driving an adapter backward also emits one pair per remaining element.
pub proof fn lemma_back_emissions_len<V>(s: Seq<V>, start: int, step: int)
    ensures
        back_emissions(s, start, step).len() == s.len(),
    decreases s.len(),
{
    if s.len() > 0 {
        lemma_back_emissions_len(s.drop_last(), start, step);
    }
}

/// The `j`-th pair emitted by backward traversal carries the index and
/// element of the `j`-th position from the end.
pub proof fn lemma_back_emissions_at<V>(s: Seq<V>, start: int, step: int, j: int)
    requires
        0 <= j < s.len(),
    ensures
        back_emissions(s, start, step)[j] == (
            start + (s.len() - 1 - j) * step,
            s[s.len() - 1 - j],
        ),
    decreases j,
{
    lemma_back_emissions_len(s.drop_last(), start, step);
    if j > 0 {
        lemma_back_emissions_at(s.drop_last(), start, step, j - 1);
    }
}

/// Reverse symmetry law: producing every element from the back and
/// reversing that list of pairs gives exactly the pairs produced from the
/// front.
pub proof fn lemma_reverse_symmetry<V>(s: Seq<V>, start: int, step: int)
    ensures
        back_emissions(s, start, step) == front_emissions(s, start, step).reverse(),
{
    lemma_front_emissions_len(s, start, step);
    lemma_back_emissions_len(s, start, step);
    assert forall|j: int| 0 <= j < s.len() implies back_emissions(s, start, step)[j]
        == front_emissions(s, start, step).reverse()[j] by {
        lemma_back_emissions_at(s, start, step, j);
        lemma_sequencing(s, start, step, s.len() - 1 - j);
    }
    assert(back_emissions(s, start, step) =~= front_emissions(s, start, step).reverse());
}

} // verus!
