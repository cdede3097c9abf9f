//! The indexing adapter: wraps a lazy sequence and pairs every element it
//! produces with a running index of a caller-chosen numeric type.

use vstd::prelude::*;

use crate::index_types::IndexArith;
use crate::index_types::IndexDefaults;
use crate::index_types::IndexType;
use crate::sequence::DoubleEndedLazySequence;
use crate::sequence::ExactLazySequence;
use crate::sequence::LazySequence;

verus! {

/// Reported when a skip distance cannot be represented in the chosen index
/// type; `target_type` names that type.
#[derive(Clone, Copy, Debug, PartialEq, Eq)]
pub struct IndexConversionError {
    pub target_type: &'static str,
}

/// A lazy sequence of `(index, value)` pairs: each element of the inner
/// sequence, paired with a running counter that starts at a chosen value and
/// advances by a fixed step on every element consumed.
#[derive(Clone, Debug)]
pub struct Indexer<I, T> {
    iter: I,
    counter: T,
    step: T,
}

impl<I, T> Indexer<I, T> {
    /// The wrapped inner sequence.
    pub closed spec fn inner(&self) -> I {
        self.iter
    }

    /// The index that will be attached to the next element produced from
    /// the front.
    pub closed spec fn counter_val(&self) -> T {
        self.counter
    }

    /// The fixed amount the index advances per element consumed.
    pub closed spec fn step_val(&self) -> T {
        self.step
    }

    /// Wraps `iter` so that its elements are paired with indices `start`,
    /// `start + step`, `start + 2 * step`, and so on.
    pub fn new(iter: I, start: T, step: T) -> (r: Indexer<I, T>)
        ensures
            r.inner() == iter,
            r.counter_val() == start,
            r.step_val() == step,
    {
        Indexer { iter, counter: start, step }
    }
}

impl<I: LazySequence, T> Indexer<I, T> {
    /// The elements the inner sequence has yet to produce.
    pub open spec fn inner_seq(&self) -> Seq<I::Item> {
        self.inner().seq()
    }
}

impl<I, T: IndexType> Indexer<I, T> {
    /// The mathematical value of the running counter.
    pub open spec fn counter_int(&self) -> int {
        self.counter_val().as_int()
    }

    /// The mathematical value of the step.
    pub open spec fn step_int(&self) -> int {
        self.step_val().as_int()
    }
}

impl<I: LazySequence, T: IndexArith> Indexer<I, T> {
    /// Produces the next pair: the current counter value and the next inner
    /// element; the counter advances by the step.  At exhaustion it reports
    /// exhaustion and changes nothing, so repeated calls keep reporting
    /// exhaustion with an unchanged counter.
    pub fn next(&mut self) -> (r: Option<(T, I::Item)>)
        requires
            old(self).inner_seq().len() > 0 ==> T::fits(
                old(self).counter_int() + old(self).step_int(),
            ),
        ensures
            final(self).step_val() == old(self).step_val(),
            old(self).inner_seq().len() == 0 ==> {
                &&& r is None
                &&& final(self).inner_seq() == old(self).inner_seq()
                &&& final(self).counter_val() == old(self).counter_val()
            },
            old(self).inner_seq().len() > 0 ==> {
                &&& r matches Some(p)
                &&& p.0.as_int() == old(self).counter_int()
                &&& p.1 == old(self).inner_seq()[0]
                &&& final(self).inner_seq() == old(self).inner_seq().skip(1)
                &&& final(self).counter_int() == old(self).counter_int() + old(self).step_int()
            },
    {
        match self.iter.next() {
            Some(v) => {
                let idx = self.counter.dup();
                let advanced = self.counter.plus(&self.step);
                self.counter = advanced;
                Some((idx, v))
            },
            None => None,
        }
    }

    /// Skips `n` elements and produces the pair for the one after them, with
    /// index `counter + n * step`, computed in closed form; the counter then
    /// stands one step past that index.  If fewer than `n + 1` elements
    /// remain, the inner sequence is exhausted and the counter is unchanged.
    /// If `n` is not representable in the index type, the element is
    /// consumed but the pair is replaced by a conversion error naming that
    /// type.
    pub fn nth(&mut self, n: usize) -> (r: Result<Option<(T, I::Item)>, IndexConversionError>)
        requires
            old(self).inner_seq().len() > n && T::fits(n as int) ==> {
                &&& T::fits(n as int * old(self).step_int())
                &&& T::fits(old(self).counter_int() + n as int * old(self).step_int())
                &&& T::fits(old(self).counter_int() + (n as int + 1) * old(self).step_int())
            },
        ensures
            final(self).step_val() == old(self).step_val(),
            old(self).inner_seq().len() <= n ==> {
                &&& r matches Ok(o) && o is None
                &&& final(self).inner_seq().len() == 0
                &&& final(self).counter_val() == old(self).counter_val()
            },
            old(self).inner_seq().len() > n ==> final(self).inner_seq() == old(
                self,
            ).inner_seq().skip(n as int + 1),
            old(self).inner_seq().len() > n && !T::fits(n as int) ==> {
                &&& r matches Err(e) && e.target_type@ == T::label_spec()
                &&& final(self).counter_val() == old(self).counter_val()
            },
            old(self).inner_seq().len() > n && T::fits(n as int) ==> {
                &&& r matches Ok(o)
                &&& o matches Some(p)
                &&& p.0.as_int() == old(self).counter_int() + n as int * old(self).step_int()
                &&& p.1 == old(self).inner_seq()[n as int]
                &&& final(self).counter_int() == old(self).counter_int() + (n as int + 1) * old(
                    self,
                ).step_int()
            },
    {
        match self.iter.nth(n) {
            None => Ok(None),
            Some(v) => {
                match T::from_count(n) {
                    None => Err(IndexConversionError { target_type: T::type_label() }),
                    Some(nn) => {
                        proof {
                            let st = old(self).step_int();
                            assert((n as int + 1) * st == n as int * st + st) by (nonlinear_arith);
                        }
                        let delta = nn.times(&self.step);
                        let idx = self.counter.plus(&delta);
                        let advanced = idx.plus(&self.step);
                        self.counter = advanced;
                        Ok(Some((idx, v)))
                    },
                }
            },
        }
    }
}

impl<I: LazySequence, T> Indexer<I, T> {
    /// Bounds on the number of remaining pairs: exactly the bounds the inner
    /// sequence reports for its remaining elements.
    pub fn size_hint(&self) -> (r: (usize, Option<usize>))
        ensures
            r.0 <= self.inner_seq().len(),
            r.1 matches Some(u) ==> self.inner_seq().len() <= u,
    {
        self.iter.size_hint()
    }

    /// Consumes the adapter and reports how many pairs remained: exactly the
    /// inner sequence's remaining element count.
    pub fn count(self) -> (r: usize)
        ensures
            r == self.inner_seq().len(),
    {
        self.iter.count()
    }
}

impl<I: DoubleEndedLazySequence, T: IndexArith> Indexer<I, T> {
    /// Produces the pair for the last remaining element, with index
    /// `counter + (remaining - 1) * step`: the index it would receive if the
    /// elements before it were produced from the front.  The counter itself
    /// is untouched, so forward traversal continues where it left off.  If
    /// the remaining count after consumption is not representable in the
    /// index type, the element is consumed but the pair is replaced by a
    /// conversion error naming that type.
    pub fn next_back(&mut self) -> (r: Result<
        Option<(T, I::Item)>,
        IndexConversionError,
    >)
        requires
            old(self).inner_seq().len() > 0 && T::fits(old(self).inner_seq().len() - 1) ==> {
                &&& T::fits((old(self).inner_seq().len() - 1) * old(self).step_int())
                &&& T::fits(
                    old(self).counter_int() + (old(self).inner_seq().len() - 1) * old(
                        self,
                    ).step_int(),
                )
            },
        ensures
            final(self).counter_val() == old(self).counter_val(),
            final(self).step_val() == old(self).step_val(),
            old(self).inner_seq().len() == 0 ==> {
                &&& r matches Ok(o) && o is None
                &&& final(self).inner_seq() == old(self).inner_seq()
            },
            old(self).inner_seq().len() > 0 ==> final(self).inner_seq() == old(
                self,
            ).inner_seq().drop_last(),
            old(self).inner_seq().len() > 0 && !T::fits(old(self).inner_seq().len() - 1) ==> {
                r matches Err(e) && e.target_type@ == T::label_spec()
            },
            old(self).inner_seq().len() > 0 && T::fits(old(self).inner_seq().len() - 1) ==> {
                &&& r matches Ok(o)
                &&& o matches Some(p)
                &&& p.0.as_int() == old(self).counter_int() + (old(self).inner_seq().len() - 1)
                    * old(self).step_int()
                &&& p.1 == old(self).inner_seq().last()
            },
    {
        match self.iter.next_back() {
            None => Ok(None),
            Some(v) => {
                let rem = self.iter.len();
                match T::from_count(rem) {
                    None => Err(IndexConversionError { target_type: T::type_label() }),
                    Some(lt) => {
                        let delta = lt.times(&self.step);
                        let idx = self.counter.plus(&delta);
                        Ok(Some((idx, v)))
                    },
                }
            },
        }
    }

    /// Skips `n` elements from the back and produces the pair for the one
    /// before them, with index `counter + (remaining - 1 - n) * step`.  Like
    /// `next_back`, this leaves the counter untouched.  If fewer than
    /// `n + 1` elements remain, the inner sequence is exhausted; if the
    /// computed position is not representable in the index type, the
    /// elements are consumed but the pair is replaced by a conversion error
    /// naming that type.
    pub fn nth_back(&mut self, n: usize) -> (r: Result<
        Option<(T, I::Item)>,
        IndexConversionError,
    >)
        requires
            old(self).inner_seq().len() > n && T::fits(old(self).inner_seq().len() - 1 - n) ==> {
                &&& T::fits((old(self).inner_seq().len() - 1 - n) * old(self).step_int())
                &&& T::fits(
                    old(self).counter_int() + (old(self).inner_seq().len() - 1 - n) * old(
                        self,
                    ).step_int(),
                )
            },
        ensures
            final(self).counter_val() == old(self).counter_val(),
            final(self).step_val() == old(self).step_val(),
            old(self).inner_seq().len() <= n ==> {
                &&& r matches Ok(o) && o is None
                &&& final(self).inner_seq().len() == 0
            },
            old(self).inner_seq().len() > n ==> final(self).inner_seq() == old(
                self,
            ).inner_seq().take(old(self).inner_seq().len() - 1 - n),
            old(self).inner_seq().len() > n && !T::fits(old(self).inner_seq().len() - 1 - n)
                ==> {
                r matches Err(e) && e.target_type@ == T::label_spec()
            },
            old(self).inner_seq().len() > n && T::fits(old(self).inner_seq().len() - 1 - n)
                ==> {
                &&& r matches Ok(o)
                &&& o matches Some(p)
                &&& p.0.as_int() == old(self).counter_int() + (old(self).inner_seq().len() - 1
                    - n) * old(self).step_int()
                &&& p.1 == old(self).inner_seq()[old(self).inner_seq().len() - 1 - n]
            },
    {
        match self.iter.nth_back(n) {
            None => Ok(None),
            Some(v) => {
                let rem = self.iter.len();
                match T::from_count(rem) {
                    None => Err(IndexConversionError { target_type: T::type_label() }),
                    Some(lt) => {
                        let delta = lt.times(&self.step);
                        let idx = self.counter.plus(&delta);
                        Ok(Some((idx, v)))
                    },
                }
            },
        }
    }
}

impl<I: ExactLazySequence, T> Indexer<I, T> {
    /// The exact number of remaining pairs: indexing preserves the inner
    /// sequence's remaining element count.
    pub fn len(&self) -> (r: usize)
        ensures
            r == self.inner_seq().len(),
    {
        self.iter.len()
    }
}

/// The indexing entry points, available on every lazy sequence.
pub trait IndexerIterator: Sized {
    /// Wraps this sequence so that it yields `(index, value)` pairs counting
    /// from zero in steps of one.
    fn index<T: IndexDefaults>(self) -> (r: Indexer<Self, T>)
        ensures
            r.inner() == self,
            r.counter_val().as_int() == 0,
            r.step_val().as_int() == 1,
    ;

    /// Wraps this sequence so that it yields `(index, value)` pairs counting
    /// from `start` in steps of one.
    fn index_start<T: IndexDefaults>(self, start: T) -> (r: Indexer<Self, T>)
        ensures
            r.inner() == self,
            r.counter_val() == start,
            r.step_val().as_int() == 1,
    ;

    /// Wraps this sequence so that it yields `(index, value)` pairs counting
    /// from `start` in steps of `step`.
    fn index_step<T>(self, start: T, step: T) -> (r: Indexer<Self, T>)
        ensures
            r.inner() == self,
            r.counter_val() == start,
            r.step_val() == step,
    ;
}

impl<I: LazySequence> IndexerIterator for I {
    fn index<T: IndexDefaults>(self) -> (r: Indexer<Self, T>) {
        Indexer::new(self, T::zero(), T::one())
    }

    fn index_start<T: IndexDefaults>(self, start: T) -> (r: Indexer<Self, T>) {
        Indexer::new(self, start, T::one())
    }

    fn index_step<T>(self, start: T, step: T) -> (r: Indexer<Self, T>) {
        Indexer::new(self, start, step)
    }
}

} // verus!
