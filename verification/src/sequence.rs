//! The lazy-sequence abstraction the adapter wraps: forward traversal,
//! exact-size reporting and double-ended traversal as separate capabilities,
//! and a vector-backed sequence implementing all of them.

use vstd::prelude::*;

verus! {

/// A lazily-produced sequence of values, traversed front to back.
///
/// `seq` is the mathematical view: the elements that remain to be produced,
/// in order.  Every traversal contract is stated against it.
pub trait LazySequence: Sized {
    type Item;

    /// The elements still to be produced, front first.
    spec fn seq(&self) -> Seq<Self::Item>;

    /// Produces the next element, or reports exhaustion without changing
    /// the remaining elements.
    fn next(&mut self) -> (r: Option<Self::Item>)
        ensures
            old(self).seq().len() == 0 ==> r is None && final(self).seq() == old(self).seq(),
            old(self).seq().len() > 0 ==> {
                &&& r matches Some(v) && v == old(self).seq()[0]
                &&& final(self).seq() == old(self).seq().skip(1)
            },
    ;

    /// Skips `n` elements and produces the one after them; consumes all
    /// remaining elements and reports exhaustion if fewer than `n + 1`
    /// remain.
    fn nth(&mut self, n: usize) -> (r: Option<Self::Item>)
        ensures
            old(self).seq().len() <= n ==> r is None && final(self).seq().len() == 0,
            old(self).seq().len() > n ==> {
                &&& r matches Some(v) && v == old(self).seq()[n as int]
                &&& final(self).seq() == old(self).seq().skip(n as int + 1)
            },
    ;

    /// Bounds on the number of remaining elements: at least `r.0`, and at
    /// most `r.1` when that bound is known.
    fn size_hint(&self) -> (r: (usize, Option<usize>))
        ensures
            r.0 <= self.seq().len(),
            r.1 matches Some(u) ==> self.seq().len() <= u,
    ;

    /// Consumes the sequence and reports how many elements remained.
    fn count(self) -> (r: usize)
        ensures
            r == self.seq().len(),
    ;
}

/// A lazy sequence that knows its exact remaining element count.
pub trait ExactLazySequence: LazySequence {
    /// The exact number of remaining elements.
    fn len(&self) -> (r: usize)
        ensures
            r == self.seq().len(),
    ;
}

/// A lazy sequence that can also be traversed back to front.
pub trait DoubleEndedLazySequence: ExactLazySequence {
    /// Produces the last remaining element, or reports exhaustion without
    /// changing the remaining elements.
    fn next_back(&mut self) -> (r: Option<Self::Item>)
        ensures
            old(self).seq().len() == 0 ==> r is None && final(self).seq() == old(self).seq(),
            old(self).seq().len() > 0 ==> {
                &&& r matches Some(v) && v == old(self).seq().last()
                &&& final(self).seq() == old(self).seq().drop_last()
            },
    ;

    /// Skips `n` elements from the back and produces the one before them;
    /// consumes all remaining elements and reports exhaustion if fewer than
    /// `n + 1` remain.
    fn nth_back(&mut self, n: usize) -> (r: Option<Self::Item>)
        ensures
            old(self).seq().len() <= n ==> r is None && final(self).seq().len() == 0,
            old(self).seq().len() > n ==> {
                &&& r matches Some(v) && v == old(self).seq()[old(self).seq().len() - 1 - n]
                &&& final(self).seq() == old(self).seq().take(old(self).seq().len() - 1 - n)
            },
    ;
}

/// A lazy sequence producing the elements of a vector, front first.
pub struct VecSource<A> {
    elems: Vec<A>,
}

impl<A> VecSource<A> {
    /// Wraps `elems` as a lazy sequence that will produce exactly its
    /// elements, in order.
    pub fn new(elems: Vec<A>) -> (r: VecSource<A>)
        ensures
            r.seq() == elems@,
    {
        VecSource { elems }
    }
}

impl<A> LazySequence for VecSource<A> {
    type Item = A;

    closed spec fn seq(&self) -> Seq<A> {
        self.elems@
    }

    fn next(&mut self) -> (r: Option<A>) {
        if self.elems.len() == 0 {
            None
        } else {
            let v = self.elems.remove(0);
            proof {
                assert(self.elems@ =~= old(self).elems@.skip(1));
            }
            Some(v)
        }
    }

    fn nth(&mut self, n: usize) -> (r: Option<A>) {
        if self.elems.len() <= n {
            self.elems.clear();
            None
        } else {
            let ghost orig = self.elems@;
            let mut k: usize = 0;
            while k < n
                invariant
                    k <= n,
                    n < orig.len(),
                    self.elems@ == orig.skip(k as int),
                decreases n - k,
            {
                let _ = self.elems.remove(0);
                proof {
                    assert(self.elems@ =~= orig.skip(k as int + 1));
                }
                k = k + 1;
            }
            let v = self.elems.remove(0);
            proof {
                assert(self.elems@ =~= orig.skip(n as int + 1));
            }
            Some(v)
        }
    }

    fn size_hint(&self) -> (r: (usize, Option<usize>))
        ensures
            r.0 == self.seq().len(),
            r.1 matches Some(u) && u == self.seq().len(),
    {
        (self.elems.len(), Some(self.elems.len()))
    }

    fn count(self) -> (r: usize) {
        self.elems.len()
    }
}

impl<A> ExactLazySequence for VecSource<A> {
    fn len(&self) -> (r: usize) {
        self.elems.len()
    }
}

impl<A> DoubleEndedLazySequence for VecSource<A> {
    fn next_back(&mut self) -> (r: Option<A>) {
        let r = self.elems.pop();
        proof {
            if old(self).elems@.len() > 0 {
                assert(self.elems@ =~= old(self).elems@.drop_last());
            }
        }
        r
    }

    fn nth_back(&mut self, n: usize) -> (r: Option<A>) {
        if self.elems.len() <= n {
            self.elems.clear();
            None
        } else {
            let ghost orig = self.elems@;
            proof {
                assert(orig.take(orig.len() as int) =~= orig);
            }
            let mut k: usize = 0;
            while k < n
                invariant
                    k <= n,
                    n < orig.len(),
                    self.elems@ == orig.take(orig.len() - k),
                decreases n - k,
            {
                let _ = self.elems.pop();
                proof {
                    assert(self.elems@ =~= orig.take(orig.len() - (k as int + 1)));
                }
                k = k + 1;
            }
            let v_opt = self.elems.pop();
            proof {
                assert(self.elems@ =~= orig.take(orig.len() - 1 - n as int));
            }
            v_opt
        }
    }
}

} // verus!
