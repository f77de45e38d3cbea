//! Traversal over a sequence capability: the engine's borrowed view of
//! a sequence object, and the lazy, finite, bidirectional, exact-length
//! iterator it hands out.

use vstd::prelude::*;

use crate::sequence::{seq_values, yielded};
use crate::value::Value;

verus! {

/// A borrowed sequence object: the engine's working view of one value
/// with the sequence capability, alive for a single call or traversal
/// and never retained beyond it.  The engine has no type-erased
/// objects, so the view carries the capability type it borrows.
pub struct SeqObject<'a, T: crate::sequence::SeqObject>(pub &'a T);

impl<'a, T: crate::sequence::SeqObject> SeqObject<'a, T> {
    /// Convenient iterator over the sequence: a fresh traversal of the
    /// full range `0..item_count()`.
    pub fn iter(&self) -> (it: SeqObjectIter<'a, T>)
        ensures
            it.src() == self.0,
            it.lo() == 0,
            it.hi() == self.0.seq_len(),
    {
        let n = self.0.item_count();
        SeqObjectIter { seq: self.0, start: 0, end: n }
    }
}

/// Iterates over a sequence capability: lazy, finite, bidirectional and
/// exact-length, with independent forward and backward cursors.  It is
/// created per traversal and never outlives it.
pub struct SeqObjectIter<'a, T> {
    seq: &'a T,
    start: usize,
    end: usize,
}

impl<'a, T> SeqObjectIter<'a, T> {
    /// The sequence being traversed.
    pub closed spec fn src(&self) -> &'a T {
        self.seq
    }

    /// The next index of forward traversal.
    pub closed spec fn lo(&self) -> int {
        self.start as int
    }

    /// One past the next index of backward traversal.
    pub closed spec fn hi(&self) -> int {
        self.end as int
    }
}

impl<'a, T: crate::sequence::SeqObject> SeqObjectIter<'a, T> {
    /// Well-formed: the cursors are in order and within the sequence.
    pub open spec fn wf(&self) -> bool {
        0 <= self.lo() <= self.hi() <= self.src().seq_len()
    }

    /// Yields the next value of forward traversal: the item under the
    /// front cursor, or the undefined sentinel for a gap.
    pub fn next(&mut self) -> (r: Option<Value>)
        requires
            old(self).wf(),
        ensures
            final(self).wf(),
            final(self).src() == old(self).src(),
            final(self).hi() == old(self).hi(),
            old(self).lo() < old(self).hi() ==> final(self).lo() == old(self).lo() + 1 && r
                == Some(yielded(old(self).src(), old(self).lo())),
            old(self).lo() >= old(self).hi() ==> final(self).lo() == old(self).lo() && r is None,
    {
        if self.start < self.end {
            let idx = self.start;
            self.start = self.start + 1;
            match self.seq.get_item(idx) {
                Some(v) => Some(v),
                None => Some(Value::Undefined),
            }
        } else {
            None
        }
    }

    /// Yields the next value of backward traversal: the item under the
    /// back cursor, or the undefined sentinel for a gap.
    pub fn next_back(&mut self) -> (r: Option<Value>)
        requires
            old(self).wf(),
        ensures
            final(self).wf(),
            final(self).src() == old(self).src(),
            final(self).lo() == old(self).lo(),
            old(self).lo() < old(self).hi() ==> final(self).hi() == old(self).hi() - 1 && r
                == Some(yielded(old(self).src(), old(self).hi() - 1)),
            old(self).lo() >= old(self).hi() ==> final(self).hi() == old(self).hi() && r is None,
    {
        if self.start < self.end {
            self.end = self.end - 1;
            match self.seq.get_item(self.end) {
                Some(v) => Some(v),
                None => Some(Value::Undefined),
            }
        } else {
            None
        }
    }

    /// The exact number of values still to be yielded.
    pub fn len(&self) -> (n: usize)
        requires
            self.wf(),
        ensures
            n == self.hi() - self.lo(),
    {
        self.end - self.start
    }

    /// Exact size bounds of the remaining traversal: both bounds equal
    /// the number of values still to be yielded.
    pub fn size_hint(&self) -> (r: (usize, Option<usize>))
        requires
            self.wf(),
        ensures
            r.0 == self.hi() - self.lo(),
            r.1 == Some(r.0),
    {
        let n = self.end - self.start;
        (n, Some(n))
    }
}

/// Collects a full forward traversal: exactly `seq_len()` values are
/// yielded, in index order, gaps as the undefined sentinel.
pub fn collect_forward<T: crate::sequence::SeqObject>(s: &T) -> (r: Vec<Value>)
    ensures
        r@ == seq_values(s),
{
    let mut it = SeqObject(s).iter();
    let count = it.len();
    let mut out: Vec<Value> = Vec::new();
    let mut i: usize = 0;
    while i < count
        invariant
            it.wf(),
            it.src() == s,
            it.hi() == s.seq_len(),
            count == s.seq_len(),
            it.lo() == i,
            i <= count,
            out@.len() == i,
            forall|j: int| 0 <= j < i ==> out@[j] == yielded(s, j),
        decreases count - i,
    {
        let v = match it.next() {
            Some(v) => v,
            None => Value::Undefined,
        };
        out.push(v);
        i = i + 1;
    }
    proof {
        assert(out@ =~= seq_values(s));
    }
    out
}

/// Collects a full backward traversal: exactly `seq_len()` values are
/// yielded, in reverse index order, gaps as the undefined sentinel.
pub fn collect_backward<T: crate::sequence::SeqObject>(s: &T) -> (r: Vec<Value>)
    ensures
        r@ == seq_values(s).reverse(),
{
    let mut it = SeqObject(s).iter();
    let count = it.len();
    let mut out: Vec<Value> = Vec::new();
    let mut i: usize = 0;
    while i < count
        invariant
            it.wf(),
            it.src() == s,
            it.lo() == 0,
            count == s.seq_len(),
            it.hi() == count - i,
            i <= count,
            out@.len() == i,
            forall|j: int| 0 <= j < i ==> out@[j] == yielded(s, count - 1 - j),
        decreases count - i,
    {
        let v = match it.next_back() {
            Some(v) => v,
            None => Value::Undefined,
        };
        out.push(v);
        i = i + 1;
    }
    proof {
        assert(out@ =~= seq_values(s).reverse());
    }
    out
}

} // verus!
