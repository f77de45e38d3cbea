//! The sequence capability: ordered, index-addressed read access plus a
//! count, and what a full traversal of such a sequence yields.

use std::sync::Arc;
use vstd::prelude::*;

use crate::value::Value;

verus! {

/// Provides the behavior of an object holding a sequence of values.
///
/// An object holding an ordered collection of values (tuple, list and
/// the like) is represented by this trait.  A sequence should provide a
/// value for every index in `0..item_count()`, but absence within that
/// range is a legal, recoverable gap, not an error: traversal
/// substitutes the undefined sentinel there.
///
/// Implementations must tolerate concurrent read invocation: every
/// method takes `&self`, so internal mutable state needs synchronization
/// supplied by the implementer.
pub trait SeqObject: Send + Sync {
    /// The number of items the sequence reports.
    spec fn seq_len(&self) -> nat;

    /// The item the sequence holds at index `i`: absent for a gap or
    /// out of range.
    spec fn seq_item(&self, i: int) -> Option<Value>;

    /// Looks up an item by index.
    ///
    /// Sequences should provide a value for all items in the range of
    /// `0..item_count()`, but consumers assume that items within the
    /// range are undefined if absence is returned.
    fn get_item(&self, idx: usize) -> (r: Option<Value>)
        ensures
            r == self.seq_item(idx as int),
    ;

    /// Returns the number of items in the sequence.
    fn item_count(&self) -> (n: usize)
        ensures
            n == self.seq_len(),
    ;

}

/// The value a traversal yields at index `i`: the item the sequence
/// holds there, or the undefined sentinel for a gap.
pub open spec fn yielded<T: SeqObject>(s: &T, i: int) -> Value {
    match s.seq_item(i) {
        Some(v) => v,
        None => Value::Undefined,
    }
}

/// The exact sequence of values a full forward traversal yields: one
/// value for each index in `0..seq_len()`, gaps as the undefined
/// sentinel.
pub open spec fn seq_values<T: SeqObject>(s: &T) -> Seq<Value> {
    Seq::new(s.seq_len(), |i: int| yielded(s, i))
}


/// Traversal is exact: a full traversal yields one value for every
/// index the sequence reports, an absent item appearing as the
/// undefined sentinel at its position, never as early termination.
pub proof fn lemma_traversal_exact<T: SeqObject>(s: &T)
    ensures
        seq_values(s).len() == s.seq_len(),
        forall|i: int|
            0 <= i < s.seq_len() && s.seq_item(i) is Some ==> seq_values(s)[i] == s.seq_item(
                i,
            )->Some_0,
        forall|i: int|
            0 <= i < s.seq_len() && s.seq_item(i) is None ==> seq_values(s)[i]
                == Value::Undefined,
{
}

/// Forward and backward traversal yield exactly reversed orderings of
/// the same multiset of values.
pub proof fn lemma_backward_reverses_forward<T: SeqObject>(s: &T)
    ensures
        seq_values(s).reverse().len() == seq_values(s).len(),
        forall|i: int|
            0 <= i < seq_values(s).len() ==> seq_values(s).reverse()[i] == seq_values(s)[seq_values(
                s,
            ).len() - 1 - i],
        seq_values(s).reverse().to_multiset() == seq_values(s).to_multiset(),
{
    seq_values(s).lemma_reverse_to_multiset();
}

/// A sequence exposed through its length and indexed elements directly.
impl SeqObject for Vec<Value> {
    open spec fn seq_len(&self) -> nat {
        self@.len()
    }

    open spec fn seq_item(&self, i: int) -> Option<Value> {
        if 0 <= i < self@.len() {
            Some(self@[i])
        } else {
            None
        }
    }

    fn get_item(&self, idx: usize) -> (r: Option<Value>) {
        if idx < self.len() {
            Some(self[idx].clone())
        } else {
            None
        }
    }

    fn item_count(&self) -> (n: usize) {
        self.len()
    }
}

/// A borrowed slice exposed as a sequence through direct index and
/// length forwarding.
impl<'s> SeqObject for &'s [Value] {
    open spec fn seq_len(&self) -> nat {
        self@.len()
    }

    open spec fn seq_item(&self, i: int) -> Option<Value> {
        if 0 <= i < self@.len() {
            Some(self@[i])
        } else {
            None
        }
    }

    fn get_item(&self, idx: usize) -> (r: Option<Value>) {
        if idx < self.len() {
            Some(self[idx].clone())
        } else {
            None
        }
    }

    fn item_count(&self) -> (n: usize) {
        self.len()
    }
}

/// Shared-ownership forwarding: a reference-counted handle to a
/// sequence capability is itself the same sequence capability, every
/// operation forwarded unchanged to the inner implementation.
impl<T: SeqObject> SeqObject for Arc<T> {
    open spec fn seq_len(&self) -> nat {
        (**self).seq_len()
    }

    open spec fn seq_item(&self, i: int) -> Option<Value> {
        (**self).seq_item(i)
    }

    fn get_item(&self, idx: usize) -> (r: Option<Value>) {
        (**self).get_item(idx)
    }

    fn item_count(&self) -> (n: usize) {
        (**self).item_count()
    }
}

/// Wrapping a sequence capability in a shared, reference-counted handle
/// is behavior-preserving: the handle reports the same length, the same
/// items, and the same traversal as the wrapped implementation.
pub proof fn lemma_shared_seq_transparent<T: SeqObject>(a: &Arc<T>)
    ensures
        a.seq_len() == (**a).seq_len(),
        forall|i: int| #[trigger] a.seq_item(i) == (**a).seq_item(i),
        seq_values(a) == seq_values(&**a),
{
    assert(seq_values(a) =~= seq_values(&**a));
}

/// A sequence capability with no items: the sequence view of objects
/// that expose none.
pub struct EmptySeqObject;

impl SeqObject for EmptySeqObject {
    open spec fn seq_len(&self) -> nat {
        0
    }

    open spec fn seq_item(&self, i: int) -> Option<Value> {
        None
    }

    fn get_item(&self, idx: usize) -> (r: Option<Value>) {
        None
    }

    fn item_count(&self) -> (n: usize) {
        0
    }
}

} // verus!
