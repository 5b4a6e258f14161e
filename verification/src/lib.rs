//! A growable array that owns a contiguous buffer of typed elements.
//!
//! The array starts empty with no slots reserved. The first append reserves
//! an initial batch of four slots; once those are full, every further append
//! that finds the buffer full doubles the number of reserved slots. Reserved
//! slots beyond the current length hold no value: reads are bounds-checked
//! against the length, never against the reservation. Elements and the buffer
//! are released exactly once, when the array goes out of scope, by ownership.

use vstd::prelude::*;

verus! {

/// Number of slots reserved by the first append.
pub const INITIAL_CAPACITY: usize = 4;

/// Holds exactly when `c` is a reachable reservation size: zero before the
/// first append, and afterwards the initial batch of four doubled some number
/// of times.
pub open spec fn is_capacity_value(c: nat) -> bool
    decreases c,
{
    if c == 0 {
        true
    } else if c == INITIAL_CAPACITY {
        true
    } else {
        c > INITIAL_CAPACITY && c % 2 == 0 && is_capacity_value((c / 2) as nat)
    }
}

/// The reservation size after one append, as a function of the size and the
/// length beforehand: the first append reserves four slots, an append into a
/// full buffer doubles the reservation, and any other append leaves it alone.
pub open spec fn next_capacity(cap: nat, len: nat) -> nat {
    if cap == 0 {
        INITIAL_CAPACITY as nat
    } else if len < cap {
        cap
    } else {
        2 * cap
    }
}

/// A growable array: a buffer of reserved slots, of which the first
/// `self@.len()` hold live elements in append order.
pub struct MyVec<T> {
    elems: Vec<T>,
    cap: usize,
}

impl<T> View for MyVec<T> {
    type V = Seq<T>;

    closed spec fn view(&self) -> Seq<T> {
        self.elems@
    }
}

impl<T> MyVec<T> {
    /// Number of slots currently reserved.
    pub closed spec fn spec_capacity(&self) -> nat {
        self.cap as nat
    }

    #[verifier::type_invariant]
    spec fn wf(self) -> bool {
        self.elems@.len() <= self.cap && is_capacity_value(self.cap as nat)
    }

    /// Creates an empty array. No slots are reserved and no allocation is
    /// made until the first append.
    pub fn new() -> (r: Self)
        ensures
            r@ == Seq::<T>::empty(),
            r.spec_capacity() == 0,
    {
        MyVec { elems: Vec::new(), cap: 0 }
    }

    /// Number of live elements.
    pub fn len(&self) -> (r: usize)
        ensures
            r == self@.len(),
    {
        self.elems.len()
    }

    /// Number of reserved slots: zero before the first append, afterwards
    /// always a doubling of the initial batch of four, and never below the
    /// length.
    pub fn capacity(&self) -> (r: usize)
        ensures
            r == self.spec_capacity(),
            self@.len() <= r,
            is_capacity_value(r as nat),
    {
        proof {
            use_type_invariant(self);
        }
        self.cap
    }

    /// Appends `item` as the new last element, reserving or doubling the
    /// buffer first when no free slot is left. Elements already stored keep
    /// their positions and values.
    ///
    /// The scheme does not support zero-sized element types, and a
    /// reservation too large to double is its natural ceiling; both are
    /// ruled out up front rather than handled.
    pub fn push(&mut self, item: T)
        requires
            vstd::layout::size_of::<T>() != 0,
            old(self)@.len() == old(self).spec_capacity() ==> 2 * old(self).spec_capacity()
                <= usize::MAX,
        ensures
            final(self)@ == old(self)@.push(item),
            final(self)@.len() == old(self)@.len() + 1,
            final(self)@[old(self)@.len() as int] == item,
            forall|i: int| 0 <= i < old(self)@.len() ==> final(self)@[i] == old(self)@[i],
            final(self).spec_capacity() == next_capacity(
                old(self).spec_capacity(),
                old(self)@.len(),
            ),
            old(self)@.len() <= old(self).spec_capacity(),
    {
        proof {
            use_type_invariant(&*self);
        }
        let mut elems: Vec<T> = Vec::new();
        std::mem::swap(&mut elems, &mut self.elems);
        if self.cap == 0 {
            elems.reserve(INITIAL_CAPACITY);
            elems.push(item);
            self.cap = INITIAL_CAPACITY;
        } else if elems.len() < self.cap {
            elems.push(item);
        } else {
            let new_cap: usize = self.cap * 2;
            proof {
                lemma_doubling_keeps_capacity_value(self.cap as nat);
            }
            elems.reserve(new_cap - elems.len());
            elems.push(item);
            self.cap = new_cap;
        }
        std::mem::swap(&mut elems, &mut self.elems);
    }

    /// Bounds-checked read: a reference to the element at `index` when
    /// `index` is below the length, absent otherwise. Reserved slots beyond
    /// the length are never read.
    pub fn get(&self, index: usize) -> (r: Option<&T>)
        ensures
            index < self@.len() ==> r == Some(&self@[index as int]),
            index >= self@.len() ==> r is None,
    {
        if index < self.elems.len() {
            Some(&self.elems[index])
        } else {
            None
        }
    }
}

/// The reservation size never decreases across an append.
pub proof fn lemma_capacity_never_decreases(cap: nat, len: nat)
    ensures
        next_capacity(cap, len) >= cap,
{
}

/// An append keeps the reservation size reachable: starting from zero or from
/// the initial batch doubled some number of times, it stays so.
pub proof fn lemma_next_capacity_is_capacity_value(cap: nat, len: nat)
    requires
        is_capacity_value(cap),
    ensures
        is_capacity_value(next_capacity(cap, len)),
{
    if cap != 0 && len >= cap {
        lemma_doubling_keeps_capacity_value(cap);
    }
}

/// Doubling a nonzero reachable reservation size gives a reachable one.
proof fn lemma_doubling_keeps_capacity_value(c: nat)
    requires
        c != 0,
        is_capacity_value(c),
    ensures
        is_capacity_value(2 * c),
{
    assert(c >= INITIAL_CAPACITY) by {
        reveal_with_fuel(is_capacity_value, 2);
    }
}

} // verus!
