//! A doubly-ended list with removal by value.
//!
//! The container is abstracted by the sequence of its elements, so every
//! operation is specified exactly over that sequence. Removal compares
//! elements with `==`; its full characterisation is available whenever the
//! element type's equality obeys its specification.

use vstd::prelude::*;
use vstd::std_specs::cmp::PartialEqSpec;

verus! {

/// A list that supports pushing and popping at both ends and removing the
/// first element equal to a given value.
pub struct DoublyLinkedList<T> {
    items: Vec<T>,
}

impl<T> View for DoublyLinkedList<T> {
    type V = Seq<T>;

    /// The list is abstracted by its elements, front first.
    closed spec fn view(&self) -> Seq<T> {
        self.items@
    }
}

/// The position of the first element of `s` from `i` on that equals `x`
/// under the element type's equality specification.
pub open spec fn first_eq_from<T: PartialEq>(s: Seq<T>, x: T, i: int) -> Option<int>
    decreases s.len() - i,
{
    if i < 0 || i >= s.len() {
        None
    } else if s[i].eq_spec(&x) {
        Some(i)
    } else {
        first_eq_from(s, x, i + 1)
    }
}

proof fn lemma_first_eq_some<T: PartialEq>(s: Seq<T>, x: T, from: int, k: int)
    requires
        0 <= from <= k < s.len(),
        s[k].eq_spec(&x),
        forall|j: int| from <= j < k ==> !s[j].eq_spec(&x),
    ensures
        first_eq_from(s, x, from) == Some(k),
    decreases k - from,
{
    if from < k {
        lemma_first_eq_some(s, x, from + 1, k);
    }
}

proof fn lemma_first_eq_none<T: PartialEq>(s: Seq<T>, x: T, from: int)
    requires
        0 <= from,
        forall|j: int| from <= j < s.len() ==> !s[j].eq_spec(&x),
    ensures
        first_eq_from(s, x, from) is None,
    decreases s.len() - from,
{
    if from < s.len() {
        lemma_first_eq_none(s, x, from + 1);
    }
}

impl<T: PartialEq> DoublyLinkedList<T> {
    /// An empty list.
    pub fn new() -> (r: Self)
        ensures
            r@ == Seq::<T>::empty(),
    {
        DoublyLinkedList { items: Vec::new() }
    }

    /// The number of elements.
    pub fn len(&self) -> (r: usize)
        ensures
            r == self@.len(),
    {
        self.items.len()
    }

    /// Add an element at the front.
    pub fn push_front(&mut self, data: T)
        ensures
            final(self)@ == old(self)@.insert(0, data),
    {
        self.items.insert(0, data);
    }

    /// Add an element at the back.
    pub fn push_back(&mut self, data: T)
        ensures
            final(self)@ == old(self)@.push(data),
    {
        self.items.push(data);
    }

    /// Remove and return the front element, if any.
    pub fn pop_front(&mut self) -> (r: Option<T>)
        ensures
            old(self)@.len() == 0 ==> r is None && final(self)@ == old(self)@,
            old(self)@.len() > 0 ==> (r matches Some(v) && v == old(self)@[0] && final(self)@
                == old(self)@.remove(0)),
    {
        if self.items.len() == 0 {
            None
        } else {
            Some(self.items.remove(0))
        }
    }

    /// Remove and return the back element, if any.
    pub fn pop_back(&mut self) -> (r: Option<T>)
        ensures
            old(self)@.len() == 0 ==> r is None && final(self)@ == old(self)@,
            old(self)@.len() > 0 ==> (r matches Some(v) && v == old(self)@.last()
                && final(self)@ == old(self)@.drop_last()),
    {
        let r = self.items.pop();
        proof {
            if old(self)@.len() > 0 {
                assert(old(self)@.subrange(0, old(self)@.len() - 1) =~= old(self)@.drop_last());
            }
        }
        r
    }

    /// Remove the first element equal to `data`; report whether one was
    /// found. Whenever the element type's `==` obeys its specification,
    /// exactly the first equal element is removed, and the list is
    /// untouched when none is equal.
    pub fn remove(&mut self, data: T) -> (r: bool)
        ensures
            r ==> exists|i: int|
                0 <= i < old(self)@.len() && final(self)@ == old(self)@.remove(i),
            !r ==> final(self)@ == old(self)@,
            T::obeys_eq_spec() ==> match first_eq_from(old(self)@, data, 0) {
                Some(i) => r && final(self)@ == old(self)@.remove(i),
                None => !r && final(self)@ == old(self)@,
            },
    {
        let mut i: usize = 0;
        while i < self.items.len()
            invariant
                0 <= i <= self@.len(),
                self@ == old(self)@,
                T::obeys_eq_spec() ==> forall|j: int| 0 <= j < i ==> !old(self)@[j].eq_spec(
                    &data,
                ),
            decreases self@.len() - i,
        {
            if self.items[i] == data {
                proof {
                    if T::obeys_eq_spec() {
                        lemma_first_eq_some(old(self)@, data, 0, i as int);
                    }
                }
                self.items.remove(i);
                return true;
            }
            i += 1;
        }
        proof {
            if T::obeys_eq_spec() {
                lemma_first_eq_none(old(self)@, data, 0);
            }
        }
        false
    }
}

} // verus!
