//! A bounded stack of undone drawings: when full, a push forgets the oldest one.

use std::collections::VecDeque;
use vstd::prelude::*;

verus! {

/// Most items a list made with `capacity` ever holds: the capacity itself, or
/// one for a list made with capacity zero (a push always stores its item).
pub open spec fn held_at_most(capacity: nat) -> nat {
    if capacity == 0 {
        1
    } else {
        capacity
    }
}

/// The items kept by a push of `d` onto `items` in a list of `capacity`:
/// when the list is full and not empty its oldest item (the front) is dropped,
/// then `d` goes on top.
pub open spec fn pushed<T>(items: Seq<T>, capacity: nat, d: T) -> Seq<T> {
    let kept = if items.len() >= capacity && items.len() > 0 {
        items.drop_first()
    } else {
        items
    };
    kept.push(d)
}

/// A push keeps exactly the newest drawings: the old ones followed by `d`,
/// without as many of the oldest as exceed the bound.
pub proof fn lemma_push_keeps_newest<T>(items: Seq<T>, capacity: nat, d: T)
    requires
        items.len() <= held_at_most(capacity),
    ensures
        pushed(items, capacity, d).len() <= held_at_most(capacity),
        pushed(items, capacity, d) == items.push(d).skip(
            items.len() + 1 - pushed(items, capacity, d).len(),
        ),
        pushed(items, capacity, d).len() == if items.len() + 1 <= held_at_most(capacity) {
            items.len() + 1
        } else {
            held_at_most(capacity)
        },
{
    let all = items.push(d);
    let p = pushed(items, capacity, d);
    if items.len() >= capacity && items.len() > 0 {
        assert(p =~= all.skip(1));
    } else {
        assert(p =~= all.skip(0));
    }
}

/// Popping right after a push hands back the pushed drawing and leaves the
/// drawings that were there before, unless the push had to drop the oldest.
pub proof fn lemma_pop_after_push<T>(items: Seq<T>, capacity: nat, d: T)
    ensures
        pushed(items, capacity, d).len() > 0,
        pushed(items, capacity, d).last() == d,
        items.len() < capacity || items.len() == 0 ==> pushed(items, capacity, d).drop_last()
            == items,
{
    if items.len() < capacity || items.len() == 0 {
        assert(pushed(items, capacity, d).drop_last() =~= items);
    }
}

/// Stack of undone drawings, bounded by a capacity fixed at creation.
pub struct RedoList<T> {
    drawings: VecDeque<T>,
    capacity: usize,
}

impl<T> View for RedoList<T> {
    type V = Seq<T>;

    /// The stored drawings, oldest first; the top of the stack is the last one.
    closed spec fn view(&self) -> Seq<T> {
        self.drawings@
    }
}

impl<T> RedoList<T> {
    /// The capacity the list was made with.
    pub closed spec fn spec_capacity(&self) -> usize {
        self.capacity
    }

    #[verifier::type_invariant]
    pub(crate) open spec fn within_capacity(&self) -> bool {
        self@.len() <= held_at_most(self.spec_capacity() as nat)
    }

    /// An empty list that keeps at most `capacity` drawings.
    pub fn new(capacity: usize) -> (list: Self)
        ensures
            list@ == Seq::<T>::empty(),
            list.spec_capacity() == capacity,
    {
        RedoList { drawings: VecDeque::with_capacity(capacity), capacity }
    }

    /// Puts `d` on top; when the list already holds `capacity` drawings the
    /// oldest one is dropped first.
    pub fn push(&mut self, d: T)
        ensures
            old(self)@.len() <= held_at_most(old(self).spec_capacity() as nat),
            final(self)@ == pushed(old(self)@, old(self).spec_capacity() as nat, d),
            final(self).spec_capacity() == old(self).spec_capacity(),
            final(self)@.len() <= held_at_most(final(self).spec_capacity() as nat),
    {
        proof {
            use_type_invariant(&*self);
        }
        let mut drawings = VecDeque::new();
        std::mem::swap(&mut drawings, &mut self.drawings);
        if drawings.len() >= self.capacity {
            let _ = drawings.pop_front();
        }
        drawings.push_back(d);
        self.drawings = drawings;
    }

    /// Takes the drawing on top, if there is one.
    pub fn pop(&mut self) -> (top: Option<T>)
        ensures
            old(self)@.len() <= held_at_most(old(self).spec_capacity() as nat),
            final(self).spec_capacity() == old(self).spec_capacity(),
            final(self)@.len() <= held_at_most(final(self).spec_capacity() as nat),
            match top {
                Some(d) => {
                    &&& old(self)@.len() > 0
                    &&& d == old(self)@.last()
                    &&& final(self)@ == old(self)@.drop_last()
                },
                None => {
                    &&& old(self)@.len() == 0
                    &&& final(self)@ == old(self)@
                },
            },
    {
        proof {
            use_type_invariant(&*self);
        }
        let mut drawings = VecDeque::new();
        std::mem::swap(&mut drawings, &mut self.drawings);
        let top = drawings.pop_back();
        self.drawings = drawings;
        top
    }

    /// The capacity the list was made with.
    #[verifier::when_used_as_spec(spec_capacity)]
    pub fn capacity(&self) -> (c: usize)
        ensures
            c == self.spec_capacity(),
            self@.len() <= held_at_most(self.spec_capacity() as nat),
    {
        proof {
            use_type_invariant(self);
        }
        self.capacity
    }

    /// Whether no drawing is stored.
    pub fn is_empty(&self) -> (empty: bool)
        ensures
            empty == (self@.len() == 0),
            self@.len() <= held_at_most(self.spec_capacity() as nat),
    {
        proof {
            use_type_invariant(self);
        }
        self.drawings.len() == 0
    }
}

impl<T: Clone> Clone for RedoList<T> {
    /// A copy holding a clone of each drawing, in the same order, with the same capacity.
    fn clone(&self) -> (copy: Self)
        ensures
            copy.spec_capacity() == self.spec_capacity(),
            copy@.len() == self@.len(),
            self@.len() <= held_at_most(self.spec_capacity() as nat),
            forall|i: int| 0 <= i < self@.len() ==> cloned::<T>(#[trigger] self@[i], copy@[i]),
    {
        proof {
            use_type_invariant(self);
        }
        RedoList { drawings: self.drawings.clone(), capacity: self.capacity }
    }
}

} // verus!
