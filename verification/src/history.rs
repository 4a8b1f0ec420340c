//! Undo, redo and recording of drawings.
//!
//! The editor keeps the drawings on the canvas in a `Vec` (oldest first) and the
//! undone drawings in an optional `RedoList`, which is created on the first undo
//! and discarded whenever a new drawing is recorded.

use crate::redo_list::{held_at_most, pushed, RedoList};
use vstd::prelude::*;

verus! {

/// How many undone drawings can be redone.
pub const REDO_LIST_SIZE: usize = 10;

/// The undone drawings, oldest first: none while there is no redo list.
pub open spec fn undone<T>(redo_list: Option<RedoList<T>>) -> Seq<T> {
    match redo_list {
        Some(list) => list@,
        None => Seq::empty(),
    }
}

/// Capacity of the redo list that an undo pushes onto: the existing list's,
/// or `REDO_LIST_SIZE` for the list an undo creates.
pub open spec fn redo_capacity<T>(redo_list: Option<RedoList<T>>) -> nat {
    match redo_list {
        Some(list) => list.spec_capacity() as nat,
        None => REDO_LIST_SIZE as nat,
    }
}

/// Drawings and undone drawings after an undo: the last drawing moves onto the
/// redo stack; with nothing drawn nothing changes.
pub open spec fn undo_step<T>(drawings: Seq<T>, undone: Seq<T>, capacity: nat) -> (Seq<T>, Seq<T>) {
    if drawings.len() == 0 {
        (drawings, undone)
    } else {
        (drawings.drop_last(), pushed(undone, capacity, drawings.last()))
    }
}

/// Drawings and undone drawings after a redo: the most recently undone drawing
/// goes back on top of the drawings; with nothing undone nothing changes.
pub open spec fn redo_step<T>(drawings: Seq<T>, undone: Seq<T>) -> (Seq<T>, Seq<T>) {
    if undone.len() == 0 {
        (drawings, undone)
    } else {
        (drawings.push(undone.last()), undone.drop_last())
    }
}

/// A redo list, if there is one, holds at most what its capacity allows.
pub open spec fn within_bound<T>(redo_list: Option<RedoList<T>>) -> bool {
    undone(redo_list).len() <= held_at_most(redo_capacity(redo_list))
}

/// Whether the undo button is enabled: there is a drawing list and it is not empty.
pub fn can_undo<T>(drawings: &Option<Vec<T>>) -> (enabled: bool)
    ensures
        enabled == (drawings is Some && drawings->0@.len() > 0),
{
    match drawings {
        Some(d) => d.len() > 0,
        None => false,
    }
}

/// Whether the redo button is enabled: there is a redo list and it is not empty.
pub fn can_redo<T>(redo_list: &Option<RedoList<T>>) -> (enabled: bool)
    ensures
        enabled == (undone(*redo_list).len() > 0),
        within_bound(*redo_list),
{
    match redo_list {
        Some(list) => !list.is_empty(),
        None => false,
    }
}

/// Undoes the last drawing: it is taken off `drawings` and pushed onto the redo
/// list, which is created with `REDO_LIST_SIZE` when there is none.
/// Returns whether there was a drawing to undo; if not, nothing changes.
pub fn undo<T>(drawings: &mut Vec<T>, redo_list: &mut Option<RedoList<T>>) -> (done: bool)
    ensures
        within_bound(*old(redo_list)),
        within_bound(*final(redo_list)),
        done == (old(drawings)@.len() > 0),
        (final(drawings)@, undone(*final(redo_list))) == undo_step(
            old(drawings)@,
            undone(*old(redo_list)),
            redo_capacity(*old(redo_list)),
        ),
        !done ==> *final(redo_list) == *old(redo_list),
        done ==> *final(redo_list) is Some && final(redo_list)->0.spec_capacity() == redo_capacity(
            *old(redo_list),
        ),
{
    if let Some(list) = &*redo_list {
        proof {
            use_type_invariant(list);
        }
    }
    if drawings.len() == 0 {
        return false;
    }
    let last = drawings.pop().unwrap();
    let mut list = match redo_list.take() {
        Some(list) => list,
        None => RedoList::new(REDO_LIST_SIZE),
    };
    list.push(last);
    *redo_list = Some(list);
    true
}

/// Redoes the most recently undone drawing: it is taken off the redo list and
/// put back on top of `drawings`. Returns whether there was one; if not,
/// nothing changes.
pub fn redo<T>(drawings: &mut Vec<T>, redo_list: &mut Option<RedoList<T>>) -> (done: bool)
    ensures
        within_bound(*old(redo_list)),
        within_bound(*final(redo_list)),
        done == (undone(*old(redo_list)).len() > 0),
        (final(drawings)@, undone(*final(redo_list))) == redo_step(old(drawings)@, undone(*old(redo_list))),
        !done ==> *final(redo_list) == *old(redo_list),
        done ==> *final(redo_list) is Some && final(redo_list)->0.spec_capacity() == redo_capacity(
            *old(redo_list),
        ),
{
    if !can_redo(redo_list) {
        return false;
    }
    let mut list = redo_list.take().unwrap();
    let top = list.pop().unwrap();
    drawings.push(top);
    *redo_list = Some(list);
    true
}

/// Records a new drawing: it goes on top of `drawings`, and what was undone
/// can no longer be redone.
pub fn record<T>(drawings: &mut Vec<T>, redo_list: &mut Option<RedoList<T>>, d: T)
    ensures
        final(drawings)@ == old(drawings)@.push(d),
        *final(redo_list) == None::<RedoList<T>>,
{
    drawings.push(d);
    *redo_list = None;
}

/// The drawings after `d` is recorded in place of the last one (when
/// `replace_last` and there is one) or on top of them.
pub open spec fn replaced<T>(drawings: Seq<T>, replace_last: bool, d: T) -> Seq<T> {
    (if replace_last && drawings.len() > 0 {
        drawings.drop_last()
    } else {
        drawings
    }).push(d)
}

/// Records a drawing made by editing a text: when `replace_last` (the edit
/// continues the text drawn last) the last drawing, if any, gives way to `d`;
/// otherwise `d` is added. Either way what was undone can no longer be redone.
pub fn record_replacing<T>(
    drawings: &mut Vec<T>,
    redo_list: &mut Option<RedoList<T>>,
    d: T,
    replace_last: bool,
)
    ensures
        final(drawings)@ == replaced(old(drawings)@, replace_last, d),
        *final(redo_list) == None::<RedoList<T>>,
{
    if replace_last {
        let _ = drawings.pop();
    }
    record(drawings, redo_list, d);
}

/// The undo button is enabled exactly when an undo changes something.
pub proof fn lemma_undo_enabled_iff_effective<T>(drawings: Seq<T>, undone: Seq<T>, capacity: nat)
    ensures
        (drawings.len() > 0) == (undo_step(drawings, undone, capacity) != (drawings, undone)),
{
    if drawings.len() > 0 {
        assert(undo_step(drawings, undone, capacity).0.len() != drawings.len());
    }
}

/// The redo button is enabled exactly when a redo changes something.
pub proof fn lemma_redo_enabled_iff_effective<T>(drawings: Seq<T>, undone: Seq<T>)
    ensures
        (undone.len() > 0) == (redo_step(drawings, undone) != (drawings, undone)),
{
    if undone.len() > 0 {
        assert(redo_step(drawings, undone).0.len() != drawings.len());
    }
}

/// Redoing a drawing and then undoing it gives back both the drawings and the
/// undone drawings, for every redo list within its capacity.
pub proof fn lemma_undo_after_redo<T>(drawings: Seq<T>, undone: Seq<T>, capacity: nat)
    requires
        undone.len() > 0,
        undone.len() <= held_at_most(capacity),
    ensures
        undo_step(redo_step(drawings, undone).0, redo_step(drawings, undone).1, capacity) == (
            drawings,
            undone,
        ),
{
    let (d1, u1) = redo_step(drawings, undone);
    assert(d1.drop_last() =~= drawings);
    assert(u1.push(undone.last()) =~= undone);
}

/// Undoing a drawing and then redoing it gives back the drawings; the undone
/// drawings come back too unless the redo list was full and dropped its oldest.
pub proof fn lemma_redo_after_undo<T>(drawings: Seq<T>, undone: Seq<T>, capacity: nat)
    requires
        drawings.len() > 0,
    ensures
        redo_step(undo_step(drawings, undone, capacity).0, undo_step(drawings, undone, capacity).1).0
            == drawings,
        undone.len() < capacity || undone.len() == 0 ==> redo_step(
            undo_step(drawings, undone, capacity).0,
            undo_step(drawings, undone, capacity).1,
        ).1 == undone,
{
    let (d1, u1) = undo_step(drawings, undone, capacity);
    assert(d1.push(drawings.last()) =~= drawings);
    if undone.len() < capacity || undone.len() == 0 {
        assert(u1.drop_last() =~= undone);
    }
}

/// The state after `n` undos in a row.
pub open spec fn undo_times<T>(drawings: Seq<T>, undone: Seq<T>, capacity: nat, n: nat) -> (
    Seq<T>,
    Seq<T>,
)
    decreases n,
{
    if n == 0 {
        (drawings, undone)
    } else {
        let (d, u) = undo_step(drawings, undone, capacity);
        undo_times(d, u, capacity, (n - 1) as nat)
    }
}

/// The state after `n` redos in a row.
pub open spec fn redo_times<T>(drawings: Seq<T>, undone: Seq<T>, n: nat) -> (Seq<T>, Seq<T>)
    decreases n,
{
    if n == 0 {
        (drawings, undone)
    } else {
        let (d, u) = redo_step(drawings, undone);
        redo_times(d, u, (n - 1) as nat)
    }
}

proof fn lemma_redo_times_last<T>(drawings: Seq<T>, undone: Seq<T>, n: nat)
    requires
        n > 0,
    ensures
        redo_times(drawings, undone, n) == redo_step(
            redo_times(drawings, undone, (n - 1) as nat).0,
            redo_times(drawings, undone, (n - 1) as nat).1,
        ),
    decreases n,
{
    let (d, u) = redo_step(drawings, undone);
    if n > 1 {
        lemma_redo_times_last(d, u, (n - 1) as nat);
        assert(redo_times(drawings, undone, (n - 1) as nat) == redo_times(d, u, (n - 2) as nat));
    } else {
        assert(redo_times(d, u, 0) == (d, u));
    }
}

/// Any `n` drawings undone in a row can all be redone, giving back the
/// drawings and the undone drawings, as long as the redo list has room for
/// them (it never has to drop its oldest).
pub proof fn lemma_redo_all_undone<T>(drawings: Seq<T>, undone: Seq<T>, capacity: nat, n: nat)
    requires
        n <= drawings.len(),
        undone.len() + n <= capacity,
    ensures
        redo_times(
            undo_times(drawings, undone, capacity, n).0,
            undo_times(drawings, undone, capacity, n).1,
            n,
        ) == (drawings, undone),
    decreases n,
{
    if n > 0 {
        let (d1, u1) = undo_step(drawings, undone, capacity);
        lemma_redo_all_undone(d1, u1, capacity, (n - 1) as nat);
        let (d2, u2) = undo_times(d1, u1, capacity, (n - 1) as nat);
        lemma_redo_times_last(d2, u2, n);
        lemma_redo_after_undo(drawings, undone, capacity);
    }
}

/// Recording a text edit always leaves `d` on top: without replacing, `d` is
/// added to the drawings; replacing, `d` takes the place of the last drawing
/// (or is the only one when there was none).
pub proof fn lemma_text_edit_recorded<T>(drawings: Seq<T>, replace_last: bool, d: T)
    ensures
        replaced(drawings, replace_last, d).len() > 0,
        replaced(drawings, replace_last, d).last() == d,
        !replace_last ==> replaced(drawings, replace_last, d) == drawings.push(d),
        replace_last && drawings.len() > 0 ==> replaced(drawings, replace_last, d)
            == drawings.update(drawings.len() - 1, d),
        replace_last && drawings.len() == 0 ==> replaced(drawings, replace_last, d) == seq![d],
{
    if replace_last && drawings.len() > 0 {
        assert(replaced(drawings, replace_last, d) =~= drawings.update(drawings.len() - 1, d));
    }
    if replace_last && drawings.len() == 0 {
        assert(replaced(drawings, replace_last, d) =~= seq![d]);
    }
}

/// An undo moves the last drawing to the top of the undone drawings and forgets
/// at most one undone drawing, the oldest, only when the list is full: the
/// undone drawings afterwards are the newest of the old ones followed by the
/// undone drawing, as many as the list can hold.
pub proof fn lemma_undo_keeps_newest<T>(drawings: Seq<T>, undone: Seq<T>, capacity: nat)
    requires
        drawings.len() > 0,
        undone.len() <= held_at_most(capacity),
    ensures
        undo_step(drawings, undone, capacity).0 == drawings.subrange(0, drawings.len() - 1),
        undo_step(drawings, undone, capacity).1.len() == if undone.len() + 1 <= held_at_most(
            capacity,
        ) {
            undone.len() + 1
        } else {
            held_at_most(capacity)
        },
        undo_step(drawings, undone, capacity).1 == undone.push(drawings.last()).skip(
            undone.len() + 1 - undo_step(drawings, undone, capacity).1.len(),
        ),
        undo_step(drawings, undone, capacity).1.last() == drawings.last(),
{
    crate::redo_list::lemma_push_keeps_newest(undone, capacity, drawings.last());
    let u1 = undo_step(drawings, undone, capacity).1;
    assert(u1.last() == undone.push(drawings.last()).last());
}

/// A redo moves the most recently undone drawing back on top of the drawings
/// and leaves the other undone drawings as they were.
pub proof fn lemma_redo_moves_newest<T>(drawings: Seq<T>, undone: Seq<T>)
    requires
        undone.len() > 0,
    ensures
        redo_step(drawings, undone).0 == drawings.push(undone[undone.len() - 1]),
        redo_step(drawings, undone).1 == undone.subrange(0, undone.len() - 1),
{
}

/// The first undo makes a redo list that keeps the last `REDO_LIST_SIZE` (ten)
/// undone drawings; later undos keep the list's own capacity. Without a redo
/// list nothing is undone.
pub proof fn lemma_redo_list_capacity<T>(redo_list: Option<RedoList<T>>)
    ensures
        REDO_LIST_SIZE == 10,
        redo_list is None ==> redo_capacity(redo_list) == 10 && undone(redo_list).len() == 0,
        redo_list matches Some(list) ==> redo_capacity(redo_list) == list.spec_capacity()
            && undone(redo_list) == list@,
{
}

} // verus!
