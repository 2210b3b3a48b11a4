//! A reusable buffer of shadow positions, one per snake segment.
//!
//! The buffer keeps its slots between uses: emptying it only resets the
//! count of slots in use, and appending overwrites a kept slot before it
//! allocates a new one.

use vstd::prelude::*;

verus! {

/// A position in cell units, as handed to whatever draws the snake.
#[derive(Clone, Copy, Debug, PartialEq, Eq, Hash, Structural)]
pub struct IVec2 {
    pub x: i32,
    pub y: i32,
}

/// Growable buffer of positions with a logical length.
pub struct Vec2Pool {
    pool: Vec<IVec2>,
    used_count: usize,
}

impl View for Vec2Pool {
    type V = Seq<IVec2>;

    /// The positions in use, in the order they were appended.
    closed spec fn view(&self) -> Seq<IVec2> {
        self.pool@.take(self.used_count as int)
    }
}

impl Vec2Pool {
    /// Number of slots the buffer holds, in use or not.
    pub closed spec fn slots(&self) -> nat {
        self.pool@.len()
    }

    /// The buffer's invariant: the slots in use are slots it holds.
    pub closed spec fn wf(&self) -> bool {
        self.used_count <= self.pool@.len()
    }

    /// A well-formed buffer never has more positions in use than slots.
    pub proof fn lemma_len_within_slots(&self)
        requires
            self.wf(),
        ensures
            self@.len() <= self.slots(),
    {
    }

    /// A buffer of `capacity` slots, none of them in use.
    pub fn new(capacity: usize) -> (pool: Vec2Pool)
        requires
            capacity * 8 <= isize::MAX,
        ensures
            pool@ == Seq::<IVec2>::empty(),
            pool.slots() == capacity,
            pool.wf(),
    {
        Vec2Pool { pool: vec![IVec2 { x: 0, y: 0 }; capacity], used_count: 0 }
    }

    /// Appends the position `(x, y)` and returns the slot that now holds
    /// it. A kept slot is overwritten if there is one; otherwise the buffer
    /// grows by one slot.
    pub fn get(&mut self, x: i32, y: i32) -> (slot: &mut IVec2)
        requires
            old(self).wf(),
            old(self)@.len() < usize::MAX,
        ensures
            *slot == (IVec2 { x, y }),
            final(self)@ == old(self)@.push(*final(slot)),
            final(self).slots() == if old(self)@.len() < old(self).slots() {
                old(self).slots()
            } else {
                old(self).slots() + 1
            },
            final(self).wf(),
    {
        if self.used_count >= self.pool.len() {
            self.pool.push(IVec2 { x, y });
        } else {
            self.pool[self.used_count] = IVec2 { x, y };
        }
        let result = &mut self.pool[self.used_count];
        self.used_count += 1;
        result
    }

    /// Marks every slot as unused. No slot is given up.
    pub fn reset(&mut self)
        ensures
            final(self)@ == Seq::<IVec2>::empty(),
            final(self).slots() == old(self).slots(),
            final(self).wf(),
    {
        self.used_count = 0;
    }

    /// The positions in use, in order.
    pub fn get_slice(&self) -> (positions: &[IVec2])
        requires
            self.wf(),
        ensures
            positions@ == self@,
    {
        vstd::slice::slice_subrange(self.pool.as_slice(), 0, self.used_count)
    }
}

} // verus!
