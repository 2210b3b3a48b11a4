//! A bounded first-in first-out queue of pending direction changes.

use std::collections::VecDeque;
use vstd::prelude::*;
use crate::direction::Direction;

verus! {

/// No entry of `s` equals the entry right after it.
pub open spec fn no_adjacent_repeat(s: Seq<Direction>) -> bool {
    forall|i: int, j: int| 0 <= i < s.len() && j == i + 1 && j < s.len() ==> s[i] != s[j]
}

/// The most entries a queue made with limit `capacity` ever holds. A limit
/// of zero still lets one entry in, since an entry is only dropped to make
/// room and never refused for want of it.
pub open spec fn max_len(capacity: nat) -> nat {
    if capacity == 0 {
        1
    } else {
        capacity
    }
}

/// What is left of `s` once room has been made for one more entry under the
/// limit `capacity`: the oldest entry leaves if the queue is at its limit.
pub open spec fn evicted(s: Seq<Direction>, capacity: nat) -> Seq<Direction> {
    if s.len() >= capacity && s.len() > 0 {
        s.drop_first()
    } else {
        s
    }
}

/// The queue after `d` is offered to `s` under the limit `capacity`: room is
/// made first, then `d` is appended unless it repeats the newest entry.
pub open spec fn enqueued(s: Seq<Direction>, capacity: nat, d: Direction) -> Seq<Direction> {
    let kept = evicted(s, capacity);
    if kept.len() > 0 && kept.last() == d {
        kept
    } else {
        kept.push(d)
    }
}

/// The oldest entry of `s`, if there is one.
pub open spec fn front(s: Seq<Direction>) -> Option<Direction> {
    if s.len() > 0 {
        Some(s.first())
    } else {
        None
    }
}

/// The queue `s` without its oldest entry; an empty queue stays empty.
pub open spec fn dequeued(s: Seq<Direction>) -> Seq<Direction> {
    if s.len() > 0 {
        s.drop_first()
    } else {
        s
    }
}

/// Bounded queue of direction changes, oldest first.
pub struct InputBuffer {
    commands: VecDeque<Direction>,
    max_size: usize,
}

impl View for InputBuffer {
    type V = Seq<Direction>;

    /// The queued directions, oldest first.
    closed spec fn view(&self) -> Seq<Direction> {
        self.commands@
    }
}

impl InputBuffer {
    /// The limit the queue was made with.
    pub closed spec fn capacity(&self) -> nat {
        self.max_size as nat
    }

    /// The queue's invariant: it is within its bound and never holds the same
    /// direction twice in a row. `new` establishes it and every operation
    /// keeps it.
    pub open spec fn wf(&self) -> bool {
        &&& self@.len() <= max_len(self.capacity())
        &&& no_adjacent_repeat(self@)
    }

    /// An empty queue with limit `max_size`.
    pub fn new(max_size: usize) -> (buffer: InputBuffer)
        requires
            max_size <= isize::MAX,
        ensures
            buffer@ == Seq::<Direction>::empty(),
            buffer.capacity() == max_size,
            buffer.wf(),
    {
        InputBuffer { commands: VecDeque::with_capacity(max_size), max_size }
    }

    /// Offers `direction` to the queue. A queue at its limit first drops its
    /// oldest entry; the direction is then appended unless it equals the
    /// newest entry.
    pub fn add_command(&mut self, direction: Direction)
        ensures
            final(self)@ == enqueued(old(self)@, old(self).capacity(), direction),
            final(self).capacity() == old(self).capacity(),
            final(self)@.len() > 0 && final(self)@.last() == direction,
            old(self).wf() ==> final(self).wf(),
    {
        if self.commands.len() >= self.max_size {
            let _ = self.commands.pop_front();
        }
        let n: usize = self.commands.len();
        if n == 0 || self.commands[n - 1] != direction {
            self.commands.push_back(direction);
        }
    }

    /// Takes the oldest entry out of the queue, or returns `None` when the
    /// queue is empty.
    pub fn get_next_command(&mut self) -> (next: Option<Direction>)
        ensures
            next == front(old(self)@),
            final(self)@ == dequeued(old(self)@),
            final(self).capacity() == old(self).capacity(),
            old(self).wf() ==> final(self).wf(),
    {
        self.commands.pop_front()
    }

    /// Empties the queue.
    pub fn clear(&mut self)
        ensures
            final(self)@ == Seq::<Direction>::empty(),
            final(self).capacity() == old(self).capacity(),
            final(self).wf(),
    {
        self.commands.clear();
    }

    /// Number of queued directions.
    pub fn len(&self) -> (n: usize)
        ensures
            n == self@.len(),
    {
        self.commands.len()
    }

    /// Whether nothing is queued.
    pub fn is_empty(&self) -> (empty: bool)
        ensures
            empty == (self@.len() == 0),
    {
        self.commands.len() == 0
    }
}

/// A queue within its bound stays within it when a direction is offered, and
/// for a limit of at least one the bound is the limit itself.
pub proof fn lemma_enqueue_bounded(s: Seq<Direction>, capacity: nat, d: Direction)
    requires
        s.len() <= max_len(capacity),
    ensures
        enqueued(s, capacity, d).len() <= max_len(capacity),
        capacity >= 1 ==> enqueued(s, capacity, d).len() <= capacity,
{
}

/// Offering a direction to a full queue drops the oldest entry and nothing
/// else: what remains of the old queue is the old queue without its first
/// entry, and the new direction is at the back.
pub proof fn lemma_enqueue_evicts_oldest(s: Seq<Direction>, capacity: nat, d: Direction)
    requires
        capacity >= 1,
        s.len() == capacity,
    ensures
        enqueued(s, capacity, d) == if capacity >= 2 && s.last() == d {
            s.drop_first()
        } else {
            s.drop_first().push(d)
        },
        enqueued(s, capacity, d).last() == d,
{
}

/// Offering a direction to a queue with room keeps every entry, and appends
/// the direction only if it differs from the newest entry.
pub proof fn lemma_enqueue_with_room(s: Seq<Direction>, capacity: nat, d: Direction)
    requires
        s.len() < capacity,
    ensures
        enqueued(s, capacity, d) == if s.len() > 0 && s.last() == d {
            s
        } else {
            s.push(d)
        },
{
}

/// Offering the same direction twice in a row never stores it twice: the
/// second offer appends nothing, and in a queue with room it changes
/// nothing at all.
pub proof fn lemma_repeat_collapses(s: Seq<Direction>, capacity: nat, d: Direction)
    ensures
        ({
            let once = enqueued(s, capacity, d);
            let twice = enqueued(once, capacity, d);
            &&& twice.len() <= once.len()
            &&& twice.last() == d
            &&& once.len() < capacity ==> twice == once
            &&& capacity >= 2 ==> twice == evicted(once, capacity)
        }),
{
}

/// Offering a direction to a queue that never repeats a direction back to
/// back gives such a queue again.
pub proof fn lemma_enqueue_keeps_no_repeat(s: Seq<Direction>, capacity: nat, d: Direction)
    requires
        no_adjacent_repeat(s),
    ensures
        no_adjacent_repeat(enqueued(s, capacity, d)),
{
    lemma_dequeue_keeps_no_repeat(s);
}

/// Taking the oldest entry out of a queue that never repeats a direction
/// back to back gives such a queue again.
pub proof fn lemma_dequeue_keeps_no_repeat(s: Seq<Direction>)
    requires
        no_adjacent_repeat(s),
    ensures
        no_adjacent_repeat(dequeued(s)),
{
}

} // verus!
