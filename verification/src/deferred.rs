//! Work that interrupt handlers leave for the main loop.
//!
//! An interrupt handler does no more than record that something happened.
//! It does so by marking the handle of a client in this table; the main
//! loop takes the marked handles out, one at a time and in turn, and lets
//! each client do its work. The table never holds more clients than the
//! capacity it was made with.

use vstd::prelude::*;
use crate::round_robin::{lemma_round_visits_all, origin_of, slot_at};

verus! {

/// Whether the `k`-th handle of the round that starts at the cursor is the
/// first that is marked.
pub open spec fn first_marked(marks: Seq<bool>, cursor: usize, k: int) -> bool {
    let n = marks.len();
    let origin = origin_of(cursor, n);
    &&& 0 <= k < n
    &&& marks[slot_at(origin, k, n as int)]
    &&& forall|j: int| 0 <= j < k ==> !(#[trigger] marks[slot_at(origin, j, n as int)])
}

/// Whether no handle is marked.
pub open spec fn none_marked(marks: Seq<bool>) -> bool {
    forall|i: int| 0 <= i < marks.len() ==> !(#[trigger] marks[i])
}

/// The table of deferred calls.
pub struct DeferredCalls {
    marks: Vec<bool>,
    capacity: usize,
    cursor: usize,
}

impl DeferredCalls {
    /// For each registered client, whether a call is pending for it.
    pub closed spec fn view(&self) -> Seq<bool> {
        self.marks@
    }

    /// The most clients the table may hold.
    pub closed spec fn limit(&self) -> nat {
        self.capacity as nat
    }

    /// Where the next round over the handles starts.
    pub closed spec fn cursor(&self) -> usize {
        self.cursor
    }

    /// The table holds no more clients than it may.
    pub open spec fn wf(&self) -> bool {
        self@.len() <= self.limit()
    }

    /// A table without clients that will hold up to `capacity` of them.
    pub fn new(capacity: usize) -> (table: Self)
        ensures
            table.wf(),
            table@ == Seq::<bool>::empty(),
            table.limit() == capacity,
            table.cursor() == 0,
    {
        DeferredCalls { marks: Vec::new(), capacity, cursor: 0 }
    }

    /// The number of registered clients.
    pub fn len(&self) -> (count: usize)
        ensures
            count == self@.len(),
    {
        self.marks.len()
    }

    /// Registers a client and gives it its handle: the next free position.
    /// There is none when the table is full, and then nothing changes.
    pub fn register(&mut self) -> (handle: Option<usize>)
        requires
            old(self).wf(),
        ensures
            final(self).wf(),
            final(self).limit() == old(self).limit(),
            final(self).cursor() == old(self).cursor(),
            old(self)@.len() < old(self).limit() ==> handle == Some(old(self)@.len() as usize)
                && final(self)@ == old(self)@.push(false),
            old(self)@.len() >= old(self).limit() ==> handle is None && final(self)@ == old(self)@,
    {
        if self.marks.len() < self.capacity {
            let handle = self.marks.len();
            self.marks.push(false);
            Some(handle)
        } else {
            None
        }
    }

    /// Marks the client with the given handle as having a call pending.
    /// Says whether the mark is new, or `None` for a handle that no client
    /// has.
    pub fn set(&mut self, handle: usize) -> (fresh: Option<bool>)
        ensures
            final(self).limit() == old(self).limit(),
            final(self).cursor() == old(self).cursor(),
            handle < old(self)@.len() ==> fresh == Some(!old(self)@[handle as int])
                && final(self)@ == old(self)@.update(handle as int, true),
            handle >= old(self)@.len() ==> fresh is None && final(self)@ == old(self)@,
    {
        if handle < self.marks.len() {
            let marked = self.marks[handle];
            self.marks.set(handle, true);
            Some(!marked)
        } else {
            None
        }
    }

    /// Whether a call is pending for some client.
    pub fn has_pending(&self) -> (yes: bool)
        ensures
            yes == !none_marked(self@),
    {
        let mut i: usize = 0;
        while i < self.marks.len()
            invariant
                i <= self.marks@.len(),
                forall|j: int| 0 <= j < i ==> !(#[trigger] self.marks@[j]),
            decreases self.marks@.len() - i,
        {
            if self.marks[i] {
                return true;
            }
            i += 1;
        }
        false
    }

    /// Takes out the next pending call: going round from the cursor, the
    /// first handle that is marked. Its mark is cleared and the cursor moves
    /// behind it, so that every client gets its turn. `None`, with nothing
    /// changed, when no call is pending.
    pub fn next_pending(&mut self) -> (handle: Option<usize>)
        ensures
            final(self).limit() == old(self).limit(),
            handle is None <==> none_marked(old(self)@),
            handle is None ==> final(self)@ == old(self)@
                && final(self).cursor() == old(self).cursor(),
            handle matches Some(h) ==> {
                &&& h < old(self)@.len()
                &&& exists|k: int|
                    first_marked(old(self)@, old(self).cursor(), k) && h == slot_at(
                        origin_of(old(self).cursor(), old(self)@.len()),
                        k,
                        old(self)@.len() as int,
                    )
                &&& final(self)@ == old(self)@.update(h as int, false)
                &&& final(self).cursor() == slot_at(h as int, 1, old(self)@.len() as int)
            },
    {
        let n = self.marks.len();
        let origin = if self.cursor < n {
            self.cursor
        } else {
            0
        };
        let mut k: usize = 0;
        while k < n
            invariant
                n == self.marks@.len(),
                self.marks@ == old(self).marks@,
                self.cursor == old(self).cursor,
                self.capacity == old(self).capacity,
                origin == origin_of(self.cursor, n as nat),
                origin < n || n == 0,
                k <= n,
                forall|j: int|
                    0 <= j < k ==> !(#[trigger] self.marks@[slot_at(origin as int, j, n as int)]),
            decreases n - k,
        {
            let at = if k < n - origin {
                origin + k
            } else {
                k - (n - origin)
            };
            assert(at == slot_at(origin as int, k as int, n as int));
            if self.marks[at] {
                assert(first_marked(old(self)@, old(self).cursor(), k as int));
                self.marks.set(at, false);
                self.cursor = if at + 1 < n {
                    at + 1
                } else {
                    0
                };
                return Some(at);
            }
            k += 1;
        }
        proof {
            assert forall|i: int| 0 <= i < self.marks@.len() implies !(
            #[trigger] self.marks@[i]) by {
                lemma_round_visits_all(origin as int, n as int, i);
                let j = if i >= origin {
                    i - origin
                } else {
                    i + n - origin
                };
                assert(slot_at(origin as int, j, n as int) == i);
            }
        }
        None
    }
}

} // verus!
