//! Identifiers of driver slots, and the bounded tables in which the kernel
//! keeps what a process has registered under them.

use vstd::prelude::*;

verus! {

/// Names one slot of one driver: the driver's number and the number of the
/// subscription or buffer within that driver.
#[derive(Clone, Copy, Debug, PartialEq, Eq, Structural)]
pub struct CallbackId {
    pub driver_num: usize,
    pub subscribe_num: usize,
}

/// One entry of a slot table.
#[derive(Debug)]
pub struct Slot<T> {
    pub id: CallbackId,
    pub value: T,
}

/// Whether some entry of `s` is filed under `id`.
pub open spec fn has_id<T>(s: Seq<Slot<T>>, id: CallbackId) -> bool {
    exists|i: int| 0 <= i < s.len() && (#[trigger] s[i]).id == id
}

/// The position of an entry filed under `id`.
pub open spec fn index_of<T>(s: Seq<Slot<T>>, id: CallbackId) -> int {
    choose|i: int| 0 <= i < s.len() && (#[trigger] s[i]).id == id
}

/// Whether no two entries of `s` are filed under the same identifier.
pub open spec fn distinct_ids<T>(s: Seq<Slot<T>>) -> bool {
    forall|i: int, j: int| 0 <= i < j < s.len() ==> (#[trigger] s[i]).id != (#[trigger] s[j]).id
}

/// The finite map that a sequence of entries stands for.
pub open spec fn as_map<T>(s: Seq<Slot<T>>) -> Map<CallbackId, T> {
    Map::new(|id: CallbackId| has_id(s, id), |id: CallbackId| s[index_of(s, id)].value)
}

/// In a sequence with distinct identifiers, an identifier is found only
/// where it stands.
pub proof fn lemma_index_of<T>(s: Seq<Slot<T>>, i: int)
    requires
        distinct_ids(s),
        0 <= i < s.len(),
    ensures
        has_id(s, s[i].id),
        index_of(s, s[i].id) == i,
        as_map(s).contains_key(s[i].id),
        as_map(s)[s[i].id] == s[i].value,
{
    let id = s[i].id;
    let j = index_of(s, id);
    assert(0 <= j < s.len() && s[j].id == id);
    if j < i {
        assert(s[j].id != s[i].id);
    }
    if i < j {
        assert(s[i].id != s[j].id);
    }
}

/// Replacing the value of the entry at `i` updates the map at its identifier.
pub proof fn lemma_update_value<T>(s: Seq<Slot<T>>, i: int, value: T)
    requires
        distinct_ids(s),
        0 <= i < s.len(),
    ensures
        distinct_ids(s.update(i, Slot { id: s[i].id, value })),
        as_map(s.update(i, Slot { id: s[i].id, value })) == as_map(s).insert(s[i].id, value),
{
    let t = s.update(i, Slot { id: s[i].id, value });
    assert forall|a: int, b: int| 0 <= a < b < t.len() implies (#[trigger] t[a]).id != (
    #[trigger] t[b]).id by {
        assert(t[a].id == s[a].id);
        assert(t[b].id == s[b].id);
    }
    assert forall|id: CallbackId| has_id(t, id) == has_id(s, id) by {
        if has_id(s, id) {
            let k = index_of(s, id);
            assert(t[k].id == id);
        }
        if has_id(t, id) {
            let k = index_of(t, id);
            assert(s[k].id == id);
        }
    }
    assert forall|id: CallbackId| has_id(t, id) implies #[trigger] as_map(t)[id] == as_map(
        s,
    ).insert(s[i].id, value)[id] by {
        let k = index_of(t, id);
        assert(t[k].id == id);
        assert(s[k].id == id);
        lemma_index_of(s, k);
        lemma_index_of(t, k);
    }
    assert(as_map(t) =~= as_map(s).insert(s[i].id, value));
}

/// Appending an entry under a fresh identifier inserts it into the map.
pub proof fn lemma_push_fresh<T>(s: Seq<Slot<T>>, id: CallbackId, value: T)
    requires
        distinct_ids(s),
        !has_id(s, id),
    ensures
        distinct_ids(s.push(Slot { id, value })),
        as_map(s.push(Slot { id, value })) == as_map(s).insert(id, value),
{
    let t = s.push(Slot { id, value });
    assert forall|a: int, b: int| 0 <= a < b < t.len() implies (#[trigger] t[a]).id != (
    #[trigger] t[b]).id by {
        assert(t[a] == s[a]);
        if b < s.len() {
            assert(t[b] == s[b]);
        } else {
            assert(s[a].id != id);
        }
    }
    assert forall|k: CallbackId| has_id(t, k) == (has_id(s, k) || k == id) by {
        if has_id(s, k) {
            let j = index_of(s, k);
            assert(t[j].id == k);
        }
        if k == id {
            assert(t[s.len() as int].id == k);
        }
        if has_id(t, k) {
            let j = index_of(t, k);
            if j < s.len() {
                assert(s[j].id == k);
            }
        }
    }
    assert forall|k: CallbackId| has_id(t, k) implies #[trigger] as_map(t)[k] == as_map(s).insert(
        id,
        value,
    )[k] by {
        let j = index_of(t, k);
        assert(t[j].id == k);
        lemma_index_of(t, j);
        if j < s.len() {
            assert(s[j].id == k);
            lemma_index_of(s, j);
        }
    }
    assert(as_map(t) =~= as_map(s).insert(id, value));
}

/// A table from slot identifiers to values that never holds more entries than
/// the capacity it was made with.
pub struct SlotTable<T> {
    entries: Vec<Slot<T>>,
    capacity: usize,
}

impl<T: Copy> SlotTable<T> {
    /// The entries in the order in which their identifiers were first set.
    pub closed spec fn entries(&self) -> Seq<Slot<T>> {
        self.entries@
    }

    /// The most entries the table may hold.
    pub closed spec fn limit(&self) -> nat {
        self.capacity as nat
    }

    /// The number of identifiers that have a value.
    pub open spec fn count(&self) -> nat {
        self.entries().len()
    }

    /// The table is within its capacity and files each identifier once.
    pub open spec fn wf(&self) -> bool {
        &&& self.count() <= self.limit()
        &&& distinct_ids(self.entries())
    }

    /// The table as a map.
    pub open spec fn view(&self) -> Map<CallbackId, T> {
        as_map(self.entries())
    }

    /// An empty table that will hold up to `capacity` entries.
    pub fn new(capacity: usize) -> (table: Self)
        ensures
            table.wf(),
            table.limit() == capacity,
            table.count() == 0,
            table@ == Map::<CallbackId, T>::empty(),
    {
        let table = SlotTable { entries: Vec::new(), capacity };
        assert(table@ =~= Map::<CallbackId, T>::empty());
        table
    }

    /// The most entries the table may hold.
    pub fn capacity(&self) -> (capacity: usize)
        ensures
            capacity == self.limit(),
    {
        self.capacity
    }

    /// The number of identifiers that have a value.
    pub fn len(&self) -> (count: usize)
        ensures
            count == self.count(),
    {
        self.entries.len()
    }

    /// Where `id` is filed, if it is.
    fn position(&self, id: CallbackId) -> (at: Option<usize>)
        requires
            self.wf(),
        ensures
            at matches Some(i) ==> i < self.count() && self.entries()[i as int].id == id,
            at is None ==> !has_id(self.entries(), id),
    {
        let mut i: usize = 0;
        while i < self.entries.len()
            invariant
                i <= self.entries@.len(),
                forall|j: int| 0 <= j < i ==> (#[trigger] self.entries@[j]).id != id,
            decreases self.entries@.len() - i,
        {
            if self.entries[i].id == id {
                return Some(i);
            }
            i += 1;
        }
        None
    }

    /// The value filed under `id`, if there is one.
    pub fn get(&self, id: CallbackId) -> (value: Option<T>)
        requires
            self.wf(),
        ensures
            value == (if self@.contains_key(id) {
                Some(self@[id])
            } else {
                None
            }),
    {
        match self.position(id) {
            Some(i) => {
                proof {
                    lemma_index_of(self.entries@, i as int);
                }
                Some(self.entries[i].value)
            },
            None => None,
        }
    }

    /// Files `value` under `id` and hands back what was filed there before.
    /// A new identifier is refused, and nothing changes, when the table is
    /// full.
    pub fn set(&mut self, id: CallbackId, value: T) -> (previous: Result<Option<T>, ()>)
        requires
            old(self).wf(),
        ensures
            final(self).wf(),
            final(self).limit() == old(self).limit(),
            old(self)@.contains_key(id) ==> previous == Ok::<Option<T>, ()>(Some(old(self)@[id]))
                && final(self).count() == old(self).count(),
            !old(self)@.contains_key(id) && old(self).count() < old(self).limit() ==> previous
                == Ok::<Option<T>, ()>(None) && final(self).count() == old(self).count() + 1,
            !old(self)@.contains_key(id) && old(self).count() >= old(self).limit() ==> previous
                == Err::<Option<T>, ()>(()),
            previous is Ok ==> final(self)@ == old(self)@.insert(id, value),
            previous is Err ==> final(self).entries() == old(self).entries(),
    {
        match self.position(id) {
            Some(i) => {
                proof {
                    lemma_index_of(self.entries@, i as int);
                    lemma_update_value(self.entries@, i as int, value);
                }
                let before = self.entries[i].value;
                self.entries.set(i, Slot { id, value });
                Ok(Some(before))
            },
            None => {
                if self.entries.len() < self.capacity {
                    proof {
                        lemma_push_fresh(self.entries@, id, value);
                    }
                    self.entries.push(Slot { id, value });
                    Ok(None)
                } else {
                    Err(())
                }
            },
        }
    }

    /// Removes every entry.
    pub fn clear(&mut self)
        ensures
            final(self).wf(),
            final(self).limit() == old(self).limit(),
            final(self).count() == 0,
            final(self)@ == Map::<CallbackId, T>::empty(),
    {
        self.entries.clear();
        assert(self@ =~= Map::<CallbackId, T>::empty());
    }
}

} // verus!
