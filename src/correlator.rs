//! The pending-request table that matches responses to waiting requests.

use vstd::prelude::*;
use crate::protocol::ResponseMessage;

verus! {

/// Requests that await a response, each under its identifier with the slot
/// that its response is to be delivered to.
pub struct PendingTable<T> {
    ids: Vec<String>,
    slots: Vec<T>,
    entries: Ghost<Map<Seq<char>, T>>,
}

impl<T> View for PendingTable<T> {
    type V = Map<Seq<char>, T>;

    closed spec fn view(&self) -> Map<Seq<char>, T> {
        self.entries@
    }
}

impl<T> PendingTable<T> {
    /// The vectors hold exactly the entries of the map, each identifier once.
    pub closed spec fn wf(&self) -> bool {
        &&& self.ids@.len() == self.slots@.len()
        &&& self.entries@.dom().finite()
        &&& self.entries@.dom().len() == self.ids@.len()
        &&& forall|i: int|
            0 <= i < self.ids@.len() ==> {
                &&& self.entries@.contains_key(#[trigger] self.ids@[i]@)
                &&& self.entries@[self.ids@[i]@] == self.slots@[i]
            }
        &&& forall|i: int, j: int|
            0 <= i < self.ids@.len() && 0 <= j < self.ids@.len() && i != j
                ==> #[trigger] self.ids@[i]@ != #[trigger] self.ids@[j]@
        &&& forall|k: Seq<char>|
            #[trigger] self.entries@.contains_key(k) ==> exists|i: int|
                0 <= i < self.ids@.len() && self.ids@[i]@ == k
    }

    /// An empty table.
    pub fn new() -> (r: Self)
        ensures
            r.wf(),
            r@ == Map::<Seq<char>, T>::empty(),
    {
        PendingTable { ids: Vec::new(), slots: Vec::new(), entries: Ghost(Map::empty()) }
    }

    /// The number of requests that are waiting.
    pub fn len(&self) -> (r: usize)
        requires
            self.wf(),
        ensures
            r == self@.dom().len(),
    {
        self.ids.len()
    }

    /// Whether no request is waiting.
    pub fn is_empty(&self) -> (r: bool)
        requires
            self.wf(),
        ensures
            r == (self@.dom().len() == 0),
    {
        self.ids.len() == 0
    }

    fn position(&self, id: &str) -> (r: Option<usize>)
        requires
            self.wf(),
        ensures
            match r {
                Some(i) => i < self.ids@.len() && self.ids@[i as int]@ == id@,
                None => !self@.contains_key(id@),
            },
    {
        let key = id.to_owned();
        let mut i: usize = 0;
        while i < self.ids.len()
            invariant
                self.wf(),
                key@ == id@,
                i <= self.ids@.len(),
                forall|j: int| 0 <= j < i ==> self.ids@[j]@ != id@,
            decreases self.ids@.len() - i,
        {
            if self.ids[i] == key {
                return Some(i);
            }
            i = i + 1;
        }
        None
    }

    /// Whether a request with this identifier is waiting.
    pub fn contains(&self, id: &str) -> (r: bool)
        requires
            self.wf(),
        ensures
            r == self@.contains_key(id@),
    {
        match self.position(id) {
            Some(_) => true,
            None => false,
        }
    }

    /// Registers a slot under a fresh identifier. An identifier that is
    /// already waiting is refused, and the slot is handed back.
    pub fn register(&mut self, id: String, slot: T) -> (r: Result<(), T>)
        requires
            old(self).wf(),
        ensures
            final(self).wf(),
            old(self)@.contains_key(id@) ==> r == Err::<(), T>(slot) && final(self)@ == old(self)@,
            !old(self)@.contains_key(id@) ==> r is Ok && final(self)@ == old(self)@.insert(id@, slot),
    {
        if self.contains(id.as_str()) {
            return Err(slot);
        }
        let ghost k = id@;
        let ghost old_ids = self.ids@;
        self.ids.push(id);
        self.slots.push(slot);
        self.entries = Ghost(self.entries@.insert(k, slot));
        assert forall|i: int, j: int|
            0 <= i < self.ids@.len() && 0 <= j < self.ids@.len() && i != j
                implies #[trigger] self.ids@[i]@ != #[trigger] self.ids@[j]@ by {
            if i < old_ids.len() && j < old_ids.len() {
                assert(self.ids@[i] == old_ids[i]);
                assert(self.ids@[j] == old_ids[j]);
            } else if i < old_ids.len() {
                assert(self.ids@[i] == old_ids[i]);
            } else {
                assert(self.ids@[j] == old_ids[j]);
            }
        }
        assert forall|q: Seq<char>| #[trigger] self.entries@.contains_key(q) implies exists|i: int|
            0 <= i < self.ids@.len() && self.ids@[i]@ == q by {
            if q == k {
                assert(self.ids@[old_ids.len() as int]@ == q);
            } else {
                let i = choose|i: int| 0 <= i < old_ids.len() && old_ids[i]@ == q;
                assert(self.ids@[i] == old_ids[i]);
            }
        }
        Ok(())
    }

    /// Removes the entry of this identifier, if one is waiting, and returns its slot.
    pub fn take(&mut self, id: &str) -> (r: Option<T>)
        requires
            old(self).wf(),
        ensures
            final(self).wf(),
            final(self)@ == old(self)@.remove(id@),
            old(self)@.contains_key(id@) ==> r == Some(old(self)@[id@]),
            !old(self)@.contains_key(id@) ==> r is None,
    {
        match self.position(id) {
            None => {
                assert(self@.remove(id@) =~= self@);
                None
            },
            Some(p) => {
                let ghost old_ids = self.ids@;
                let ghost old_slots = self.slots@;
                let ghost k = id@;
                let _ = self.ids.remove(p);
                let slot = self.slots.remove(p);
                self.entries = Ghost(self.entries@.remove(k));
                assert forall|i: int| 0 <= i < self.ids@.len() implies {
                    &&& self.entries@.contains_key(#[trigger] self.ids@[i]@)
                    &&& self.entries@[self.ids@[i]@] == self.slots@[i]
                } by {
                    let o = if i < p { i } else { i + 1 };
                    assert(self.ids@[i] == old_ids[o]);
                    assert(self.slots@[i] == old_slots[o]);
                    assert(o != p);
                }
                assert forall|i: int, j: int|
                    0 <= i < self.ids@.len() && 0 <= j < self.ids@.len() && i != j
                        implies #[trigger] self.ids@[i]@ != #[trigger] self.ids@[j]@ by {
                    let oi = if i < p { i } else { i + 1 };
                    let oj = if j < p { j } else { j + 1 };
                    assert(self.ids@[i] == old_ids[oi]);
                    assert(self.ids@[j] == old_ids[oj]);
                }
                assert forall|q: Seq<char>| #[trigger] self.entries@.contains_key(q) implies exists|i: int|
                    0 <= i < self.ids@.len() && self.ids@[i]@ == q by {
                    let o = choose|o: int| 0 <= o < old_ids.len() && old_ids[o]@ == q;
                    assert(o != p);
                    let i = if o < p { o } else { o - 1 };
                    assert(self.ids@[i] == old_ids[o]);
                }
                Some(slot)
            },
        }
    }

    /// Routes a decoded response line to the request that waits for it.
    /// A line that did not decode, a response without an identifier and one
    /// that no request waits for are dropped, and the table is unchanged.
    /// Otherwise the entry is removed and its slot is returned with the response.
    pub fn route(&mut self, line: Option<ResponseMessage>) -> (r: Option<(T, ResponseMessage)>)
        requires
            old(self).wf(),
        ensures
            final(self).wf(),
            match line {
                Some(resp) if resp.id is Some && old(self)@.contains_key(resp.id->0@) => {
                    &&& final(self)@ == old(self)@.remove(resp.id->0@)
                    &&& r == Some((old(self)@[resp.id->0@], resp))
                },
                _ => final(self)@ == old(self)@ && r is None,
            },
            match line {
                Some(resp) if resp.id is Some => final(self)@ == old(self)@.remove(resp.id->0@),
                _ => final(self)@ == old(self)@,
            },
    {
        match line {
            None => None,
            Some(resp) => {
                let slot = match &resp.id {
                    None => None,
                    Some(id) => self.take(id.as_str()),
                };
                match slot {
                    None => None,
                    Some(s) => Some((s, resp)),
                }
            },
        }
    }
}

/// The table left after responses with the identifiers `ids` arrived in that
/// order: `route` removes the entry of each identifier that is waiting.
pub open spec fn remaining<T>(m: Map<Seq<char>, T>, ids: Seq<Seq<char>>) -> Map<Seq<char>, T>
    decreases ids.len(),
{
    if ids.len() == 0 {
        m
    } else {
        remaining(m, ids.drop_last()).remove(ids.last())
    }
}

/// The slot that each response reaches, in arrival order, as `route` hands
/// them out: the entry of its identifier in what is left of the table.
pub open spec fn deliveries<T>(m: Map<Seq<char>, T>, ids: Seq<Seq<char>>) -> Seq<Option<T>>
    decreases ids.len(),
{
    if ids.len() == 0 {
        Seq::empty()
    } else {
        let left = remaining(m, ids.drop_last());
        deliveries(m, ids.drop_last()).push(
            if left.contains_key(ids.last()) {
                Some(left[ids.last()])
            } else {
                None
            },
        )
    }
}

/// What is left of the table holds exactly the entries whose identifiers have
/// not arrived, unchanged.
pub proof fn lemma_remaining<T>(m: Map<Seq<char>, T>, ids: Seq<Seq<char>>, k: Seq<char>)
    ensures
        remaining(m, ids).contains_key(k) <==> (m.contains_key(k) && !ids.contains(k)),
        remaining(m, ids).contains_key(k) ==> remaining(m, ids)[k] == m[k],
    decreases ids.len(),
{
    if ids.len() > 0 {
        lemma_remaining(m, ids.drop_last(), k);
        if ids.drop_last().contains(k) {
            let j = choose|j: int| 0 <= j < ids.drop_last().len() && ids.drop_last()[j] == k;
            assert(ids[j] == k);
        }
        if ids.contains(k) && k != ids.last() {
            let j = choose|j: int| 0 <= j < ids.len() && ids[j] == k;
            assert(j != ids.len() - 1);
            assert(ids.drop_last()[j] == k);
        }
        if k == ids.last() {
            assert(ids[ids.len() - 1] == k);
        }
    }
}

/// Responses reach their waiters whatever order they arrive in: the `i`-th
/// response reaches the slot registered under its identifier exactly when
/// that identifier was waiting and had not arrived before, so each waiter gets
/// its own response once, and duplicates and unknown identifiers reach nothing.
pub proof fn lemma_each_waiter_served_once<T>(m: Map<Seq<char>, T>, ids: Seq<Seq<char>>, i: int)
    requires
        0 <= i < ids.len(),
    ensures
        deliveries(m, ids).len() == ids.len(),
        deliveries(m, ids)[i] == if m.contains_key(ids[i]) && !ids.subrange(0, i).contains(ids[i]) {
            Some(m[ids[i]])
        } else {
            None
        },
    decreases ids.len(),
{
    lemma_deliveries_len(m, ids);
    if i == ids.len() - 1 {
        lemma_remaining(m, ids.drop_last(), ids[i]);
        assert(ids.subrange(0, i) =~= ids.drop_last());
    } else {
        lemma_each_waiter_served_once(m, ids.drop_last(), i);
        assert(ids.drop_last().subrange(0, i) =~= ids.subrange(0, i));
    }
}

proof fn lemma_deliveries_len<T>(m: Map<Seq<char>, T>, ids: Seq<Seq<char>>)
    ensures
        deliveries(m, ids).len() == ids.len(),
    decreases ids.len(),
{
    if ids.len() > 0 {
        lemma_deliveries_len(m, ids.drop_last());
    }
}

} // verus!
