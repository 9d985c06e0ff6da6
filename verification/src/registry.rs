//! The registry of open viewer connections.

use crate::channel::{
    offer, receiver_capacity, sender_capacity, single_slot_channel, Delivery,
};
use crate::slides::notification;
use std::collections::HashMap;
use tokio::sync::mpsc::{Receiver, Sender};
use vstd::prelude::*;
use vstd::std_specs::hash::spec_hash_map_iter;
use vstd::std_specs::iter::IteratorSpec;

verus! {

broadcast use vstd::std_specs::hash::group_hash_axioms;

/// The identifier issued after `id`: the next integer, starting over at 0 once
/// the range of `u16` is used up.
pub open spec fn successor(id: u16) -> u16 {
    if id == u16::MAX {
        0
    } else {
        (id + 1) as u16
    }
}

/// The identifier that the `k`-th registration after a given one gets, where
/// that one got `first` (so `k` = 0 gives `first` itself).
pub open spec fn nth_id(first: u16, k: nat) -> u16
    decreases k,
{
    if k == 0 {
        first
    } else {
        successor(nth_id(first, (k - 1) as nat))
    }
}

/// Identifiers are issued in counting order, modulo the size of `u16`.
pub proof fn lemma_nth_id_counts(first: u16, k: nat)
    ensures
        nth_id(first, k) == (first + k) % 0x1_0000,
    decreases k,
{
    if k > 0 {
        lemma_nth_id_counts(first, (k - 1) as nat);
    }
}

/// Two registrations of a run get the same identifier only where a multiple of
/// 65536 registrations lies between them. So the identifiers of up to 65536
/// registrations that follow one another are pairwise distinct.
pub proof fn lemma_issued_ids_distinct(first: u16, i: nat, j: nat)
    requires
        i <= j,
    ensures
        nth_id(first, i) == nth_id(first, j) <==> (j - i) % 0x1_0000 == 0,
        i < j < i + 0x1_0000 ==> nth_id(first, i) != nth_id(first, j),
{
    lemma_nth_id_counts(first, i);
    lemma_nth_id_counts(first, j);
    vstd::arithmetic::div_mod::lemma_mod_equivalence(first + j, first + i, 0x1_0000);
    if i < j < i + 0x1_0000 {
        vstd::arithmetic::div_mod::lemma_small_mod((j - i) as nat, 0x1_0000);
    }
}

/// Deregistering a connection a second time changes nothing, and
/// deregistering it at all touches no other connection's entry.
pub proof fn lemma_deregister_idempotent(entries: Map<u16, Sender<String>>, id: u16)
    ensures
        entries.remove(id).remove(id) == entries.remove(id),
        !entries.remove(id).contains_key(id),
        forall|other: u16|
            other != id ==> (#[trigger] entries.remove(id).contains_key(other)
                <==> entries.contains_key(other)),
        forall|other: u16|
            other != id && entries.contains_key(other) ==> #[trigger] entries.remove(id)[other]
                == entries[other],
{
    assert(entries.remove(id).remove(id) =~= entries.remove(id));
}

/// The open connections, each reachable through the sending half of its
/// channel, and the identifier the next connection will get.
pub struct Registry {
    counter: u16,
    websockets: HashMap<u16, Sender<String>>,
}

impl View for Registry {
    type V = Map<u16, Sender<String>>;

    /// The registered connections: identifier to sending half.
    closed spec fn view(&self) -> Map<u16, Sender<String>> {
        self.websockets@
    }
}

/// Whether every channel of `entries` holds at most one pending notification.
/// A new registry is so, and registering and deregistering keep it so.
pub open spec fn single_slot(entries: Map<u16, Sender<String>>) -> bool {
    forall|id: u16| entries.contains_key(id) ==> sender_capacity(#[trigger] entries[id]) == 1
}

/// The identifiers of a snapshot's entries, in the snapshot's order.
pub open spec fn snapshot_ids(snapshot: Seq<(u16, &Sender<String>)>) -> Seq<u16> {
    snapshot.map_values(|entry: (u16, &Sender<String>)| entry.0)
}

/// One delivery attempt of a broadcast: the connection and what became of the
/// notification offered to its channel.
#[derive(Clone, Copy, Debug, PartialEq, Eq)]
pub struct Attempt {
    pub id: u16,
    pub delivery: Delivery,
}

/// The connections that a broadcast's report speaks of, in the report's order.
pub open spec fn attempt_ids(report: Seq<Attempt>) -> Seq<u16> {
    report.map_values(|attempt: Attempt| attempt.id)
}

/// Whether `report` holds exactly one attempt for each connection of
/// `registered` and none for any other.
pub open spec fn reaches_each_once(report: Seq<Attempt>, registered: Set<u16>) -> bool {
    &&& attempt_ids(report).no_duplicates()
    &&& attempt_ids(report).to_set() == registered
}

/// A report that reaches each registered connection once holds one attempt, and
/// one only, for a connection that is registered, and none for one that is not.
pub proof fn lemma_one_attempt_per_connection(report: Seq<Attempt>, registered: Set<u16>, id: u16)
    requires
        reaches_each_once(report, registered),
    ensures
        registered.contains(id) ==> exists|k: int|
            0 <= k < report.len() && (#[trigger] report[k]).id == id,
        !registered.contains(id) ==> forall|k: int|
            0 <= k < report.len() ==> (#[trigger] report[k]).id != id,
        forall|j: int, k: int|
            0 <= j < report.len() && 0 <= k < report.len() && (#[trigger] report[j]).id == id && (
            #[trigger] report[k]).id == id ==> j == k,
{
    let ids = attempt_ids(report);
    assert forall|k: int| 0 <= k < report.len() implies ids[k] == (#[trigger] report[k]).id by {}
    if registered.contains(id) {
        assert(ids.to_set().contains(id));
        let k = choose|k: int| 0 <= k < ids.len() && ids[k] == id;
        assert(report[k].id == id);
    } else {
        assert forall|k: int| 0 <= k < report.len() implies (#[trigger] report[k]).id != id by {
            if report[k].id == id {
                assert(ids[k] == id);
                assert(ids.to_set().contains(id));
            }
        }
    }
    assert forall|j: int, k: int|
        0 <= j < report.len() && 0 <= k < report.len() && (#[trigger] report[j]).id == id && (
        #[trigger] report[k]).id == id implies j == k by {
        assert(ids[j] == ids[k]);
    }
}

impl Registry {
    /// The identifier that the next call of `register` returns.
    pub closed spec fn next_id(&self) -> u16 {
        self.counter
    }

    /// A registry without connections, whose first identifier is 0.
    pub fn new() -> (registry: Registry)
        ensures
            registry@ == Map::<u16, Sender<String>>::empty(),
            registry.next_id() == 0,
            single_slot(registry@),
    {
        Registry { counter: 0, websockets: HashMap::new() }
    }

    /// The number of registered connections.
    pub fn len(&self) -> (count: usize)
        ensures
            count == self@.len(),
    {
        self.websockets.len()
    }

    /// Whether a connection is registered under `id`.
    pub fn is_registered(&self, id: u16) -> (found: bool)
        ensures
            found == self@.contains_key(id),
    {
        self.websockets.contains_key(&id)
    }

    /// Opens a connection: takes the next identifier, creates the connection's
    /// single-slot channel, keeps the sending half under the identifier and
    /// returns the identifier with the receiving half.
    pub fn register(&mut self) -> (issued: (u16, Receiver<String>))
        ensures
            issued.0 == old(self).next_id(),
            final(self).next_id() == successor(old(self).next_id()),
            final(self)@.dom() == old(self)@.dom().insert(issued.0),
            forall|id: u16|
                id != issued.0 && old(self)@.contains_key(id) ==> final(self)@[id] == old(
                    self,
                )@[id],
            sender_capacity(final(self)@[issued.0]) == 1,
            receiver_capacity(issued.1) == 1,
            single_slot(old(self)@) ==> single_slot(final(self)@),
    {
        let (sender, receiver) = single_slot_channel();
        let id = self.counter;
        self.counter = id.wrapping_add(1);
        self.websockets.insert(id, sender);
        (id, receiver)
    }

    /// Closes a connection: forgets the entry of `id`. Where there is none,
    /// nothing changes.
    pub fn deregister(&mut self, id: u16)
        ensures
            final(self)@ == old(self)@.remove(id),
            final(self).next_id() == old(self).next_id(),
            single_slot(old(self)@) ==> single_slot(final(self)@),
    {
        self.websockets.remove(&id);
    }

    /// The connections that a broadcast reaches: every registered connection
    /// once, with its sending half, in no particular order.
    pub fn broadcast_snapshot(&self) -> (snapshot: Vec<(u16, &Sender<String>)>)
        ensures
            snapshot_ids(snapshot@).no_duplicates(),
            snapshot_ids(snapshot@).to_set() == self@.dom(),
            forall|i: int|
                0 <= i < snapshot@.len() ==> *snapshot@[i].1 == self@[#[trigger] snapshot@[i].0],
    {
        let mut snapshot: Vec<(u16, &Sender<String>)> = Vec::new();
        let ghost walked = spec_hash_map_iter(&self.websockets).remaining();
        for entry in it: self.websockets.iter()
            invariant
                snapshot@.len() == it.index(),
                it.seq() == walked,
                walked.no_duplicates(),
                forall|i: int|
                    0 <= i < snapshot@.len() ==> (#[trigger] snapshot@[i]).0 == *walked[i].0
                        && snapshot@[i].1 == walked[i].1,
        {
            let (id, sender) = entry;
            snapshot.push((*id, sender));
        }
        proof {
            let ids = snapshot_ids(snapshot@);
            assert forall|i: int, j: int| 0 <= i < ids.len() && 0 <= j < ids.len() && i != j
                implies ids[i] != ids[j] by {
                if ids[i] == ids[j] {
                    assert(*walked[i].1 == self@[*walked[i].0]);
                    assert(*walked[j].1 == self@[*walked[j].0]);
                    assert(walked[i] == walked[j]);
                }
            }
            assert forall|id: u16| self@.dom().contains(id) implies ids.to_set().contains(id) by {
                let entry = (&id, &self@[id]);
                assert(walked.contains(entry));
                let i = choose|i: int| 0 <= i < walked.len() && walked[i] == entry;
                assert(snapshot@[i].0 == id);
                assert(ids[i] == id);
            }
            assert forall|id: u16| ids.to_set().contains(id) implies self@.dom().contains(id) by {
                let i = choose|i: int| 0 <= i < ids.len() && ids[i] == id;
                assert(snapshot@[i].0 == id);
                assert(self@.contains_key(*walked[i].0));
            }
            assert(ids.to_set() =~= self@.dom());
        }
        snapshot
    }

    /// Broadcasts "go to slide `slide_index`": offers the notification to the
    /// channel of every registered connection, once each, without waiting.
    ///
    /// An attempt that finds its channel full or closed discards the
    /// notification for that connection alone; the others are attempted all the
    /// same, and nothing is retried. The registry itself is left as it is.
    pub fn dispatch(&self, slide_index: usize) -> (report: Vec<Attempt>)
        ensures
            reaches_each_once(report@, self@.dom()),
            report@.len() == self@.dom().len(),
    {
        let message = notification(slide_index);
        let snapshot = self.broadcast_snapshot();
        let mut report: Vec<Attempt> = Vec::new();
        let mut at: usize = 0;
        while at < snapshot.len()
            invariant
                at <= snapshot.len(),
                report@.len() == at,
                forall|i: int| 0 <= i < at ==> (#[trigger] report@[i]).id == snapshot@[i].0,
            decreases snapshot.len() - at,
        {
            let (id, sender) = snapshot[at];
            let delivery = offer(sender, message.clone());
            report.push(Attempt { id, delivery });
            at = at + 1;
        }
        proof {
            assert(attempt_ids(report@) =~= snapshot_ids(snapshot@));
            attempt_ids(report@).unique_seq_to_set();
        }
        report
    }
}

} // verus!
