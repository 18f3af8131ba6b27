//! The peer connection pool: one record per peer address ever requested,
//! and the decisions that say, per request, whether a cached transport is
//! reused, probed first, or replaced by a fresh establishment.
//!
//! The pool does no I/O. A caller runs one lookup as a short exchange:
//! `plan_get` says what to do; after a probe, `probe_result` says what to do
//! next; after an establishment attempt, `establish_result` records it.

use vstd::prelude::*;

verus! {

/// What a lookup asks its caller to do next.
#[derive(Clone, Copy, Debug, PartialEq, Eq, Structural)]
pub enum GetStep {
    /// Hand out the cached transport unchanged.
    Reuse,
    /// Check the cached transport with a liveness probe first.
    Probe,
    /// Open a fresh transport to the peer.
    Establish,
}

/// The record kept for one peer address.
pub struct PeerEntry<T> {
    pub address: String,
    /// When the transport was last established (the caller's clock).
    pub created_at: u64,
    /// The live transport, or none while the peer is unreachable or connecting.
    pub transport: Option<T>,
}

/// What the pool knows of one peer, as the contracts see it.
pub struct PeerRecord<T> {
    pub address: Seq<char>,
    pub created_at: u64,
    pub transport: Option<T>,
}

impl<T> PeerEntry<T> {
    pub open spec fn record(&self) -> PeerRecord<T> {
        PeerRecord { address: self.address@, created_at: self.created_at, transport: self.transport }
    }
}

/// A transport is too old to reuse once its age reaches the keep-alive.
pub open spec fn expired(created_at: u64, now: u64, keep_alive: u64) -> bool {
    now as int - created_at as int >= keep_alive as int
}

/// The position of the last record for `addr`, if there is one (with
/// unique addresses, the only one).
pub open spec fn position_of<T>(entries: Seq<PeerRecord<T>>, addr: Seq<char>) -> Option<int>
    decreases entries.len(),
{
    if entries.len() == 0 {
        None
    } else if entries.last().address == addr {
        Some(entries.len() - 1)
    } else {
        position_of(entries.drop_last(), addr)
    }
}

/// No two records share an address.
pub open spec fn addresses_unique<T>(entries: Seq<PeerRecord<T>>) -> bool {
    forall|i: int, j: int|
        0 <= i < entries.len() && 0 <= j < entries.len() && i != j
            ==> (#[trigger] entries[i]).address != (#[trigger] entries[j]).address
}

/// The step a lookup of `addr` starts with.
pub open spec fn plan_step<T>(entries: Seq<PeerRecord<T>>, addr: Seq<char>, now: u64, keep_alive: u64) -> GetStep {
    match position_of(entries, addr) {
        None => GetStep::Establish,
        Some(i) => {
            if entries[i].transport is None || expired(entries[i].created_at, now, keep_alive) {
                GetStep::Establish
            } else {
                GetStep::Probe
            }
        },
    }
}

/// `entries` with the record at `i` replaced by one of the same address.
pub open spec fn with_record<T>(entries: Seq<PeerRecord<T>>, i: int, created_at: u64, transport: Option<T>) -> Seq<PeerRecord<T>> {
    entries.update(i, PeerRecord { address: entries[i].address, created_at, transport })
}

/// The records after a lookup of `addr` has started: a record is created for
/// an unknown address, and a transport about to be replaced is dropped.
pub open spec fn plan_records<T>(entries: Seq<PeerRecord<T>>, addr: Seq<char>, now: u64, keep_alive: u64) -> Seq<PeerRecord<T>> {
    match position_of(entries, addr) {
        None => entries.push(PeerRecord { address: addr, created_at: now, transport: None }),
        Some(i) => {
            if plan_step(entries, addr, now, keep_alive) == GetStep::Establish {
                with_record(entries, i, entries[i].created_at, None)
            } else {
                entries
            }
        },
    }
}

/// The records after a probe of the transport at `i`: a dead one is dropped.
pub open spec fn probed_records<T>(entries: Seq<PeerRecord<T>>, i: int, alive: bool) -> Seq<PeerRecord<T>> {
    if alive {
        entries
    } else {
        with_record(entries, i, entries[i].created_at, None)
    }
}

/// With unique addresses, the record holding `addr` is the one found.
pub proof fn lemma_position_at<T>(entries: Seq<PeerRecord<T>>, addr: Seq<char>, i: int)
    requires
        addresses_unique(entries),
        0 <= i < entries.len(),
        entries[i].address == addr,
    ensures
        position_of(entries, addr) == Some(i),
    decreases entries.len(),
{
    if i != entries.len() - 1 {
        assert(entries[entries.len() - 1].address != entries[i].address);
        let rest = entries.drop_last();
        assert(rest[i] == entries[i]);
        assert(addresses_unique(rest)) by {
            assert(forall|k: int| 0 <= k < rest.len() ==> #[trigger] rest[k] == entries[k]);
        }
        lemma_position_at(rest, addr, i);
    }
}

/// No record holds `addr` when none of them does.
pub proof fn lemma_position_none<T>(entries: Seq<PeerRecord<T>>, addr: Seq<char>)
    requires
        forall|k: int| 0 <= k < entries.len() ==> (#[trigger] entries[k]).address != addr,
    ensures
        position_of(entries, addr) is None,
    decreases entries.len(),
{
    if entries.len() > 0 {
        let rest = entries.drop_last();
        assert(forall|k: int| 0 <= k < rest.len() ==> #[trigger] rest[k] == entries[k]);
        assert(entries[entries.len() - 1].address != addr);
        lemma_position_none(rest, addr);
    }
}

/// A position found holds a record of `addr`.
pub proof fn lemma_position_some<T>(entries: Seq<PeerRecord<T>>, addr: Seq<char>)
    requires
        position_of(entries, addr) is Some,
    ensures
        0 <= position_of(entries, addr)->0 < entries.len(),
        entries[position_of(entries, addr)->0].address == addr,
    decreases entries.len(),
{
    if entries.last().address != addr {
        let rest = entries.drop_last();
        lemma_position_some(rest, addr);
        assert(rest[position_of(rest, addr)->0] == entries[position_of(rest, addr)->0]);
    }
}

/// A transport whose age has reached the keep-alive is never reused: the
/// lookup replaces it with a fresh establishment, and drops it at once.
pub proof fn lemma_expired_never_reused<T>(records: Seq<PeerRecord<T>>, addr: Seq<char>, now: u64, keep_alive: u64)
    requires
        addresses_unique(records),
        position_of(records, addr) is Some,
        expired(records[position_of(records, addr)->0].created_at, now, keep_alive),
    ensures
        plan_step(records, addr, now, keep_alive) == GetStep::Establish,
        plan_records(records, addr, now, keep_alive)[position_of(records, addr)->0].transport is None,
{
    lemma_position_some(records, addr);
}

/// Once a probe has found a transport dead, the next lookup of that address
/// opens a fresh transport, whatever the time: the dead handle is never reused.
pub proof fn lemma_failed_probe_forces_establish<T>(records: Seq<PeerRecord<T>>, addr: Seq<char>, now: u64, keep_alive: u64)
    requires
        addresses_unique(records),
        position_of(records, addr) is Some,
    ensures
        plan_step(probed_records(records, position_of(records, addr)->0, false), addr, now, keep_alive)
            == GetStep::Establish,
{
    let i = position_of(records, addr)->0;
    let after = probed_records(records, i, false);
    lemma_position_some(records, addr);
    assert(forall|k: int| 0 <= k < records.len() ==> (#[trigger] after[k]).address == records[k].address);
    lemma_position_at(after, addr, i);
}

/// The outbound peers, keyed by address, kept in the order first seen.
pub struct ConnectionPool<T> {
    entries: Vec<PeerEntry<T>>,
    keep_alive: u64,
}

impl<T> ConnectionPool<T> {
    /// The records, in the order their addresses were first requested.
    pub closed spec fn records(&self) -> Seq<PeerRecord<T>> {
        self.entries@.map_values(|e: PeerEntry<T>| e.record())
    }

    /// The largest age at which a transport is still reused, exclusive.
    pub closed spec fn keep_alive_spec(&self) -> u64 {
        self.keep_alive
    }

    pub open spec fn wf(&self) -> bool {
        addresses_unique(self.records())
    }

    /// The addresses of all records, in order.
    pub open spec fn addresses(&self) -> Seq<Seq<char>> {
        self.records().map_values(|e: PeerRecord<T>| e.address)
    }

    /// An empty pool whose transports may be reused while younger than `keep_alive`.
    pub fn new(keep_alive: u64) -> (r: Self)
        ensures
            r.wf(),
            r.records() == Seq::<PeerRecord<T>>::empty(),
            r.keep_alive_spec() == keep_alive,
    {
        ConnectionPool { entries: Vec::new(), keep_alive }
    }

    /// The keep-alive this pool was made with.
    pub fn keep_alive(&self) -> (r: u64)
        ensures
            r == self.keep_alive_spec(),
    {
        self.keep_alive
    }

    /// Starts a lookup of `addr` at time `now`. An unknown address gets a
    /// record with no transport. The step is `Establish` when there is no
    /// transport or it has reached the keep-alive age, and the old transport is
    /// then dropped; otherwise the cached transport is to be probed.
    pub fn plan_get(&mut self, addr: &str, now: u64) -> (r: GetStep)
        requires
            old(self).wf(),
        ensures
            final(self).wf(),
            final(self).keep_alive_spec() == old(self).keep_alive_spec(),
            r == plan_step(old(self).records(), addr@, now, old(self).keep_alive_spec()),
            final(self).records() == plan_records(old(self).records(), addr@, now, old(self).keep_alive_spec()),
            position_of(final(self).records(), addr@) is Some,
            // A transport at or past the keep-alive age is never handed out again.
            ({
                let p = position_of(old(self).records(), addr@);
                p is Some && expired(old(self).records()[p->0].created_at, now, old(self).keep_alive_spec())
                    ==> r == GetStep::Establish && final(self).records()[p->0].transport is None
            }),
    {
        let key = addr.to_owned();
        match self.find(&key) {
            None => {
                let ghost before = self.records();
                self.entries.push(PeerEntry { address: key, created_at: now, transport: None });
                proof {
                    assert(self.records() =~= plan_records(before, addr@, now, self.keep_alive));
                    assert forall|a: int, b: int|
                        0 <= a < self.records().len() && 0 <= b < self.records().len() && a != b
                        implies (#[trigger] self.records()[a]).address != (#[trigger] self.records()[b]).address by {
                        if a < before.len() && b < before.len() {
                            assert(before[a] == self.records()[a]);
                            assert(before[b] == self.records()[b]);
                        } else if a < before.len() {
                            assert(before[a] == self.records()[a]);
                        } else {
                            assert(before[b] == self.records()[b]);
                        }
                    }
                    lemma_position_at(self.records(), addr@, before.len() as int);
                }
                GetStep::Establish
            },
            Some(i) => {
                let has_transport = self.entries[i].transport.is_some();
                let created_at = self.entries[i].created_at;
                let stale = now >= created_at && now - created_at >= self.keep_alive;
                if !has_transport || stale {
                    self.clear_transport(i);
                    proof {
                        lemma_position_at(self.records(), addr@, i as int);
                    }
                    GetStep::Establish
                } else {
                    GetStep::Probe
                }
            },
        }
    }

    /// Goes on with a lookup after the cached transport of `addr` was probed.
    /// A live transport is reused; a dead one is dropped and replaced.
    pub fn probe_result(&mut self, addr: &str, alive: bool) -> (r: GetStep)
        requires
            old(self).wf(),
            position_of(old(self).records(), addr@) is Some,
        ensures
            final(self).wf(),
            final(self).keep_alive_spec() == old(self).keep_alive_spec(),
            final(self).records() == probed_records(
                old(self).records(),
                position_of(old(self).records(), addr@)->0,
                alive,
            ),
            r == (if alive { GetStep::Reuse } else { GetStep::Establish }),
    {
        let key = addr.to_owned();
        let i = self.find(&key).unwrap();
        if alive {
            GetStep::Reuse
        } else {
            self.clear_transport(i);
            GetStep::Establish
        }
    }

    /// Records the outcome of an establishment attempt for `addr` made at
    /// `now`: a new transport replaces the record's transport and timestamp;
    /// a failure leaves the record with no transport.
    pub fn establish_result(&mut self, addr: &str, now: u64, transport: Option<T>)
        requires
            old(self).wf(),
            position_of(old(self).records(), addr@) is Some,
        ensures
            final(self).wf(),
            final(self).keep_alive_spec() == old(self).keep_alive_spec(),
            ({
                let i = position_of(old(self).records(), addr@)->0;
                final(self).records() == with_record(
                    old(self).records(),
                    i,
                    if transport is Some { now } else { old(self).records()[i].created_at },
                    transport,
                )
            }),
    {
        let key = addr.to_owned();
        let i = self.find(&key).unwrap();
        match transport {
            Some(t) => {
                let ghost before = self.records();
                let address = self.entries[i].address.clone();
                self.entries.set(i, PeerEntry { address, created_at: now, transport: Some(t) });
                proof {
                    assert(self.records() =~= with_record(before, i as int, now, self.entries@[i as int].transport));
                    assert(forall|k: int| 0 <= k < before.len() ==> (#[trigger] self.records()[k]).address == before[k].address);
                }
            },
            None => {
                self.clear_transport(i);
            },
        }
    }

    /// The transport that the record of `addr` holds, if any.
    pub fn transport(&self, addr: &str) -> (r: Option<&T>)
        requires
            self.wf(),
        ensures
            match position_of(self.records(), addr@) {
                None => r is None,
                Some(i) => match self.records()[i].transport {
                    None => r is None,
                    Some(t) => r == Some(&t),
                },
            },
    {
        let key = addr.to_owned();
        match self.find(&key) {
            None => None,
            Some(i) => self.entries[i].transport.as_ref(),
        }
    }

    /// Every address ever requested, reachable or not, in the order first seen.
    pub fn get_all_possible_conections(&self) -> (r: Vec<String>)
        ensures
            r@.map_values(|a: String| a@) == self.addresses(),
    {
        let mut out: Vec<String> = Vec::new();
        let mut i: usize = 0;
        while i < self.entries.len()
            invariant
                i <= self.entries@.len(),
                out@.len() == i,
                forall|k: int| 0 <= k < i ==> (#[trigger] out@[k])@ == self.entries@[k].address@,
            decreases self.entries@.len() - i,
        {
            out.push(self.entries[i].address.clone());
            i += 1;
        }
        proof {
            assert(out@.map_values(|a: String| a@) =~= self.addresses());
        }
        out
    }

    fn clear_transport(&mut self, i: usize)
        requires
            old(self).wf(),
            i < old(self).records().len(),
        ensures
            final(self).wf(),
            final(self).keep_alive_spec() == old(self).keep_alive_spec(),
            final(self).records() == with_record(old(self).records(), i as int, old(self).records()[i as int].created_at, None),
    {
        let ghost before = self.records();
        let address = self.entries[i].address.clone();
        let created_at = self.entries[i].created_at;
        self.entries.set(i, PeerEntry { address, created_at, transport: None });
        proof {
            assert(self.records() =~= with_record(before, i as int, created_at, None));
            assert(forall|k: int| 0 <= k < before.len() ==> (#[trigger] self.records()[k]).address == before[k].address);
        }
    }

    fn find(&self, addr: &String) -> (r: Option<usize>)
        requires
            self.wf(),
        ensures
            r matches Some(i) ==> position_of(self.records(), addr@) == Some(i as int)
                && i < self.records().len() && self.records()[i as int].address == addr@,
            r is None ==> position_of(self.records(), addr@) is None
                && forall|k: int| 0 <= k < self.records().len() ==> (#[trigger] self.records()[k]).address != addr@,
    {
        let mut i: usize = 0;
        while i < self.entries.len()
            invariant
                self.wf(),
                i <= self.entries@.len(),
                forall|k: int| 0 <= k < i ==> (#[trigger] self.records()[k]).address != addr@,
            decreases self.entries@.len() - i,
        {
            if self.entries[i].address == *addr {
                proof {
                    lemma_position_at(self.records(), addr@, i as int);
                }
                return Some(i);
            }
            i += 1;
        }
        proof {
            lemma_position_none(self.records(), addr@);
        }
        None
    }
}

} // verus!
