use vstd::prelude::*;
use crate::errors::DbError;

verus! {

/// Where a live connection is in its life.
#[derive(Clone, Copy, Debug, PartialEq, Eq, Structural)]
pub enum SlotState {
    /// In the pool, ready to be lent.
    Idle,
    /// Taken out of the idle set by an acquire that probes it first.
    Probing,
    /// Lent to exactly one caller.
    CheckedOut,
}

/// A live connection, known to the pool by its identifier.
#[derive(Clone, Copy, Debug, PartialEq, Eq, Structural)]
pub struct Slot {
    pub id: u64,
    pub state: SlotState,
}

/// What the driver of an acquire does next.
#[derive(Clone, Debug, PartialEq, Eq)]
pub enum AcquireStep {
    /// Run the health check on this connection, then report with `probe_finished`.
    Probe(u64),
    /// Open a new connection, then report with `dial_finished`.
    Dial,
    /// The acquire is done: this connection is the caller's.
    Ready(u64),
    /// Every place is taken: wait for a release and begin again. A waiting
    /// caller holds nothing, so a wait that is abandoned leaks no place.
    Wait,
    /// The acquire fails with this error.
    Fail(DbError),
}

/// What a release did.
#[derive(Clone, Copy, Debug, PartialEq, Eq, Structural)]
pub enum ReleaseOutcome {
    /// The connection is idle again.
    Returned,
    /// The connection was flagged broken and left the pool.
    Discarded,
    /// The connection was not checked out; nothing changed.
    NotCheckedOut,
}

/// The bookkeeping of a bounded pool of connections. The connections
/// themselves live with the driver, keyed by the identifiers handed out here.
pub struct PoolState {
    capacity: usize,
    slots: Vec<Slot>,
    dialing: usize,
    next_id: u64,
}

/// The abstract state of a pool.
pub struct PoolView {
    pub capacity: nat,
    pub slots: Seq<Slot>,
    /// Connections being opened: each holds a place under the capacity.
    pub dialing: nat,
    /// Every identifier handed out so far is below this one.
    pub next_id: nat,
}

impl PoolView {
    /// Connections that exist or are being opened.
    pub open spec fn live(self) -> nat {
        self.slots.len() + self.dialing
    }

    pub open spec fn wf(self) -> bool {
        &&& self.capacity >= 1
        &&& self.live() <= self.capacity
        &&& forall|i: int, j: int|
            0 <= i < self.slots.len() && 0 <= j < self.slots.len() && #[trigger] self.slots[i].id
                == #[trigger] self.slots[j].id ==> i == j
        &&& forall|i: int| 0 <= i < self.slots.len() ==> #[trigger] self.slots[i].id < self.next_id
    }

    pub open spec fn has(self, id: u64) -> bool {
        exists|i: int| 0 <= i < self.slots.len() && #[trigger] self.slots[i].id == id
    }

    pub open spec fn slot_index(self, id: u64) -> int {
        choose|i: int| 0 <= i < self.slots.len() && #[trigger] self.slots[i].id == id
    }

    pub open spec fn state_of(self, id: u64) -> Option<SlotState> {
        if self.has(id) {
            Some(self.slots[self.slot_index(id)].state)
        } else {
            None
        }
    }

    pub open spec fn with_slots(self, slots: Seq<Slot>) -> PoolView {
        PoolView { capacity: self.capacity, slots, dialing: self.dialing, next_id: self.next_id }
    }
}

/// How many slots of `s` are in state `st`.
pub open spec fn count_state(s: Seq<Slot>, st: SlotState) -> nat
    decreases s.len(),
{
    if s.len() == 0 {
        0
    } else {
        count_state(s.drop_last(), st) + if s.last().state == st {
            1nat
        } else {
            0nat
        }
    }
}

/// Index of the last idle slot, or -1.
pub open spec fn last_idle(s: Seq<Slot>) -> int
    decreases s.len(),
{
    if s.len() == 0 {
        -1
    } else if s.last().state == SlotState::Idle {
        s.len() - 1
    } else {
        last_idle(s.drop_last())
    }
}

/// The first step of an acquire: an idle connection is probed before it is
/// lent; with none idle and room under the capacity a new one is opened;
/// otherwise the caller waits, or fails with `PoolExhausted` once its wait
/// bound has passed.
pub open spec fn acquire_spec(v: PoolView, waited_out: bool) -> (PoolView, AcquireStep) {
    let k = last_idle(v.slots);
    if k >= 0 {
        let id = v.slots[k].id;
        (v.with_slots(v.slots.update(k, Slot { id, state: SlotState::Probing })), AcquireStep::Probe(id))
    } else if v.live() < v.capacity {
        (
            PoolView { capacity: v.capacity, slots: v.slots, dialing: v.dialing + 1, next_id: v.next_id },
            AcquireStep::Dial,
        )
    } else if waited_out {
        (v, AcquireStep::Fail(DbError::PoolExhausted))
    } else {
        (v, AcquireStep::Wait)
    }
}

/// After a probe: a healthy connection is lent; an unhealthy one is
/// discarded and its place goes to a new connection.
pub open spec fn probe_spec(v: PoolView, id: u64, healthy: bool) -> (PoolView, AcquireStep) {
    let i = v.slot_index(id);
    if healthy {
        (v.with_slots(v.slots.update(i, Slot { id, state: SlotState::CheckedOut })), AcquireStep::Ready(id))
    } else {
        (
            PoolView { capacity: v.capacity, slots: v.slots.remove(i), dialing: v.dialing + 1, next_id: v.next_id },
            AcquireStep::Dial,
        )
    }
}

/// After a dial: a new connection gets the next identifier and is lent; a
/// failed one gives its place back and the acquire fails with its error.
pub open spec fn dial_spec(v: PoolView, result: Result<(), DbError>) -> (PoolView, AcquireStep) {
    match result {
        Ok(()) => (
            PoolView {
                capacity: v.capacity,
                slots: v.slots.push(Slot { id: v.next_id as u64, state: SlotState::CheckedOut }),
                dialing: (v.dialing - 1) as nat,
                next_id: v.next_id + 1,
            },
            AcquireStep::Ready(v.next_id as u64),
        ),
        Err(e) => (
            PoolView { capacity: v.capacity, slots: v.slots, dialing: (v.dialing - 1) as nat, next_id: v.next_id },
            AcquireStep::Fail(e),
        ),
    }
}

/// A release: a checked-out connection goes back to idle, or leaves the
/// pool when flagged broken; any other identifier changes nothing.
pub open spec fn release_spec(v: PoolView, id: u64, broken: bool) -> (PoolView, ReleaseOutcome) {
    if v.state_of(id) != Some(SlotState::CheckedOut) {
        (v, ReleaseOutcome::NotCheckedOut)
    } else if broken {
        (v.with_slots(v.slots.remove(v.slot_index(id))), ReleaseOutcome::Discarded)
    } else {
        (
            v.with_slots(v.slots.update(v.slot_index(id), Slot { id, state: SlotState::Idle })),
            ReleaseOutcome::Returned,
        )
    }
}

impl View for PoolState {
    type V = PoolView;

    closed spec fn view(&self) -> PoolView {
        PoolView {
            capacity: self.capacity as nat,
            slots: self.slots@,
            dialing: self.dialing as nat,
            next_id: self.next_id as nat,
        }
    }
}

proof fn lemma_index_unique(v: PoolView, id: u64, i: int)
    requires
        v.wf(),
        0 <= i < v.slots.len(),
        v.slots[i].id == id,
    ensures
        v.has(id),
        v.slot_index(id) == i,
{
    assert(v.has(id));
    let k = v.slot_index(id);
    assert(v.slots[k].id == v.slots[i].id);
}

proof fn lemma_last_idle_step(s: Seq<Slot>, i: int)
    requires
        0 < i <= s.len(),
    ensures
        last_idle(s.subrange(0, i)) == if s[i - 1].state == SlotState::Idle {
            i - 1
        } else {
            last_idle(s.subrange(0, i - 1))
        },
{
    assert(s.subrange(0, i).drop_last() =~= s.subrange(0, i - 1));
}

proof fn lemma_last_idle_bounds(s: Seq<Slot>)
    ensures
        -1 <= last_idle(s) < s.len(),
        last_idle(s) >= 0 ==> s[last_idle(s)].state == SlotState::Idle,
        last_idle(s) < 0 ==> forall|i: int| 0 <= i < s.len() ==> #[trigger] s[i].state != SlotState::Idle,
    decreases s.len(),
{
    if s.len() > 0 {
        lemma_last_idle_bounds(s.drop_last());
        if s.last().state != SlotState::Idle && last_idle(s) < 0 {
            assert forall|i: int| 0 <= i < s.len() implies #[trigger] s[i].state != SlotState::Idle by {
                if i < s.len() - 1 {
                    assert(s[i] == s.drop_last()[i]);
                }
            }
        }
    }
}

proof fn lemma_update_keeps_wf(v: PoolView, i: int, st: SlotState)
    requires
        v.wf(),
        0 <= i < v.slots.len(),
    ensures
        v.with_slots(v.slots.update(i, Slot { id: v.slots[i].id, state: st })).wf(),
{
    let w = v.with_slots(v.slots.update(i, Slot { id: v.slots[i].id, state: st }));
    assert forall|a: int, b: int|
        0 <= a < w.slots.len() && 0 <= b < w.slots.len() && #[trigger] w.slots[a].id
            == #[trigger] w.slots[b].id implies a == b by {
        assert(w.slots[a].id == v.slots[a].id);
        assert(w.slots[b].id == v.slots[b].id);
    }
    assert forall|a: int| 0 <= a < w.slots.len() implies #[trigger] w.slots[a].id < w.next_id by {
        assert(w.slots[a].id == v.slots[a].id);
    }
}

proof fn lemma_remove_keeps_wf(v: PoolView, i: int)
    requires
        v.wf(),
        0 <= i < v.slots.len(),
    ensures
        v.with_slots(v.slots.remove(i)).wf(),
        forall|k: int| 0 <= k < v.slots.len() - 1 ==> #[trigger] v.slots.remove(i)[k] == if k < i {
            v.slots[k]
        } else {
            v.slots[k + 1]
        },
{
    let w = v.with_slots(v.slots.remove(i));
    assert forall|a: int, b: int|
        0 <= a < w.slots.len() && 0 <= b < w.slots.len() && #[trigger] w.slots[a].id
            == #[trigger] w.slots[b].id implies a == b by {
        let a2 = if a < i { a } else { a + 1 };
        let b2 = if b < i { b } else { b + 1 };
        assert(w.slots[a] == v.slots[a2]);
        assert(w.slots[b] == v.slots[b2]);
    }
    assert forall|a: int| 0 <= a < w.slots.len() implies #[trigger] w.slots[a].id < w.next_id by {
        let a2 = if a < i { a } else { a + 1 };
        assert(w.slots[a] == v.slots[a2]);
    }
}

impl PoolState {
    /// An empty pool that lends at most `capacity` connections.
    pub fn new(capacity: usize) -> (r: PoolState)
        requires
            capacity >= 1,
        ensures
            r@.wf(),
            r@.capacity == capacity,
            r@.slots.len() == 0,
            r@.dialing == 0,
    {
        PoolState { capacity, slots: Vec::new(), dialing: 0, next_id: 0 }
    }

    /// The most connections that may exist at once.
    pub fn capacity(&self) -> (r: usize)
        ensures
            r == self@.capacity,
    {
        self.capacity
    }

    /// Connections that exist or are being opened.
    pub fn live_count(&self) -> (r: usize)
        requires
            self@.wf(),
        ensures
            r == self@.live(),
    {
        self.slots.len() + self.dialing
    }

    /// Connections waiting in the pool.
    pub fn idle_count(&self) -> (r: usize)
        ensures
            r == count_state(self@.slots, SlotState::Idle),
    {
        let mut n: usize = 0;
        let mut i: usize = 0;
        assert(self@.slots.subrange(0, 0) =~= Seq::<Slot>::empty());
        while i < self.slots.len()
            invariant
                i <= self@.slots.len(),
                n == count_state(self@.slots.subrange(0, i as int), SlotState::Idle),
                n <= i,
            decreases self@.slots.len() - i,
        {
            assert(self@.slots.subrange(0, i + 1).drop_last() =~= self@.slots.subrange(0, i as int));
            if self.slots[i].state == SlotState::Idle {
                n = n + 1;
            }
            i = i + 1;
        }
        assert(self@.slots.subrange(0, i as int) =~= self@.slots);
        n
    }

    /// Whether another connection can still get an identifier of its own.
    pub fn can_issue_id(&self) -> (r: bool)
        ensures
            r == (self@.next_id < u64::MAX),
    {
        self.next_id < u64::MAX
    }

    /// The state of connection `id`, if the pool knows it.
    pub fn state_of(&self, id: u64) -> (r: Option<SlotState>)
        requires
            self@.wf(),
        ensures
            r == self@.state_of(id),
    {
        match self.index_of(id) {
            Some(i) => Some(self.slots[i].state),
            None => None,
        }
    }

    fn index_of(&self, id: u64) -> (r: Option<usize>)
        requires
            self@.wf(),
        ensures
            match r {
                Some(i) => i < self@.slots.len() && self@.slots[i as int].id == id && self@.has(id)
                    && self@.slot_index(id) == i,
                None => !self@.has(id),
            },
    {
        let mut i: usize = 0;
        while i < self.slots.len()
            invariant
                self@.wf(),
                i <= self@.slots.len(),
                forall|k: int| 0 <= k < i ==> #[trigger] self@.slots[k].id != id,
            decreases self@.slots.len() - i,
        {
            if self.slots[i].id == id {
                proof {
                    lemma_index_unique(self@, id, i as int);
                }
                return Some(i);
            }
            i = i + 1;
        }
        None
    }

    /// The first step of an acquire; see `acquire_spec`.
    pub fn begin_acquire(&mut self, waited_out: bool) -> (r: AcquireStep)
        requires
            old(self)@.wf(),
        ensures
            final(self)@.wf(),
            (final(self)@, r) == acquire_spec(old(self)@, waited_out),
    {
        let mut i: usize = self.slots.len();
        proof {
            assert(self@.slots.subrange(0, i as int) =~= self@.slots);
        }
        while i > 0
            invariant
                self@ == old(self)@,
                self@.wf(),
                i <= self@.slots.len(),
                last_idle(self@.slots) == last_idle(self@.slots.subrange(0, i as int)),
            decreases i,
        {
            proof {
                lemma_last_idle_step(self@.slots, i as int);
            }
            if self.slots[i - 1].state == SlotState::Idle {
                let id = self.slots[i - 1].id;
                proof {
                    lemma_update_keeps_wf(self@, i - 1, SlotState::Probing);
                }
                self.slots[i - 1] = Slot { id, state: SlotState::Probing };
                return AcquireStep::Probe(id);
            }
            i = i - 1;
        }
        assert(self@.slots.subrange(0, 0) =~= Seq::<Slot>::empty());
        if self.slots.len() + self.dialing < self.capacity {
            self.dialing = self.dialing + 1;
            AcquireStep::Dial
        } else if waited_out {
            AcquireStep::Fail(DbError::PoolExhausted)
        } else {
            AcquireStep::Wait
        }
    }

    /// Reports the health check of a probed connection; see `probe_spec`.
    pub fn probe_finished(&mut self, id: u64, healthy: bool) -> (r: AcquireStep)
        requires
            old(self)@.wf(),
            old(self)@.state_of(id) == Some(SlotState::Probing),
        ensures
            final(self)@.wf(),
            (final(self)@, r) == probe_spec(old(self)@, id, healthy),
    {
        let i = match self.index_of(id) {
            Some(i) => i,
            None => {
                return AcquireStep::Dial;
            },
        };
        if healthy {
            proof {
                lemma_update_keeps_wf(self@, i as int, SlotState::CheckedOut);
            }
            self.slots[i] = Slot { id, state: SlotState::CheckedOut };
            AcquireStep::Ready(id)
        } else {
            proof {
                lemma_remove_keeps_wf(self@, i as int);
            }
            self.slots.remove(i);
            self.dialing = self.dialing + 1;
            AcquireStep::Dial
        }
    }

    /// Reports the outcome of opening a connection; see `dial_spec`.
    pub fn dial_finished(&mut self, result: Result<(), DbError>) -> (r: AcquireStep)
        requires
            old(self)@.wf(),
            old(self)@.dialing > 0,
            old(self)@.next_id < u64::MAX,
        ensures
            final(self)@.wf(),
            (final(self)@, r) == dial_spec(old(self)@, result),
    {
        self.dialing = self.dialing - 1;
        match result {
            Ok(()) => {
                let id = self.next_id;
                let ghost before = self@.slots;
                self.slots.push(Slot { id, state: SlotState::CheckedOut });
                self.next_id = self.next_id + 1;
                assert forall|a: int| 0 <= a < before.len() implies #[trigger] self@.slots[a] == before[a] by {}
                AcquireStep::Ready(id)
            },
            Err(e) => AcquireStep::Fail(e),
        }
    }

    /// Gives a connection back; see `release_spec`. A connection that is not
    /// checked out, such as one released a second time, changes nothing.
    pub fn release(&mut self, id: u64, broken: bool) -> (r: ReleaseOutcome)
        requires
            old(self)@.wf(),
        ensures
            final(self)@.wf(),
            (final(self)@, r) == release_spec(old(self)@, id, broken),
    {
        match self.index_of(id) {
            None => ReleaseOutcome::NotCheckedOut,
            Some(i) => {
                if self.slots[i].state != SlotState::CheckedOut {
                    ReleaseOutcome::NotCheckedOut
                } else if broken {
                    proof {
                        lemma_remove_keeps_wf(self@, i as int);
                    }
                    self.slots.remove(i);
                    ReleaseOutcome::Discarded
                } else {
                    proof {
                        lemma_update_keeps_wf(self@, i as int, SlotState::Idle);
                    }
                    self.slots[i] = Slot { id, state: SlotState::Idle };
                    ReleaseOutcome::Returned
                }
            },
        }
    }

    /// Drops a connection whose probe was cut short (the acquire was
    /// cancelled): its place under the capacity is free again.
    pub fn abandon_probe(&mut self, id: u64)
        requires
            old(self)@.wf(),
            old(self)@.state_of(id) == Some(SlotState::Probing),
        ensures
            final(self)@.wf(),
            final(self)@ == old(self)@.with_slots(old(self)@.slots.remove(old(self)@.slot_index(id))),
    {
        if let Some(i) = self.index_of(id) {
            proof {
                lemma_remove_keeps_wf(self@, i as int);
            }
            self.slots.remove(i);
        }
    }

    /// Gives back the place of a dial that was cut short.
    pub fn abandon_dial(&mut self)
        requires
            old(self)@.wf(),
            old(self)@.dialing > 0,
        ensures
            final(self)@.wf(),
            final(self)@ == (PoolView {
                capacity: old(self)@.capacity,
                slots: old(self)@.slots,
                dialing: (old(self)@.dialing - 1) as nat,
                next_id: old(self)@.next_id,
            }),
    {
        self.dialing = self.dialing - 1;
    }
}

proof fn lemma_count_state_bound(s: Seq<Slot>, st: SlotState)
    ensures
        count_state(s, st) <= s.len(),
        count_state(s, st) == s.len() ==> forall|i: int| 0 <= i < s.len() ==> #[trigger] s[i].state == st,
    decreases s.len(),
{
    if s.len() > 0 {
        lemma_count_state_bound(s.drop_last(), st);
        if count_state(s, st) == s.len() {
            assert forall|i: int| 0 <= i < s.len() implies #[trigger] s[i].state == st by {
                if i < s.len() - 1 {
                    assert(s[i] == s.drop_last()[i]);
                }
            }
        }
    }
}

/// At most `capacity` connections are checked out at once. When that many
/// are, nothing else is live: no connection is idle, probed or being opened,
/// so a further acquire waits or fails with `PoolExhausted` and no step can
/// hand out a connection until one is released.
pub proof fn lemma_checked_out_within_capacity(v: PoolView, waited_out: bool)
    requires
        v.wf(),
    ensures
        count_state(v.slots, SlotState::CheckedOut) <= v.capacity,
        count_state(v.slots, SlotState::CheckedOut) == v.capacity ==> {
            &&& v.dialing == 0
            &&& forall|id: u64| #[trigger] v.state_of(id) != Some(SlotState::Probing)
            &&& acquire_spec(v, waited_out).1 == if waited_out {
                AcquireStep::Fail(DbError::PoolExhausted)
            } else {
                AcquireStep::Wait
            }
            &&& acquire_spec(v, waited_out).0 == v
        },
{
    lemma_count_state_bound(v.slots, SlotState::CheckedOut);
    lemma_last_idle_bounds(v.slots);
    if count_state(v.slots, SlotState::CheckedOut) == v.capacity {
        assert forall|id: u64| #[trigger] v.state_of(id) != Some(SlotState::Probing) by {
            if v.has(id) {
                let k = v.slot_index(id);
                assert(v.slots[k].state == SlotState::CheckedOut);
            }
        }
        if last_idle(v.slots) >= 0 {
            assert(v.slots[last_idle(v.slots)].state == SlotState::CheckedOut);
        }
    }
}

/// Releasing a connection twice is the same as releasing it once: after a
/// release the connection is no longer checked out, so the second release
/// changes nothing and says so.
pub proof fn lemma_release_twice(v: PoolView, id: u64, broken: bool)
    requires
        v.wf(),
    ensures
        release_spec(release_spec(v, id, broken).0, id, broken) == (
            release_spec(v, id, broken).0,
            ReleaseOutcome::NotCheckedOut,
        ),
{
    let w = release_spec(v, id, broken).0;
    if v.state_of(id) == Some(SlotState::CheckedOut) {
        let i = v.slot_index(id);
        if broken {
            lemma_remove_keeps_wf(v, i);
            if w.has(id) {
                let k = w.slot_index(id);
                let k2 = if k < i { k } else { k + 1 };
                assert(w.slots[k] == v.slots[k2]);
                assert(v.slots[k2].id == v.slots[i].id);
            }
        } else {
            lemma_update_keeps_wf(v, i, SlotState::Idle);
            lemma_index_unique(w, id, i);
        }
    }
}

/// A release after an acquire on a path without failures returns the same
/// connection to the idle set; flagged broken, it leaves the pool. Either
/// way it is accounted for: the live count drops only on a discard.
pub proof fn lemma_release_accounts_for_connection(v: PoolView, id: u64, broken: bool)
    requires
        v.wf(),
        v.state_of(id) == Some(SlotState::CheckedOut),
    ensures
        release_spec(v, id, broken).0.wf(),
        !broken ==> release_spec(v, id, broken) == (release_spec(v, id, broken).0, ReleaseOutcome::Returned),
        !broken ==> release_spec(v, id, broken).0.state_of(id) == Some(SlotState::Idle),
        !broken ==> release_spec(v, id, broken).0.live() == v.live(),
        broken ==> release_spec(v, id, broken).1 == ReleaseOutcome::Discarded,
        broken ==> !release_spec(v, id, broken).0.has(id),
        broken ==> release_spec(v, id, broken).0.live() + 1 == v.live(),
{
    let i = v.slot_index(id);
    let w = release_spec(v, id, broken).0;
    if broken {
        lemma_remove_keeps_wf(v, i);
        if w.has(id) {
            let k = w.slot_index(id);
            let k2 = if k < i { k } else { k + 1 };
            assert(w.slots[k] == v.slots[k2]);
            assert(v.slots[k2].id == v.slots[i].id);
        }
    } else {
        lemma_update_keeps_wf(v, i, SlotState::Idle);
        lemma_index_unique(w, id, i);
    }
}

/// A connection that fails its health check is replaced within the same
/// acquire: the probe's failure asks for a dial, and a dial that succeeds
/// hands the caller a new connection, not an error.
pub proof fn lemma_failed_probe_redials(v: PoolView, id: u64)
    requires
        v.wf(),
        v.state_of(id) == Some(SlotState::Probing),
        v.next_id < u64::MAX,
    ensures
        probe_spec(v, id, false).1 == AcquireStep::Dial,
        probe_spec(v, id, false).0.wf(),
        probe_spec(v, id, false).0.dialing > 0,
        dial_spec(probe_spec(v, id, false).0, Ok(())).1 == AcquireStep::Ready(v.next_id as u64),
        dial_spec(probe_spec(v, id, false).0, Ok(())).0.live() == v.live(),
{
    lemma_remove_keeps_wf(v, v.slot_index(id));
}

} // verus!
