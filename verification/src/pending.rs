//! Event packets that wait for their transmit timestamp.

use vstd::prelude::*;

use statime::port::TimestampContext;

use crate::packet::{nth_id, nth_id_counts_calls, packet_ids_are_distinct};
use crate::time::{read_clock, read_from_clock, ClockError, EmbassyDuration, Instant};
use crate::timers::{earlier_deadline, earliest, earliest_is_the_minimum};

verus! {

/// Number of event packets that can wait for a transmit timestamp at once.
pub const TX_PENDING: usize = 4;

/// `statime::port::TimestampContext`, which a protocol port hands out with an event
/// packet and takes back with the packet's transmit timestamp. Nothing is said of
/// what is inside.
#[verifier::external_type_specification]
#[verifier::external_body]
pub struct ExTimestampContext(statime::port::TimestampContext);

/// An event packet that waits for its transmit timestamp.
#[derive(Debug)]
pub struct PendingTx {
    /// What the protocol needs back together with the timestamp.
    pub context: TimestampContext,
    /// Identifier of the packet.
    pub packet_id: u32,
    /// When the wait began.
    pub started: Instant,
}

/// A slot for a waiting packet.
pub type Slot = Option<PendingTx>;

/// Event packets that wait for their transmit timestamp, each for at most
/// `timeout`.
#[derive(Debug)]
pub struct PendingTxQueue {
    /// Slots for waiting packets.
    pub slots: [Slot; TX_PENDING],
    /// How long a packet waits.
    pub timeout: EmbassyDuration,
}

/// The first free slot from `from` on, or the number of slots if there is none.
pub open spec fn first_free(slots: Seq<Slot>, from: int) -> int
    decreases slots.len() - from,
{
    if from >= slots.len() {
        slots.len() as int
    } else if slots[from] is None {
        from
    } else {
        first_free(slots, from + 1)
    }
}

/// Whether a slot holds a packet with this identifier.
pub open spec fn holds_id(slot: Slot, packet_id: u32) -> bool {
    slot matches Some(pending) && pending.packet_id == packet_id
}

/// The first slot from `from` on that holds a packet with this identifier, or the
/// number of slots if there is none.
pub open spec fn first_with_id(slots: Seq<Slot>, packet_id: u32, from: int) -> int
    decreases slots.len() - from,
{
    if from >= slots.len() {
        slots.len() as int
    } else if holds_id(slots[from], packet_id) {
        from
    } else {
        first_with_id(slots, packet_id, from + 1)
    }
}

/// The slots after `pending` was put into the first free one; unchanged if there is
/// none.
pub open spec fn pushed(slots: Seq<Slot>, pending: PendingTx) -> Seq<Slot> {
    slots.update(first_free(slots, 0), Some(pending))
}

/// Whether every slot is taken.
pub open spec fn is_full(slots: Seq<Slot>) -> bool {
    first_free(slots, 0) == slots.len()
}

/// Whether a packet with this identifier waits.
pub open spec fn is_pending(slots: Seq<Slot>, packet_id: u32) -> bool {
    first_with_id(slots, packet_id, 0) < slots.len()
}

/// The packet with this identifier: the first one, should several wait.
pub open spec fn pending_with_id(slots: Seq<Slot>, packet_id: u32) -> PendingTx {
    slots[first_with_id(slots, packet_id, 0)]->0
}

/// The slots without the packet with this identifier.
pub open spec fn taken(slots: Seq<Slot>, packet_id: u32) -> Seq<Slot> {
    slots.update(first_with_id(slots, packet_id, 0), None)
}

/// The slots after the wait of the packet with this identifier began anew.
pub open spec fn restarted(slots: Seq<Slot>, packet_id: u32, now: Instant) -> Seq<Slot> {
    slots.update(
        first_with_id(slots, packet_id, 0),
        Some(PendingTx { started: now, ..pending_with_id(slots, packet_id) }),
    )
}

/// Whether the wait of a slot's packet is over at `now`.
pub open spec fn is_expired(slot: Slot, timeout: EmbassyDuration, now: Instant) -> bool {
    slot matches Some(pending) && now.ticks - pending.started.ticks >= timeout.ticks
}

/// The slots without the packets whose wait is over at `now`.
pub open spec fn unexpired(slots: Seq<Slot>, timeout: EmbassyDuration, now: Instant) -> Seq<Slot> {
    Seq::new(
        slots.len(),
        |i: int|
            if is_expired(slots[i], timeout, now) {
                None
            } else {
                slots[i]
            },
    )
}

/// Identifiers of the packets whose wait is over at `now`, in slot order.
pub open spec fn expired_ids(slots: Seq<Slot>, timeout: EmbassyDuration, now: Instant) -> Seq<u32>
    decreases slots.len(),
{
    if slots.len() == 0 {
        Seq::empty()
    } else {
        let rest = expired_ids(slots.drop_last(), timeout, now);
        if is_expired(slots.last(), timeout, now) {
            rest.push(slots.last()->0.packet_id)
        } else {
            rest
        }
    }
}

/// Whether no packet began to wait after `now`.
pub open spec fn started_by(slots: Seq<Slot>, now: Instant) -> bool {
    forall|i: int|
        0 <= i < slots.len() ==> (#[trigger] slots[i] matches Some(pending) ==> pending.started.ticks
            <= now.ticks)
}

/// When the wait of each slot's packet is over.
pub open spec fn timeout_deadlines(slots: Seq<Slot>, timeout: EmbassyDuration) -> Seq<
    Option<Instant>,
> {
    Seq::new(
        slots.len(),
        |i: int|
            match slots[i] {
                Some(pending) => pending.started.spec_checked_add(timeout),
                None => None,
            },
    )
}

/// Whether the end of every wait can be represented.
pub open spec fn timeouts_fit(slots: Seq<Slot>, timeout: EmbassyDuration) -> bool {
    forall|i: int|
        0 <= i < slots.len() ==> (#[trigger] slots[i] matches Some(pending) ==> pending.started.ticks
            + timeout.ticks <= u64::MAX)
}

impl PendingTxQueue {
    /// An empty queue in which a packet waits for at most `timeout`.
    pub fn new(timeout: EmbassyDuration) -> (r: Self)
        ensures
            r.slots@ == Seq::new(TX_PENDING as nat, |i: int| None::<PendingTx>),
            r.timeout == timeout,
    {
        let r = PendingTxQueue { slots: [None, None, None, None], timeout };
        assert(r.slots@ =~= Seq::new(TX_PENDING as nat, |i: int| None::<PendingTx>));
        r
    }

    /// Whether every slot is taken.
    pub fn full(&self) -> (r: bool)
        ensures
            r == is_full(self.slots@),
    {
        let mut index: usize = 0;
        while index < TX_PENDING
            invariant
                index <= TX_PENDING,
                first_free(self.slots@, 0) == first_free(self.slots@, index as int),
            decreases TX_PENDING - index,
        {
            if self.slots[index].is_none() {
                return false;
            }
            index += 1;
        }
        true
    }

    /// What queueing a packet at `now` gives: the packet waits in the first free
    /// slot, or nothing changes if the queue is full.
    pub open spec fn is_push_of(
        self,
        before: Self,
        now: Instant,
        context: TimestampContext,
        packet_id: u32,
        r: bool,
    ) -> bool {
        &&& r == !is_full(before.slots@)
        &&& self.slots@ == if r {
            pushed(before.slots@, PendingTx { context, packet_id, started: now })
        } else {
            before.slots@
        }
        &&& self.timeout == before.timeout
    }

    /// Queues a packet whose wait begins at the clock reading `now`. `false` if the
    /// queue is full; the packet's context is then dropped.
    pub fn push_at(&mut self, now: Instant, context: TimestampContext, packet_id: u32) -> (r: bool)
        ensures
            final(self).is_push_of(*old(self), now, context, packet_id, r),
    {
        let mut index: usize = 0;
        while index < TX_PENDING
            invariant
                index <= TX_PENDING,
                *self == *old(self),
                first_free(self.slots@, 0) == first_free(self.slots@, index as int),
            decreases TX_PENDING - index,
        {
            if self.slots[index].is_none() {
                self.slots[index] = Some(PendingTx { context, packet_id, started: now });
                return true;
            }
            index += 1;
        }
        false
    }

    /// Queues a packet whose wait begins at the moment of the call. `false` if the
    /// queue is full; the packet's context is then dropped.
    pub fn push(&mut self, context: TimestampContext, packet_id: u32) -> (r: bool)
        ensures
            exists|now: Instant|
                read_from_clock(now) && #[trigger]
                final(self).is_push_of(*old(self), now, context, packet_id, r),
    {
        let now = read_clock();
        self.push_at(now, context, packet_id)
    }

    /// The first slot that holds a packet with this identifier, or the number of
    /// slots.
    pub(crate) fn find(&self, packet_id: u32) -> (r: usize)
        ensures
            r == first_with_id(self.slots@, packet_id, 0),
            r <= TX_PENDING,
            r < TX_PENDING ==> holds_id(self.slots@[r as int], packet_id),
    {
        let mut index: usize = 0;
        while index < TX_PENDING
            invariant
                index <= TX_PENDING,
                first_with_id(self.slots@, packet_id, 0) == first_with_id(
                    self.slots@,
                    packet_id,
                    index as int,
                ),
            decreases TX_PENDING - index,
        {
            if let Some(pending) = &self.slots[index] {
                if pending.packet_id == packet_id {
                    return index;
                }
            }
            index += 1;
        }
        index
    }

    /// What learning at `now` that a packet was sent gives: its wait begins anew.
    pub open spec fn is_sent_of(self, before: Self, now: Instant, packet_id: u32) -> bool {
        &&& self.slots@ == if is_pending(before.slots@, packet_id) {
            restarted(before.slots@, packet_id, now)
        } else {
            before.slots@
        }
        &&& self.timeout == before.timeout
    }

    /// Begins the wait of a packet anew, from the clock reading `now`.
    pub fn sent_at(&mut self, now: Instant, packet_id: u32)
        ensures
            final(self).is_sent_of(*old(self), now, packet_id),
    {
        let index: usize = self.find(packet_id);
        if index < TX_PENDING {
            if let Some(pending) = &mut self.slots[index] {
                pending.started = now;
            }
        }
    }

    /// Begins the wait of a packet anew, from the moment of the call.
    pub fn sent(&mut self, packet_id: u32)
        ensures
            exists|now: Instant|
                read_from_clock(now) && #[trigger] final(self).is_sent_of(*old(self), now, packet_id),
    {
        let now = read_clock();
        self.sent_at(now, packet_id)
    }

    /// `self` is `before` without the packet that has this identifier.
    pub open spec fn is_without(self, before: Self, packet_id: u32) -> bool {
        &&& self.slots@ == if is_pending(before.slots@, packet_id) {
            taken(before.slots@, packet_id)
        } else {
            before.slots@
        }
        &&& self.timeout == before.timeout
    }

    /// The context of the packet with this identifier, if it waits.
    pub open spec fn context_of(self, packet_id: u32) -> Option<TimestampContext> {
        if is_pending(self.slots@, packet_id) {
            Some(pending_with_id(self.slots@, packet_id).context)
        } else {
            None
        }
    }

    /// Takes a packet out and returns its context, if it waits.
    pub fn take(&mut self, packet_id: u32) -> (r: Option<TimestampContext>)
        ensures
            r == old(self).context_of(packet_id),
            final(self).is_without(*old(self), packet_id),
    {
        let index: usize = self.find(packet_id);
        if index < TX_PENDING {
            match self.slots[index].take() {
                Some(pending) => Some(pending.context),
                None => None,
            }
        } else {
            None
        }
    }

    /// Whether the clock reading `now` is not before the start of any wait.
    fn all_started_by(&self, now: Instant) -> (r: bool)
        ensures
            r == started_by(self.slots@, now),
    {
        let mut index: usize = 0;
        while index < TX_PENDING
            invariant
                index <= TX_PENDING,
                started_by(self.slots@.take(index as int), now),
            decreases TX_PENDING - index,
        {
            let ghost here = self.slots@[index as int];
            if let Some(pending) = &self.slots[index] {
                if pending.started.ticks > now.ticks {
                    return false;
                }
            }
            assert forall|i: int| 0 <= i < index + 1 implies (#[trigger] self.slots@.take(index + 1)[i] matches Some(
            pending) ==> pending.started.ticks <= now.ticks) by {
                if i < index {
                    assert(self.slots@.take(index as int)[i] == self.slots@[i]);
                } else {
                    assert(self.slots@.take(index + 1)[i] == here);
                }
            }
            index += 1;
        }
        assert(self.slots@.take(TX_PENDING as int) =~= self.slots@);
        true
    }

    /// What ending the waits that are over at `now` gives: those packets leave and
    /// the others stay; nothing changes if the clock ran backwards.
    pub open spec fn is_expire_of(
        self,
        before: Self,
        now: Instant,
        r: Result<Seq<u32>, ClockError>,
    ) -> bool {
        if started_by(before.slots@, now) {
            &&& r == Ok::<Seq<u32>, ClockError>(expired_ids(before.slots@, before.timeout, now))
            &&& self.slots@ == unexpired(before.slots@, before.timeout, now)
            &&& self.timeout == before.timeout
        } else {
            &&& r == Err::<Seq<u32>, ClockError>(ClockError::Backwards)
            &&& self == before
        }
    }

    /// Drops the packets whose wait is over at the clock reading `now`, and returns
    /// their identifiers.
    pub fn expire_at(&mut self, now: Instant) -> (r: Result<Vec<u32>, ClockError>)
        ensures
            final(self).is_expire_of(*old(self), now, ids_of(r)),
    {
        if !self.all_started_by(now) {
            return Err(ClockError::Backwards);
        }
        let mut ids: Vec<u32> = Vec::new();
        let mut index: usize = 0;
        let ghost before = self.slots@;
        let timeout = self.timeout;
        assert(before.take(0) =~= Seq::<Slot>::empty());
        while index < TX_PENDING
            invariant
                index <= TX_PENDING,
                before.len() == TX_PENDING,
                started_by(before, now),
                self.timeout == timeout,
                ids@ == expired_ids(before.take(index as int), timeout, now),
                forall|i: int|
                    0 <= i < TX_PENDING ==> #[trigger] self.slots@[i] == if i < index && is_expired(
                        before[i],
                        timeout,
                        now,
                    ) {
                        None
                    } else {
                        before[i]
                    },
            decreases TX_PENDING - index,
        {
            let ghost here = before[index as int];
            assert(self.slots@[index as int] == here);
            assert(before.take(index + 1).drop_last() =~= before.take(index as int));
            let mut expired: Option<u32> = None;
            if let Some(pending) = &self.slots[index] {
                if now.ticks - pending.started.ticks >= timeout.ticks {
                    expired = Some(pending.packet_id);
                }
            }
            if let Some(packet_id) = expired {
                self.slots[index] = None;
                ids.push(packet_id);
            }
            index += 1;
        }
        assert(before.take(TX_PENDING as int) =~= before);
        assert(self.slots@ =~= unexpired(before, timeout, now));
        Ok(ids)
    }

    /// Drops the packets whose wait is over at the moment of the call, and returns
    /// their identifiers.
    pub fn expire(&mut self) -> (r: Result<Vec<u32>, ClockError>)
        ensures
            exists|now: Instant|
                read_from_clock(now) && #[trigger] final(self).is_expire_of(*old(self), now, ids_of(r)),
    {
        let now = read_clock();
        self.expire_at(now)
    }

    /// When the next wait is over.
    pub fn next_timeout_deadline(&self) -> (r: Option<Instant>)
        requires
            timeouts_fit(self.slots@, self.timeout),
        ensures
            r == earliest(timeout_deadlines(self.slots@, self.timeout)),
    {
        let mut r: Option<Instant> = None;
        let mut index: usize = 0;
        let ghost deadlines = timeout_deadlines(self.slots@, self.timeout);
        while index < TX_PENDING
            invariant
                index <= TX_PENDING,
                deadlines == timeout_deadlines(self.slots@, self.timeout),
                r == earliest(deadlines.take(index as int)),
            decreases TX_PENDING - index,
        {
            assert(deadlines.take(index + 1).drop_last() =~= deadlines.take(index as int));
            let deadline = match &self.slots[index] {
                Some(pending) => pending.started.checked_add(self.timeout),
                None => None,
            };
            r = earlier_deadline(r, deadline);
            index += 1;
        }
        assert(deadlines.take(TX_PENDING as int) =~= deadlines);
        r
    }
}

/// The identifiers in an outcome of [`PendingTxQueue::expire`].
pub open spec fn ids_of(r: Result<Vec<u32>, ClockError>) -> Result<Seq<u32>, ClockError> {
    match r {
        Ok(ids) => Ok(ids@),
        Err(error) => Err(error),
    }
}

/// The slot that [`first_with_id`] names holds the identifier, and none between
/// `from` and that slot does.
proof fn lemma_first_with_id(slots: Seq<Slot>, packet_id: u32, from: int)
    requires
        0 <= from <= slots.len(),
    ensures
        from <= first_with_id(slots, packet_id, from) <= slots.len(),
        first_with_id(slots, packet_id, from) < slots.len() ==> holds_id(
            slots[first_with_id(slots, packet_id, from)],
            packet_id,
        ),
        forall|i: int|
            from <= i < first_with_id(slots, packet_id, from) ==> !holds_id(
                #[trigger] slots[i],
                packet_id,
            ),
    decreases slots.len() - from,
{
    if from < slots.len() && !holds_id(slots[from], packet_id) {
        lemma_first_with_id(slots, packet_id, from + 1);
    }
}

/// The slot that [`first_free`] names is free, and none between `from` and that slot
/// is.
proof fn lemma_first_free(slots: Seq<Slot>, from: int)
    requires
        0 <= from <= slots.len(),
    ensures
        from <= first_free(slots, from) <= slots.len(),
        first_free(slots, from) < slots.len() ==> slots[first_free(slots, from)] is None,
        forall|i: int| from <= i < first_free(slots, from) ==> #[trigger] slots[i] is Some,
    decreases slots.len() - from,
{
    if from < slots.len() && slots[from] is Some {
        lemma_first_free(slots, from + 1);
    }
}

/// Queueing a packet, taking one out, beginning a wait anew and dropping overdue
/// packets keep the end of every wait representable, as long as that of a wait which
/// begins at `now` is.
pub proof fn timeouts_stay_representable(
    slots: Seq<Slot>,
    timeout: EmbassyDuration,
    now: Instant,
    pending: PendingTx,
    packet_id: u32,
)
    requires
        timeouts_fit(slots, timeout),
        pending.started == now,
    ensures
        now.ticks + timeout.ticks <= u64::MAX && !is_full(slots) ==> timeouts_fit(
            pushed(slots, pending),
            timeout,
        ),
        now.ticks + timeout.ticks <= u64::MAX && is_pending(slots, packet_id) ==> timeouts_fit(
            restarted(slots, packet_id, now),
            timeout,
        ),
        is_pending(slots, packet_id) ==> timeouts_fit(taken(slots, packet_id), timeout),
        timeouts_fit(unexpired(slots, timeout, now), timeout),
{
    lemma_first_free(slots, 0);
    lemma_first_with_id(slots, packet_id, 0);
}

/// A queue is full exactly if a packet waits in every slot.
pub proof fn full_means_every_slot_waits(slots: Seq<Slot>)
    ensures
        is_full(slots) <==> forall|i: int| 0 <= i < slots.len() ==> #[trigger] slots[i] is Some,
{
    lemma_first_free(slots, 0);
}

/// Unless the queue is full, the slot for the next packet is there and is free.
pub proof fn first_free_is_a_free_slot(slots: Seq<Slot>)
    requires
        !is_full(slots),
    ensures
        0 <= first_free(slots, 0) < slots.len(),
        slots[first_free(slots, 0)] is None,
{
    lemma_first_free(slots, 0);
}

/// No slot before the one for the next packet is free.
pub proof fn first_free_is_the_first(slots: Seq<Slot>)
    ensures
        forall|i: int| 0 <= i < first_free(slots, 0) ==> #[trigger] slots[i] is Some,
{
    lemma_first_free(slots, 0);
}

/// A packet waits under an identifier exactly if some slot holds that identifier.
pub proof fn pending_means_a_slot_holds_it(slots: Seq<Slot>, packet_id: u32)
    ensures
        is_pending(slots, packet_id) <==> exists|i: int|
            0 <= i < slots.len() && holds_id(#[trigger] slots[i], packet_id),
        is_pending(slots, packet_id) ==> pending_with_id(slots, packet_id).packet_id == packet_id,
{
    lemma_first_with_id(slots, packet_id, 0);
}

/// Whether no two packets wait under one identifier.
pub open spec fn distinct_ids(slots: Seq<Slot>) -> bool {
    forall|i: int, j: int|
        0 <= i < j < slots.len() ==> (#[trigger] slots[i] matches Some(pending) ==> !holds_id(
            #[trigger] slots[j],
            pending.packet_id,
        ))
}

/// A transmit timestamp finds its packet: taking out the identifier under which a
/// packet was just queued gives that packet's context back and leaves the queue as
/// it was before.
pub proof fn take_gives_back_what_was_pushed(slots: Seq<Slot>, pending: PendingTx)
    requires
        !is_full(slots),
        !is_pending(slots, pending.packet_id),
    ensures
        is_pending(pushed(slots, pending), pending.packet_id),
        pending_with_id(pushed(slots, pending), pending.packet_id) == pending,
        taken(pushed(slots, pending), pending.packet_id) == slots,
{
    let after = pushed(slots, pending);
    lemma_first_free(slots, 0);
    let free = first_free(slots, 0);
    lemma_first_with_id(slots, pending.packet_id, 0);
    lemma_first_with_id(after, pending.packet_id, 0);
    let found = first_with_id(after, pending.packet_id, 0);
    assert(holds_id(after[free], pending.packet_id));
    if found != free {
        assert(found < free);
        assert(after[found] == slots[found]);
    }
    assert(taken(after, pending.packet_id) =~= slots);
}

/// Queueing a packet leaves the packets that wait under other identifiers alone,
/// and keeps identifiers distinct if the packet's own is new.
pub proof fn push_keeps_the_others(slots: Seq<Slot>, pending: PendingTx, other: u32)
    requires
        !is_full(slots),
        other != pending.packet_id,
    ensures
        is_pending(pushed(slots, pending), other) == is_pending(slots, other),
        is_pending(slots, other) ==> pending_with_id(pushed(slots, pending), other)
            == pending_with_id(slots, other),
        distinct_ids(slots) && !is_pending(slots, pending.packet_id) ==> distinct_ids(
            pushed(slots, pending),
        ),
{
    let after = pushed(slots, pending);
    lemma_first_free(slots, 0);
    lemma_same_first(slots, after, other);
    if distinct_ids(slots) && !is_pending(slots, pending.packet_id) {
        lemma_first_with_id(slots, pending.packet_id, 0);
        let free = first_free(slots, 0);
        assert forall|i: int, j: int| 0 <= i < j < after.len() implies (#[trigger] after[i] matches Some(
        waiting) ==> !holds_id(#[trigger] after[j], waiting.packet_id)) by {
            if i != free {
                assert(after[i] == slots[i]);
            }
            if j != free {
                assert(after[j] == slots[j]);
            }
        }
    }
}

/// Two slot sequences that agree on which slots hold an identifier, and on what
/// those slots hold, find the same packet under it.
proof fn lemma_same_first(a: Seq<Slot>, b: Seq<Slot>, packet_id: u32)
    requires
        a.len() == b.len(),
        forall|i: int|
            0 <= i < a.len() ==> holds_id(#[trigger] a[i], packet_id) == holds_id(b[i], packet_id)
                && (holds_id(a[i], packet_id) ==> a[i] == b[i]),
    ensures
        first_with_id(a, packet_id, 0) == first_with_id(b, packet_id, 0),
        is_pending(a, packet_id) == is_pending(b, packet_id),
        is_pending(a, packet_id) ==> pending_with_id(a, packet_id) == pending_with_id(b, packet_id),
{
    lemma_first_with_id(a, packet_id, 0);
    lemma_first_with_id(b, packet_id, 0);
    let i = first_with_id(a, packet_id, 0);
    let j = first_with_id(b, packet_id, 0);
    if i < j {
        assert(holds_id(a[i], packet_id));
        assert(holds_id(b[i], packet_id));
    } else if j < i {
        assert(holds_id(b[j], packet_id));
        assert(holds_id(a[j], packet_id));
    }
}

/// Taking a packet out leaves the packets that wait under other identifiers alone.
pub proof fn take_keeps_the_others(slots: Seq<Slot>, packet_id: u32, other: u32)
    requires
        is_pending(slots, packet_id),
        other != packet_id,
    ensures
        is_pending(taken(slots, packet_id), other) == is_pending(slots, other),
        is_pending(slots, other) ==> pending_with_id(taken(slots, packet_id), other)
            == pending_with_id(slots, other),
{
    lemma_first_with_id(slots, packet_id, 0);
    lemma_same_first(slots, taken(slots, packet_id), other);
}

/// Each timestamp is used once: while identifiers are distinct, a packet that was
/// taken out is no longer found, there is room for another, and identifiers stay
/// distinct.
pub proof fn taken_packet_is_gone(slots: Seq<Slot>, packet_id: u32)
    requires
        distinct_ids(slots),
        is_pending(slots, packet_id),
    ensures
        !is_pending(taken(slots, packet_id), packet_id),
        distinct_ids(taken(slots, packet_id)),
        !is_full(taken(slots, packet_id)),
{
    let after = taken(slots, packet_id);
    let found = first_with_id(slots, packet_id, 0);
    lemma_first_with_id(slots, packet_id, 0);
    lemma_first_with_id(after, packet_id, 0);
    lemma_first_free(after, 0);
    assert(after[found] is None);
    let again = first_with_id(after, packet_id, 0);
    if again < after.len() {
        assert(after[again] == slots[again]);
        assert(slots[found]->0.packet_id == packet_id);
        assert(holds_id(slots[again], packet_id));
        assert(false);
    }
    assert forall|i: int, j: int| 0 <= i < j < after.len() implies (#[trigger] after[i] matches Some(
    waiting) ==> !holds_id(#[trigger] after[j], waiting.packet_id)) by {
        assert(i != found ==> after[i] == slots[i]);
        assert(j != found ==> after[j] == slots[j]);
    }
}

/// Dropping overdue packets and beginning waits anew bring in no identifier, so
/// distinct identifiers stay distinct.
pub proof fn expiry_and_restart_keep_ids_distinct(
    slots: Seq<Slot>,
    timeout: EmbassyDuration,
    packet_id: u32,
    now: Instant,
)
    requires
        distinct_ids(slots),
    ensures
        distinct_ids(unexpired(slots, timeout, now)),
        is_pending(slots, packet_id) ==> distinct_ids(restarted(slots, packet_id, now)),
{
    let kept = unexpired(slots, timeout, now);
    assert forall|i: int, j: int| 0 <= i < j < kept.len() implies (#[trigger] kept[i] matches Some(
    waiting) ==> !holds_id(#[trigger] kept[j], waiting.packet_id)) by {
        assert(kept[i] is Some ==> kept[i] == slots[i]);
        assert(kept[j] is Some ==> kept[j] == slots[j]);
    }
    if is_pending(slots, packet_id) {
        lemma_first_with_id(slots, packet_id, 0);
        let after = restarted(slots, packet_id, now);
        let found = first_with_id(slots, packet_id, 0);
        assert forall|i: int, j: int| 0 <= i < j < after.len() implies (#[trigger] after[i] matches Some(
        waiting) ==> !holds_id(#[trigger] after[j], waiting.packet_id)) by {
            assert(after[i] is Some ==> slots[i] is Some && slots[i]->0.packet_id
                == after[i]->0.packet_id);
            assert(after[j] is Some ==> slots[j] is Some && slots[j]->0.packet_id
                == after[j]->0.packet_id);
        }
    }
}

/// Beginning a packet's wait anew changes when the wait began and nothing else: the
/// packet is still found, with its context, and so are the others.
pub proof fn restart_keeps_the_packet(slots: Seq<Slot>, packet_id: u32, now: Instant, other: u32)
    requires
        is_pending(slots, packet_id),
        other != packet_id,
    ensures
        is_pending(restarted(slots, packet_id, now), packet_id),
        pending_with_id(restarted(slots, packet_id, now), packet_id) == (PendingTx {
            started: now,
            ..pending_with_id(slots, packet_id)
        }),
        is_pending(restarted(slots, packet_id, now), other) == is_pending(slots, other),
        is_pending(slots, other) ==> pending_with_id(restarted(slots, packet_id, now), other)
            == pending_with_id(slots, other),
{
    let after = restarted(slots, packet_id, now);
    let found = first_with_id(slots, packet_id, 0);
    lemma_first_with_id(slots, packet_id, 0);
    lemma_first_with_id(after, packet_id, 0);
    let again = first_with_id(after, packet_id, 0);
    assert(holds_id(after[found], packet_id));
    if again < found {
        assert(after[again] == slots[again]);
    }
    lemma_same_first(slots, after, other);
}

/// A packet that is still in time is found after expiry as before.
pub proof fn expiry_keeps_a_packet_in_time(
    slots: Seq<Slot>,
    timeout: EmbassyDuration,
    now: Instant,
    packet_id: u32,
)
    requires
        is_pending(slots, packet_id),
        !is_expired(Some(pending_with_id(slots, packet_id)), timeout, now),
    ensures
        is_pending(unexpired(slots, timeout, now), packet_id),
        pending_with_id(unexpired(slots, timeout, now), packet_id) == pending_with_id(
            slots,
            packet_id,
        ),
{
    let after = unexpired(slots, timeout, now);
    let found = first_with_id(slots, packet_id, 0);
    lemma_first_with_id(slots, packet_id, 0);
    lemma_first_with_id(after, packet_id, 0);
    let again = first_with_id(after, packet_id, 0);
    assert(after[found] == slots[found]);
    assert(holds_id(after[found], packet_id));
    if again < found {
        assert(after[again] is Some ==> after[again] == slots[again]);
    }
}

/// A fresh identifier is not in use: if every waiting packet got its identifier less
/// than a full cycle of identifiers ago, none waits under the next one.
pub proof fn fresh_id_is_not_pending(slots: Seq<Slot>, next: u32, ages: Seq<nat>)
    requires
        ages.len() == slots.len(),
        forall|i: int|
            0 <= i < slots.len() ==> (#[trigger] slots[i] matches Some(pending) ==> {
                &&& pending.packet_id != 0
                &&& 0 < ages[i] < u32::MAX
                &&& next == nth_id(pending.packet_id, ages[i])
            }),
    ensures
        !is_pending(slots, next),
{
    lemma_first_with_id(slots, next, 0);
    let found = first_with_id(slots, next, 0);
    if found < slots.len() {
        let id = slots[found]->0.packet_id;
        packet_ids_are_distinct(id, 0, ages[found]);
        nth_id_counts_calls(id, 0);
    }
}

/// No packet waits too long and none is dropped too early: after expiry at `now`
/// the wait of no packet is over, and a packet is gone only if its wait was over.
pub proof fn expiry_drops_exactly_the_overdue(
    slots: Seq<Slot>,
    timeout: EmbassyDuration,
    now: Instant,
    slot: int,
)
    requires
        0 <= slot < slots.len(),
    ensures
        !is_expired(unexpired(slots, timeout, now)[slot], timeout, now),
        unexpired(slots, timeout, now)[slot] != slots[slot] ==> is_expired(
            slots[slot],
            timeout,
            now,
        ),
        is_expired(slots[slot], timeout, now) ==> unexpired(slots, timeout, now)[slot] is None,
        unexpired(unexpired(slots, timeout, now), timeout, now) == unexpired(slots, timeout, now),
{
    assert(unexpired(unexpired(slots, timeout, now), timeout, now) =~= unexpired(
        slots,
        timeout,
        now,
    ));
}

/// The identifiers that expiry reports are those of the overdue packets.
pub proof fn expired_ids_are_those_of_the_overdue(
    slots: Seq<Slot>,
    timeout: EmbassyDuration,
    now: Instant,
    packet_id: u32,
)
    ensures
        expired_ids(slots, timeout, now).contains(packet_id) <==> exists|i: int|
            0 <= i < slots.len() && is_expired(#[trigger] slots[i], timeout, now) && holds_id(
                slots[i],
                packet_id,
            ),
    decreases slots.len(),
{
    if slots.len() > 0 {
        let rest = slots.drop_last();
        expired_ids_are_those_of_the_overdue(rest, timeout, now, packet_id);
        let ids = expired_ids(slots, timeout, now);
        let rest_ids = expired_ids(rest, timeout, now);
        if ids.contains(packet_id) {
            let k = choose|k: int| 0 <= k < ids.len() && ids[k] == packet_id;
            if k < rest_ids.len() {
                assert(rest_ids[k] == packet_id);
                assert(rest_ids.contains(packet_id));
                let i = choose|i: int|
                    0 <= i < rest.len() && is_expired(#[trigger] rest[i], timeout, now) && holds_id(
                        rest[i],
                        packet_id,
                    );
                assert(slots[i] == rest[i]);
            } else {
                assert(slots[slots.len() - 1] == slots.last());
            }
        }
        if exists|i: int|
            0 <= i < slots.len() && is_expired(#[trigger] slots[i], timeout, now) && holds_id(
                slots[i],
                packet_id,
            ) {
            let i = choose|i: int|
                0 <= i < slots.len() && is_expired(#[trigger] slots[i], timeout, now) && holds_id(
                    slots[i],
                    packet_id,
                );
            if i < rest.len() {
                assert(rest[i] == slots[i]);
                let k = choose|k: int| 0 <= k < rest_ids.len() && rest_ids[k] == packet_id;
                assert(ids[k] == packet_id);
            } else {
                assert(ids[ids.len() - 1] == packet_id);
            }
        }
    }
}

/// A packet whose identifier expiry does not report is found after expiry exactly if
/// it was before, and unchanged.
pub proof fn expiry_keeps_what_it_does_not_report(
    slots: Seq<Slot>,
    timeout: EmbassyDuration,
    now: Instant,
    packet_id: u32,
)
    requires
        !expired_ids(slots, timeout, now).contains(packet_id),
    ensures
        is_pending(unexpired(slots, timeout, now), packet_id) == is_pending(slots, packet_id),
        is_pending(slots, packet_id) ==> pending_with_id(unexpired(slots, timeout, now), packet_id)
            == pending_with_id(slots, packet_id),
{
    let waiting = unexpired(slots, timeout, now);
    expired_ids_are_those_of_the_overdue(slots, timeout, now, packet_id);
    lemma_first_with_id(slots, packet_id, 0);
    lemma_first_with_id(waiting, packet_id, 0);
    if is_pending(slots, packet_id) {
        let found = first_with_id(slots, packet_id, 0);
        assert(!is_expired(slots[found], timeout, now));
        expiry_keeps_a_packet_in_time(slots, timeout, now, packet_id);
    } else if is_pending(waiting, packet_id) {
        let found = first_with_id(waiting, packet_id, 0);
        assert(waiting[found] == slots[found]);
    }
}

/// The next timeout deadline is when a wait is next over: it is reached at `now`
/// exactly if some packet's wait is over.
pub proof fn timeout_deadline_is_when_a_wait_is_over(
    slots: Seq<Slot>,
    timeout: EmbassyDuration,
    now: Instant,
)
    requires
        timeouts_fit(slots, timeout),
    ensures
        (earliest(timeout_deadlines(slots, timeout)) matches Some(deadline) && deadline.ticks
            <= now.ticks) <==> exists|i: int|
            0 <= i < slots.len() && is_expired(#[trigger] slots[i], timeout, now),
{
    let deadlines = timeout_deadlines(slots, timeout);
    earliest_is_the_minimum(deadlines);
    let first = earliest(deadlines);
    if first is Some && first->0.ticks <= now.ticks {
        let i = choose|i: int| 0 <= i < deadlines.len() && deadlines[i] == first;
        assert(is_expired(slots[i], timeout, now));
    }
    if exists|i: int| 0 <= i < slots.len() && is_expired(#[trigger] slots[i], timeout, now) {
        let i = choose|i: int| 0 <= i < slots.len() && is_expired(#[trigger] slots[i], timeout, now);
        assert(deadlines[i] is Some);
    }
}

/// A new queue has room for four packets, none of which waits, and keeps its timeout.
pub proof fn new_queue_is_empty(timeout: EmbassyDuration, queue: PendingTxQueue, slot: int)
    requires
        call_ensures(PendingTxQueue::new, (timeout,), queue),
    ensures
        queue.slots@.len() == 4,
        0 <= slot < 4 ==> queue.slots@[slot] is None,
        queue.timeout == timeout,
{
}

/// A queue says that it is full exactly if a packet waits in each of its four slots.
pub proof fn full_queue_has_four_packets(queue: PendingTxQueue, r: bool)
    requires
        call_ensures(PendingTxQueue::full, (&queue,), r),
    ensures
        r <==> queue.slots@[0] is Some && queue.slots@[1] is Some && queue.slots@[2] is Some
            && queue.slots@[3] is Some,
{
    full_means_every_slot_waits(queue.slots@);
}

/// Queueing succeeds exactly if there is room; the packet then waits in a slot that was
/// free, before any other free one, with its own context and identifier and from `now`
/// on. All other slots, and the timeout, stay as they are.
pub proof fn queued_packet_takes_a_free_slot(
    queue: &mut PendingTxQueue,
    now: Instant,
    context: TimestampContext,
    packet_id: u32,
    r: bool,
)
    requires
        call_ensures(PendingTxQueue::push_at, (queue, now, context, packet_id), r),
    ensures
        r <==> exists|i: int| 0 <= i < 4 && #[trigger] old(queue).slots@[i] is None,
        r ==> exists|i: int|
            {
                &&& 0 <= i < 4
                &&& #[trigger] old(queue).slots@[i] is None
                &&& final(queue).slots@[i] is Some
                &&& final(queue).slots@[i]->0.context == context
                &&& final(queue).slots@[i]->0.packet_id == packet_id
                &&& final(queue).slots@[i]->0.started == now
                &&& forall|j: int| 0 <= j < i ==> #[trigger] old(queue).slots@[j] is Some
                &&& forall|j: int|
                    0 <= j < 4 && j != i ==> #[trigger] final(queue).slots@[j] == old(queue).slots@[j]
            },
        !r ==> final(queue).slots@ == old(queue).slots@,
        final(queue).timeout == old(queue).timeout,
{
    let slots = old(queue).slots@;
    full_means_every_slot_waits(slots);
    lemma_first_free(slots, 0);
    if r {
        let free = first_free(slots, 0);
        assert(slots[free] is None);
    }
}

/// Queueing at the moment of the call records a reading of the system clock as the
/// beginning of the wait, and changes nothing else.
pub proof fn queued_packet_waits_from_now(
    queue: &mut PendingTxQueue,
    context: TimestampContext,
    packet_id: u32,
    r: bool,
)
    requires
        call_ensures(PendingTxQueue::push, (queue, context, packet_id), r),
    ensures
        r <==> exists|i: int| 0 <= i < 4 && #[trigger] old(queue).slots@[i] is None,
        r ==> exists|i: int|
            {
                &&& 0 <= i < 4
                &&& #[trigger] old(queue).slots@[i] is None
                &&& final(queue).slots@[i] is Some
                &&& final(queue).slots@[i]->0.context == context
                &&& final(queue).slots@[i]->0.packet_id == packet_id
                &&& read_from_clock(final(queue).slots@[i]->0.started)
                &&& forall|j: int| 0 <= j < i ==> #[trigger] old(queue).slots@[j] is Some
                &&& forall|j: int|
                    0 <= j < 4 && j != i ==> #[trigger] final(queue).slots@[j] == old(queue).slots@[j]
            },
        !r ==> final(queue).slots@ == old(queue).slots@,
        final(queue).timeout == old(queue).timeout,
{
    let slots = old(queue).slots@;
    full_means_every_slot_waits(slots);
    lemma_first_free(slots, 0);
    if r {
        let free = first_free(slots, 0);
        assert(slots[free] is None);
    }
}

/// Sending a packet restarts the wait of the first packet with its identifier: only the
/// beginning of that wait changes, to `now`. If no packet waits under the identifier,
/// nothing changes.
pub proof fn sent_packet_waits_anew(queue: &mut PendingTxQueue, now: Instant, packet_id: u32, slot: int)
    requires
        call_ensures(PendingTxQueue::sent_at, (queue, now, packet_id), ()),
        0 <= slot < 4,
    ensures
        final(queue).timeout == old(queue).timeout,
        ({
            let before = old(queue).slots@[slot];
            let after = final(queue).slots@[slot];
            let found = before is Some && before->0.packet_id == packet_id && forall|j: int|
                0 <= j < slot && #[trigger] old(queue).slots@[j] is Some
                    ==> old(queue).slots@[j]->0.packet_id != packet_id;
            &&& found ==> after is Some && after->0.started == now && after->0.packet_id
                == packet_id && after->0.context == before->0.context
            &&& !found ==> after == before
        }),
{
    found_packet_is_the_first(old(queue).slots@, packet_id, slot);
}

/// Sending a packet at the moment of the call restarts its wait at a reading of the
/// system clock.
pub proof fn sent_packet_waits_from_now(queue: &mut PendingTxQueue, packet_id: u32, slot: int)
    requires
        call_ensures(PendingTxQueue::sent, (queue, packet_id), ()),
        0 <= slot < 4,
    ensures
        final(queue).timeout == old(queue).timeout,
        ({
            let before = old(queue).slots@[slot];
            let after = final(queue).slots@[slot];
            let found = before is Some && before->0.packet_id == packet_id && forall|j: int|
                0 <= j < slot && #[trigger] old(queue).slots@[j] is Some
                    ==> old(queue).slots@[j]->0.packet_id != packet_id;
            &&& found ==> after is Some && read_from_clock(after->0.started) && after->0.packet_id
                == packet_id && after->0.context == before->0.context
            &&& !found ==> after == before
        }),
{
    found_packet_is_the_first(old(queue).slots@, packet_id, slot);
}

/// Taking a packet out gives the context of the first packet with that identifier, if
/// there is one, and empties its slot; all other slots stay as they are.
pub proof fn taken_packet_gives_its_context(
    queue: &mut PendingTxQueue,
    packet_id: u32,
    r: Option<TimestampContext>,
    slot: int,
)
    requires
        call_ensures(PendingTxQueue::take, (queue, packet_id), r),
        0 <= slot < 4,
    ensures
        final(queue).timeout == old(queue).timeout,
        r is Some <==> exists|i: int|
            0 <= i < 4 && #[trigger] old(queue).slots@[i] is Some
                && old(queue).slots@[i]->0.packet_id == packet_id,
        ({
            let before = old(queue).slots@[slot];
            let after = final(queue).slots@[slot];
            let found = before is Some && before->0.packet_id == packet_id && forall|j: int|
                0 <= j < slot && #[trigger] old(queue).slots@[j] is Some
                    ==> old(queue).slots@[j]->0.packet_id != packet_id;
            &&& found ==> after is None && r == Some(before->0.context)
            &&& !found ==> after == before
        }),
{
    let slots = old(queue).slots@;
    found_packet_is_the_first(slots, packet_id, slot);
    pending_means_a_slot_holds_it(slots, packet_id);
    if is_pending(slots, packet_id) {
        let i = choose|i: int| 0 <= i < slots.len() && holds_id(#[trigger] slots[i], packet_id);
        assert(slots[i] is Some);
    }
    if exists|i: int| 0 <= i < 4 && #[trigger] slots[i] is Some && slots[i]->0.packet_id == packet_id {
        let i = choose|i: int|
            0 <= i < 4 && #[trigger] slots[i] is Some && slots[i]->0.packet_id == packet_id;
        assert(holds_id(slots[i], packet_id));
    }
}

/// A slot is the one that is found under an identifier exactly if it holds the
/// identifier and none before it does.
pub proof fn found_packet_is_the_first(slots: Seq<Slot>, packet_id: u32, slot: int)
    requires
        0 <= slot < slots.len(),
    ensures
        0 <= first_with_id(slots, packet_id, 0) <= slots.len(),
        first_with_id(slots, packet_id, 0) == slot <==> slots[slot] is Some
            && slots[slot]->0.packet_id == packet_id && forall|j: int|
            0 <= j < slot && #[trigger] slots[j] is Some ==> slots[j]->0.packet_id != packet_id,
{
    lemma_first_with_id(slots, packet_id, 0);
    let found = first_with_id(slots, packet_id, 0);
    if found < slots.len() && found < slot {
        assert(holds_id(slots[found], packet_id));
        assert(slots[found] is Some);
    }
    if found > slot {
        assert(!holds_id(slots[slot], packet_id));
    }
}

/// Expiry drops a packet exactly if it has waited for the whole timeout at `now`, and
/// reports the identifiers of those that it drops, in the order of their slots. If the
/// clock reads earlier than the start of a wait, and only then, it fails and drops
/// nothing.
pub proof fn expiry_drops_what_waited_for_the_timeout(
    queue: &mut PendingTxQueue,
    now: Instant,
    r: Result<Vec<u32>, ClockError>,
    slot: int,
)
    requires
        call_ensures(PendingTxQueue::expire_at, (queue, now), r),
        0 <= slot < 4,
    ensures
        final(queue).timeout == old(queue).timeout,
        r is Err <==> exists|i: int|
            0 <= i < 4 && #[trigger] old(queue).slots@[i] is Some && now.ticks
                < old(queue).slots@[i]->0.started.ticks,
        r matches Err(error) ==> error is Backwards && final(queue).slots@ == old(queue).slots@,
        r matches Ok(ids) ==> {
            let before = old(queue).slots@[slot];
            let over = before is Some && before->0.started.ticks + old(queue).timeout.ticks
                <= now.ticks;
            &&& over ==> final(queue).slots@[slot] is None
            &&& !over ==> final(queue).slots@[slot] == before
        },
        r matches Ok(ids) ==> {
            let over = |i: int|
                old(queue).slots@[i] is Some && old(queue).slots@[i]->0.started.ticks + old(
                    queue,
                ).timeout.ticks <= now.ticks;
            let id = |i: int|
                if over(i) {
                    seq![old(queue).slots@[i]->0.packet_id]
                } else {
                    Seq::empty()
                };
            ids@ == id(0) + id(1) + id(2) + id(3)
        },
{
    reported_ids_are_in_slot_order(old(queue).slots@, old(queue).timeout, now);
}

/// The identifiers that expiry reports are those of the overdue packets, slot by slot.
pub proof fn reported_ids_are_in_slot_order(slots: Seq<Slot>, timeout: EmbassyDuration, now: Instant)
    requires
        slots.len() == 4,
    ensures
        ({
            let id = |i: int|
                if is_expired(slots[i], timeout, now) {
                    seq![slots[i]->0.packet_id]
                } else {
                    Seq::empty()
                };
            expired_ids(slots, timeout, now) == id(0) + id(1) + id(2) + id(3)
        }),
{
    let id = |i: int|
        if is_expired(slots[i], timeout, now) {
            seq![slots[i]->0.packet_id]
        } else {
            Seq::empty()
        };
    let s3 = slots.drop_last();
    let s2 = s3.drop_last();
    let s1 = s2.drop_last();
    assert(expired_ids(s1.drop_last(), timeout, now) =~= Seq::<u32>::empty());
    assert(expired_ids(s1, timeout, now) =~= id(0));
    assert(expired_ids(s2, timeout, now) =~= id(0) + id(1));
    assert(expired_ids(s3, timeout, now) =~= id(0) + id(1) + id(2));
    assert(expired_ids(slots, timeout, now) =~= id(0) + id(1) + id(2) + id(3));
}

/// Expiry at the moment of the call goes by a reading of the system clock.
pub proof fn expiry_follows_the_clock(
    queue: &mut PendingTxQueue,
    r: Result<Vec<u32>, ClockError>,
)
    requires
        call_ensures(PendingTxQueue::expire, (queue,), r),
    ensures
        final(queue).timeout == old(queue).timeout,
        exists|now: Instant| #[trigger]
            read_from_clock(now) && (r is Err <==> exists|i: int|
                0 <= i < 4 && #[trigger] old(queue).slots@[i] is Some && now.ticks
                    < old(queue).slots@[i]->0.started.ticks) && (r is Ok ==> forall|slot: int|
                0 <= slot < 4 ==> {
                    let before = #[trigger] old(queue).slots@[slot];
                    let over = before is Some && before->0.started.ticks + old(queue).timeout.ticks
                        <= now.ticks;
                    &&& over ==> final(queue).slots@[slot] is None
                    &&& !over ==> final(queue).slots@[slot] == before
                }) && (r is Ok ==> {
                let over = |i: int|
                    old(queue).slots@[i] is Some && old(queue).slots@[i]->0.started.ticks + old(
                        queue,
                    ).timeout.ticks <= now.ticks;
                let id = |i: int|
                    if over(i) {
                        seq![old(queue).slots@[i]->0.packet_id]
                    } else {
                        Seq::empty()
                    };
                r->Ok_0@ == id(0) + id(1) + id(2) + id(3)
            }),
        r matches Err(error) ==> error is Backwards && final(queue).slots@ == old(queue).slots@,
{
    let now = choose|now: Instant|
        read_from_clock(now) && #[trigger] final(queue).is_expire_of(*old(queue), now, ids_of(r));
    assert(read_from_clock(now));
    reported_ids_are_in_slot_order(old(queue).slots@, old(queue).timeout, now);
}

/// The next timeout is the earliest end of a wait: it is that of one packet, after that
/// of none, and absent only if no packet waits.
pub proof fn next_timeout_is_the_earliest(queue: PendingTxQueue, r: Option<Instant>, slot: int)
    requires
        timeouts_fit(queue.slots@, queue.timeout),
        call_ensures(PendingTxQueue::next_timeout_deadline, (&queue,), r),
        0 <= slot < 4,
    ensures
        r is Some ==> exists|i: int|
            0 <= i < 4 && #[trigger] queue.slots@[i] is Some && r->0.ticks
                == queue.slots@[i]->0.started.ticks + queue.timeout.ticks,
        queue.slots@[slot] is Some ==> r is Some && r->0.ticks
            <= queue.slots@[slot]->0.started.ticks + queue.timeout.ticks,
{
    let slots = queue.slots@;
    let deadlines = timeout_deadlines(slots, queue.timeout);
    earliest_is_the_minimum(deadlines);
    if r is Some {
        let i = choose|i: int| 0 <= i < deadlines.len() && deadlines[i] == r;
        assert(slots[i] is Some);
    }
    if slots[slot] is Some {
        assert(deadlines[slot] is Some);
    }
}

} // verus!
