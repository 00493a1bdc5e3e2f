//! Reception and transmission of CAN messages.
//!
//! The frame router classifies an inbound frame by its identifier, decodes it
//! and says which slot of the store takes the result. The ingress pump says
//! when the receiving task has to wait for the bus and when it may poll the
//! receive buffer without suspending. The egress publisher turns the record of
//! a slot into a payload.
//!
//! Nothing here waits, locks or logs: the task that owns the bus does, and
//! follows what these functions decide.

use vstd::prelude::*;
use crate::catalog::{declared_length, in_catalog};
use crate::eco_can::{lemma_packages, FDCANPack, RelayState};
use crate::fault::{DecodeFault, EncodeFault};
use crate::frame::{InboundFrame, OutboundFrame};
use crate::record::{decode_can_data, lemma_parse_record, parse_record, Record};
use crate::store::{slots_typed, Store};
use crate::wire::splice;

verus! {

/// Depth of the transmit buffer, in frames.
pub const TX_BUF_SIZE: usize = 1;

/// Depth of the receive buffer, in frames. One wake of the ingress pump polls
/// the buffer at most this many times.
pub const RX_BUF_SIZE: usize = 20;

/// How routing a frame ended.
#[derive(Clone, Copy, Debug, PartialEq, Eq, Structural)]
pub enum RouteOutcome {
    /// The payload was decoded; the slot of this identifier takes the record.
    Updated(u32),
    /// The catalog holds the identifier, but the payload did not decode; the
    /// slot keeps its last good value.
    Rejected(u32, DecodeFault),
    /// The catalog does not hold the identifier. This is the bus carrying
    /// traffic for other boards, not a fault.
    Unmatched(u32),
}

/// How loudly the outcome of a frame is to be reported.
#[derive(Clone, Copy, Debug, PartialEq, Eq, Structural)]
pub enum Severity {
    /// Nothing to report.
    Silent,
    /// Worth a debug trace at most.
    Trace,
    /// A malformed frame: to be logged as an error.
    Error,
    /// A board sent a value outside its contract: to be logged above an
    /// ordinary decode fault.
    Anomaly,
}

/// What the router decided about one frame.
#[derive(Clone, Copy, Debug, PartialEq, Eq, Structural)]
pub struct Routed {
    /// How routing ended.
    pub outcome: RouteOutcome,
    /// The record that the slot of its package takes, if the frame carried
    /// one.
    pub update: Option<Record>,
    /// How loudly to report the outcome.
    pub severity: Severity,
}

/// The outcome of routing a frame of identifier `id` and payload `payload`.
pub open spec fn route_outcome(id: u32, payload: Seq<u8>) -> RouteOutcome {
    match parse_record(id, payload) {
        Ok(Some(_)) => RouteOutcome::Updated(id),
        Ok(None) => RouteOutcome::Unmatched(id),
        Err(fault) => RouteOutcome::Rejected(id, fault),
    }
}

/// The record that routing a frame puts into the store, if any.
pub open spec fn route_update(id: u32, payload: Seq<u8>) -> Option<Record> {
    match parse_record(id, payload) {
        Ok(Some(record)) => Some(record),
        _ => None,
    }
}

/// The slots after routing a frame: the slot of the frame's package holds
/// the decoded record; after a rejected or unmatched frame every slot is as
/// before.
pub open spec fn route_slots(slots: Map<u32, Record>, id: u32, payload: Seq<u8>) -> Map<
    u32,
    Record,
> {
    match route_update(id, payload) {
        Some(record) => slots.insert(id, record),
        None => slots,
    }
}

/// How loudly an outcome is to be reported.
pub open spec fn severity_of(outcome: RouteOutcome) -> Severity {
    match outcome {
        RouteOutcome::Updated(_) => Severity::Silent,
        RouteOutcome::Unmatched(_) => Severity::Trace,
        RouteOutcome::Rejected(_, DecodeFault::TruncatedInput) => Severity::Error,
        RouteOutcome::Rejected(_, DecodeFault::InvalidEnumeratedValue) => Severity::Anomaly,
    }
}

/// What the router decides about a frame of identifier `id` and payload
/// `payload`.
pub open spec fn routed(id: u32, payload: Seq<u8>) -> Routed {
    Routed {
        outcome: route_outcome(id, payload),
        update: route_update(id, payload),
        severity: severity_of(route_outcome(id, payload)),
    }
}

impl RouteOutcome {
    /// How loudly the outcome is to be reported: an update not at all, an
    /// unmatched identifier as a trace, a truncated payload as an error, an
    /// invalid enumerated value as an anomaly.
    pub fn severity(&self) -> (s: Severity)
        ensures
            s == severity_of(*self),
    {
        match self {
            RouteOutcome::Updated(_) => Severity::Silent,
            RouteOutcome::Unmatched(_) => Severity::Trace,
            RouteOutcome::Rejected(_, fault) => match fault {
                DecodeFault::TruncatedInput => Severity::Error,
                DecodeFault::InvalidEnumeratedValue => Severity::Anomaly,
            },
        }
    }
}

/// Routes one frame without touching any state: classifies it, decodes it,
/// and says which record goes into the store and how to report the outcome.
pub fn process_rx_can_frame(rx_frame: &InboundFrame) -> (r: Routed)
    ensures
        r == routed(rx_frame.identifier(), rx_frame.payload()),
{
    let id = rx_frame.identifier();
    let (outcome, update) = match decode_can_data(id, rx_frame.data()) {
        Ok(Some(record)) => (RouteOutcome::Updated(id), Some(record)),
        Ok(None) => (RouteOutcome::Unmatched(id), None),
        Err(fault) => (RouteOutcome::Rejected(id, fault), None),
    };
    Routed { outcome, update, severity: outcome.severity() }
}

/// Routes one frame into `store`: on a decoded payload the slot of the
/// frame's package takes the record; otherwise the store stays as it was.
pub fn decode_can_frame(store: &mut Store, frame: &InboundFrame) -> (outcome: RouteOutcome)
    ensures
        outcome == route_outcome(frame.identifier(), frame.payload()),
        final(store)@ == route_slots(old(store)@, frame.identifier(), frame.payload()),
{
    let decision = process_rx_can_frame(frame);
    if let Some(record) = decision.update {
        proof {
            lemma_parse_record(frame.identifier(), frame.payload());
        }
        store.write(record);
    }
    decision.outcome
}

/// Encodes the record in the slot of `id` into the leading bytes of `tx_data`
/// and returns the length of the payload: the declared length of the package.
/// On a fault `tx_data` is left as it was.
pub fn encode_can_package(store: &Store, id: u32, tx_data: &mut [u8]) -> (r: Result<
    usize,
    EncodeFault,
>)
    ensures
        !in_catalog(id) ==> r == Err::<usize, EncodeFault>(EncodeFault::UnmatchedIdentifier)
            && final(tx_data)@ == old(tx_data)@,
        in_catalog(id) && old(tx_data)@.len() < declared_length(id)->Some_0.bytes() ==> r == Err::<
            usize,
            EncodeFault,
        >(EncodeFault::BufferTooSmall) && final(tx_data)@ == old(tx_data)@,
        in_catalog(id) && old(tx_data)@.len() >= declared_length(id)->Some_0.bytes() ==> r == Ok::<
            usize,
            EncodeFault,
        >(declared_length(id)->Some_0.bytes()) && final(tx_data)@ == splice(
            old(tx_data)@,
            0,
            store@[id].wire(),
        ),
{
    proof {
        store.lemma_slots_typed();
        lemma_packages();
    }
    match store.read(id) {
        Some(record) => record.encode(tx_data),
        None => Err(EncodeFault::UnmatchedIdentifier),
    }
}

/// The frame that carries the record in the slot of `id`, ready for the
/// driver, or `None` where the catalog holds no package of that identifier.
pub fn publish(store: &Store, id: u32) -> (r: Option<OutboundFrame>)
    ensures
        r is Some <==> in_catalog(id),
        r matches Some(frame) ==> frame.identifier() == id && frame.payload() == store@[id].wire(),
{
    let mut tx_data = [0u8; 64];
    let ghost blank = tx_data@;
    proof {
        if in_catalog(id) {
            store.lemma_slots_typed();
            store@[id].lemma_wire_length();
        }
    }
    match encode_can_package(store, id, &mut tx_data) {
        Ok(length) => {
            assert(splice(blank, 0, store@[id].wire()).subrange(0, length as int)
                =~= store@[id].wire());
            OutboundFrame::new(id, tx_data, length)
        },
        Err(_) => None,
    }
}

/// The time between two frames in milliseconds of a monotonic clock. Where
/// the clock was reset or wrapped, so that the later reading is the smaller,
/// the result is zero.
pub open spec fn spec_elapsed_millis(previous_ms: u64, now_ms: u64) -> u64 {
    if now_ms >= previous_ms {
        (now_ms - previous_ms) as u64
    } else {
        0
    }
}

/// The time between two frames in milliseconds of a monotonic clock. Where
/// the clock was reset or wrapped, so that the later reading is the smaller,
/// the result is zero.
#[verifier::when_used_as_spec(spec_elapsed_millis)]
pub fn elapsed_millis(previous_ms: u64, now_ms: u64) -> (delta: u64)
    ensures
        delta == spec_elapsed_millis(previous_ms, now_ms),
{
    if now_ms >= previous_ms {
        now_ms - previous_ms
    } else {
        0
    }
}

/// What the bus driver hands to the ingress pump.
#[derive(Clone, Copy, Debug)]
pub enum RxEvent<'a> {
    /// A frame, and the reading of a monotonic millisecond clock at its
    /// arrival.
    Frame(InboundFrame<'a>, u64),
    /// The hardware reported a frame with a parity or CRC error.
    BusFault,
    /// A poll found the receive buffer empty.
    Empty,
}

/// What the receiving task does next.
#[derive(Clone, Copy, Debug, PartialEq, Eq, Structural)]
pub enum PumpAction {
    /// Suspend until the driver has a frame.
    AwaitFrame,
    /// Ask the driver for a buffered frame, without suspending.
    PollFrame,
}

/// What one step of the pump decided.
#[derive(Clone, Copy, Debug, PartialEq, Eq, Structural)]
pub struct PumpReport {
    /// What the router decided, where the event was a frame.
    pub routed: Option<Routed>,
    /// The time since the previous frame, where there was one.
    pub elapsed_ms: Option<u64>,
    /// What the task does next.
    pub action: PumpAction,
}

/// The polls that are left in a drain after an event. The first frame after
/// a wait opens a drain of `RX_BUF_SIZE` polls; each poll that finds a frame,
/// sound or faulty, uses one up; an empty buffer ends the drain. A fault
/// while waiting opens none.
pub open spec fn budget_after(budget: nat, event: RxEvent) -> nat {
    if budget == 0 {
        match event {
            RxEvent::Frame(_, _) => RX_BUF_SIZE as nat,
            _ => 0,
        }
    } else {
        match event {
            RxEvent::Empty => 0,
            _ => (budget - 1) as nat,
        }
    }
}

/// The reading of the clock at the latest frame, after an event.
pub open spec fn last_rx_after(last_rx_ms: Option<u64>, event: RxEvent) -> Option<u64> {
    match event {
        RxEvent::Frame(_, now_ms) => Some(now_ms),
        _ => last_rx_ms,
    }
}

/// What the pump reports of an event.
pub open spec fn report_of(budget: nat, last_rx_ms: Option<u64>, event: RxEvent) -> PumpReport {
    PumpReport {
        routed: match event {
            RxEvent::Frame(frame, _) => Some(routed(frame.identifier(), frame.payload())),
            _ => None,
        },
        elapsed_ms: match (event, last_rx_ms) {
            (RxEvent::Frame(_, now_ms), Some(previous_ms)) => Some(
                elapsed_millis(previous_ms, now_ms),
            ),
            _ => None,
        },
        action: if budget_after(budget, event) == 0 {
            PumpAction::AwaitFrame
        } else {
            PumpAction::PollFrame
        },
    }
}

/// The ingress pump: the bookkeeping of the task that receives frames.
///
/// The task waits for a first frame, routes it, and then polls the receive
/// buffer without suspending, at most `RX_BUF_SIZE` times, until it is empty.
/// So a burst that arrived while the task was busy elsewhere is caught up
/// within one wake, and a saturated bus cannot keep the task from yielding.
#[derive(Clone, Copy, Debug)]
pub struct IngressPump {
    budget: usize,
    last_rx_ms: Option<u64>,
}

impl IngressPump {
    #[verifier::type_invariant]
    spec fn bounded(self) -> bool {
        self.budget <= RX_BUF_SIZE
    }

    /// The polls that are left in the current drain; zero while the pump
    /// waits.
    pub closed spec fn budget(&self) -> nat {
        self.budget as nat
    }

    /// The reading of the clock at the latest frame, if there was a frame.
    pub closed spec fn last_rx_ms(&self) -> Option<u64> {
        self.last_rx_ms
    }

    /// What the task does next.
    pub open spec fn spec_action(&self) -> PumpAction {
        if self.budget() == 0 {
            PumpAction::AwaitFrame
        } else {
            PumpAction::PollFrame
        }
    }

    /// A pump that waits for its first frame.
    pub fn new() -> (pump: IngressPump)
        ensures
            pump.budget() == 0,
            pump.last_rx_ms() is None,
    {
        IngressPump { budget: 0, last_rx_ms: None }
    }

    /// What the task does next: wait for the driver, or poll it.
    #[verifier::when_used_as_spec(spec_action)]
    pub fn action(&self) -> (next: PumpAction)
        ensures
            next == self.spec_action(),
    {
        if self.budget == 0 {
            PumpAction::AwaitFrame
        } else {
            PumpAction::PollFrame
        }
    }

    /// Takes what the driver handed over, routes it if it is a frame, and
    /// says what the task does next.
    pub fn step(&mut self, event: &RxEvent) -> (report: PumpReport)
        ensures
            final(self).budget() == budget_after(old(self).budget(), *event),
            final(self).last_rx_ms() == last_rx_after(old(self).last_rx_ms(), *event),
            final(self).budget() <= RX_BUF_SIZE,
            report == report_of(old(self).budget(), old(self).last_rx_ms(), *event),
            report.action == final(self).action(),
    {
        proof {
            use_type_invariant(&*self);
        }
        let waiting = self.budget == 0;
        match event {
            RxEvent::Frame(frame, now_ms) => {
                let elapsed_ms = match self.last_rx_ms {
                    Some(previous_ms) => Some(elapsed_millis(previous_ms, *now_ms)),
                    None => None,
                };
                let routed = process_rx_can_frame(frame);
                let budget = if waiting {
                    RX_BUF_SIZE
                } else {
                    self.budget - 1
                };
                *self = IngressPump { budget, last_rx_ms: Some(*now_ms) };
                PumpReport { routed: Some(routed), elapsed_ms, action: self.action() }
            },
            RxEvent::BusFault => {
                let budget = if waiting {
                    0
                } else {
                    self.budget - 1
                };
                *self = IngressPump { budget, last_rx_ms: self.last_rx_ms };
                PumpReport { routed: None, elapsed_ms: None, action: self.action() }
            },
            RxEvent::Empty => {
                *self = IngressPump { budget: 0, last_rx_ms: self.last_rx_ms };
                PumpReport { routed: None, elapsed_ms: None, action: PumpAction::AwaitFrame }
            },
        }
    }
}

impl Default for IngressPump {
    fn default() -> (pump: IngressPump)
        ensures
            pump.budget() == 0,
            pump.last_rx_ms() is None,
    {
        IngressPump::new()
    }
}

/// A frame whose payload is shorter than the declared length of its package
/// is rejected as truncated, and every slot stays as it was.
pub proof fn lemma_truncated_rejected(slots: Map<u32, Record>, id: u32, payload: Seq<u8>)
    requires
        in_catalog(id),
        payload.len() < declared_length(id)->Some_0.bytes(),
    ensures
        route_outcome(id, payload) == RouteOutcome::Rejected(id, DecodeFault::TruncatedInput),
        route_slots(slots, id, payload) == slots,
{
    lemma_parse_record(id, payload);
}

/// A frame whose identifier the catalog does not hold is unmatched, and
/// every slot stays as it was.
pub proof fn lemma_unmatched_ignored(slots: Map<u32, Record>, id: u32, payload: Seq<u8>)
    requires
        !in_catalog(id),
    ensures
        route_outcome(id, payload) == RouteOutcome::Unmatched(id),
        route_slots(slots, id, payload) == slots,
{
    lemma_parse_record(id, payload);
}

/// A frame of the relay state's identifier is accepted exactly when its
/// first byte is the pattern of a state, and then the slot holds that state.
/// An empty payload is truncated; any other byte is an invalid enumerated
/// value. After a rejection every slot is as before.
pub proof fn lemma_relay_state_patterns(slots: Map<u32, Record>, payload: Seq<u8>)
    ensures
        route_outcome(RelayState::FDCAN_ID, payload) == RouteOutcome::Updated(RelayState::FDCAN_ID)
            <==> payload.len() >= 1 && (payload[0] == 0x00 || payload[0] == 0x02 || payload[0]
            == 0x06 || payload[0] == 0x0D),
        route_outcome(RelayState::FDCAN_ID, payload) == RouteOutcome::Updated(RelayState::FDCAN_ID)
            ==> route_slots(slots, RelayState::FDCAN_ID, payload) == slots.insert(
            RelayState::FDCAN_ID,
            Record::RelayState(RelayState::spec_from_bits(payload[0])->Some_0),
        ),
        route_outcome(RelayState::FDCAN_ID, payload) == RouteOutcome::Rejected(
            RelayState::FDCAN_ID,
            DecodeFault::TruncatedInput,
        ) <==> payload.len() == 0,
        route_outcome(RelayState::FDCAN_ID, payload) == RouteOutcome::Rejected(
            RelayState::FDCAN_ID,
            DecodeFault::InvalidEnumeratedValue,
        ) <==> payload.len() >= 1 && !(payload[0] == 0x00 || payload[0] == 0x02 || payload[0]
            == 0x06 || payload[0] == 0x0D),
        route_outcome(RelayState::FDCAN_ID, payload) is Rejected ==> route_slots(
            slots,
            RelayState::FDCAN_ID,
            payload,
        ) == slots,
{
    lemma_packages();
    RelayState::lemma_patterns();
}

/// Routing the same frame twice leaves the slots as routing it once.
pub proof fn lemma_route_idempotent(slots: Map<u32, Record>, id: u32, payload: Seq<u8>)
    ensures
        route_slots(route_slots(slots, id, payload), id, payload) == route_slots(
            slots,
            id,
            payload,
        ),
{
    let once = route_slots(slots, id, payload);
    assert(route_slots(once, id, payload) =~= once);
}

/// Routing a frame touches at most the slot of the frame's identifier: every
/// other slot holds what it held, no slot appears or disappears, and every
/// slot still holds a record of its own package.
pub proof fn lemma_route_touches_one_slot(slots: Map<u32, Record>, id: u32, payload: Seq<u8>)
    requires
        slots_typed(slots),
    ensures
        slots_typed(route_slots(slots, id, payload)),
        forall|other: u32|
            other != id && slots.dom().contains(other) ==> #[trigger] route_slots(
                slots,
                id,
                payload,
            )[other] == slots[other],
{
    lemma_parse_record(id, payload);
}

/// A drain ends: the polls that are left never exceed `RX_BUF_SIZE`, and
/// every event during a drain leaves fewer than before. So the pump asks the
/// task to wait again after at most `RX_BUF_SIZE` polls.
pub proof fn lemma_drain_bounded(budget: nat, event: RxEvent)
    requires
        budget <= RX_BUF_SIZE,
    ensures
        budget_after(budget, event) <= RX_BUF_SIZE,
        budget > 0 ==> budget_after(budget, event) < budget,
{
}

/// Whether a pump with `budget` polls left comes to wait at some point while
/// it takes `events` one after the other.
pub open spec fn comes_to_wait(budget: nat, events: Seq<RxEvent>) -> bool
    decreases events.len(),
{
    budget == 0 || (events.len() > 0 && comes_to_wait(
        budget_after(budget, events[0]),
        events.skip(1),
    ))
}

/// However the bus behaves, a drain is over after as many events as it had
/// polls left: an empty buffer ends it at once, and a saturated bus uses the
/// polls up.
pub proof fn lemma_drain_terminates(budget: nat, events: Seq<RxEvent>)
    requires
        events.len() >= budget,
    ensures
        comes_to_wait(budget, events),
    decreases budget,
{
    if budget > 0 {
        lemma_drain_terminates(budget_after(budget, events[0]), events.skip(1));
    }
}

/// The polls that are left after the pump has taken `events` one after the
/// other.
pub open spec fn budget_run(budget: nat, events: Seq<RxEvent>) -> nat
    decreases events.len(),
{
    if events.len() == 0 {
        budget
    } else {
        budget_run(budget_after(budget, events[0]), events.skip(1))
    }
}

/// Frames that arrive during a drain use up one poll each.
proof fn lemma_frames_use_polls(budget: nat, frames: Seq<RxEvent>)
    requires
        budget > 0,
        frames.len() <= budget,
        forall|i: int| 0 <= i < frames.len() ==> frames[i] is Frame,
    ensures
        budget_run(budget, frames) == budget - frames.len(),
    decreases frames.len(),
{
    reveal_with_fuel(budget_run, 2);
    if frames.len() > 0 {
        let rest = frames.skip(1);
        assert(frames[0] is Frame);
        assert(budget_after(budget, frames[0]) == budget - 1);
        assert forall|i: int| 0 <= i < rest.len() implies rest[i] is Frame by {
            assert(rest[i] == frames[i + 1]);
        }
        if rest.len() > 0 {
            lemma_frames_use_polls((budget - 1) as nat, rest);
        }
    }
}

/// A burst is caught up within one wake: while a waiting pump takes a burst
/// of up to `RX_BUF_SIZE` frames, it never asks the task to wait; after the
/// burst it still polls.
pub proof fn lemma_burst_caught_up(burst: Seq<RxEvent>)
    requires
        1 <= burst.len() <= RX_BUF_SIZE,
        forall|i: int| 0 <= i < burst.len() ==> burst[i] is Frame,
    ensures
        forall|n: int|
            1 <= n <= burst.len() ==> #[trigger] budget_run(0, burst.take(n)) == RX_BUF_SIZE + 1
                - n,
        budget_run(0, burst) > 0,
{
    assert forall|n: int| 1 <= n <= burst.len() implies #[trigger] budget_run(0, burst.take(n))
        == RX_BUF_SIZE + 1 - n by {
        reveal_with_fuel(budget_run, 2);
        let taken = burst.take(n);
        let rest = taken.skip(1);
        assert(taken[0] == burst[0]);
        assert(budget_after(0, taken[0]) == RX_BUF_SIZE);
        assert forall|i: int| 0 <= i < rest.len() implies rest[i] is Frame by {
            assert(rest[i] == burst[i + 1]);
        }
        if rest.len() > 0 {
            lemma_frames_use_polls(RX_BUF_SIZE as nat, rest);
        }
    }
    assert(burst.take(burst.len() as int) =~= burst);
}

/// Within one slot the latest frame that decodes wins: of two frames of one
/// identifier the second overwrites what the first left, and a second frame
/// that does not decode leaves what the first left.
pub proof fn lemma_latest_wins(
    slots: Map<u32, Record>,
    id: u32,
    first: Seq<u8>,
    second: Seq<u8>,
)
    ensures
        route_update(id, second) is Some ==> route_slots(
            route_slots(slots, id, first),
            id,
            second,
        ) == route_slots(slots, id, second),
        route_update(id, second) is None ==> route_slots(
            route_slots(slots, id, first),
            id,
            second,
        ) == route_slots(slots, id, first),
{
    let after_first = route_slots(slots, id, first);
    if route_update(id, second) is Some {
        assert(route_slots(after_first, id, second) =~= route_slots(slots, id, second));
    }
}

/// Frames of different identifiers do not meet: in whichever order two such
/// frames are routed, the slots end up the same.
pub proof fn lemma_distinct_slots_commute(
    slots: Map<u32, Record>,
    id: u32,
    payload: Seq<u8>,
    other_id: u32,
    other_payload: Seq<u8>,
)
    requires
        id != other_id,
    ensures
        route_slots(route_slots(slots, id, payload), other_id, other_payload) == route_slots(
            route_slots(slots, other_id, other_payload),
            id,
            payload,
        ),
{
    let one_way = route_slots(route_slots(slots, id, payload), other_id, other_payload);
    let other_way = route_slots(route_slots(slots, other_id, other_payload), id, payload);
    assert(one_way =~= other_way);
}

/// A record that is encoded and sent comes back as itself: routing a frame
/// that carries the payload of `record` under its identifier updates the slot
/// of that identifier to `record`.
pub proof fn lemma_round_trip_routes(slots: Map<u32, Record>, record: Record, tail: Seq<u8>)
    ensures
        route_outcome(record.id(), record.wire() + tail) == RouteOutcome::Updated(record.id()),
        route_slots(slots, record.id(), record.wire() + tail) == slots.insert(
            record.id(),
            record,
        ),
{
    record.lemma_round_trip(tail);
}

} // verus!
