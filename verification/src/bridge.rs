//! The stream bridge: a relay of bytes, in both directions, between two
//! endpoints.
//!
//! A [`Pump`] carries one direction through a bounded buffer. The caller does
//! the reading and writing: it asks the pump what to do next, does it, and
//! reports what came of it. A [`Bridge`] is a pair of pumps with a policy that
//! says when the bridge is over.

use vstd::prelude::*;
use vstd::slice::slice_subrange;

verus! {

/// How far one direction has come.
#[derive(Debug, Clone, Copy, PartialEq, Eq, Structural)]
pub enum PumpPhase {
    /// Bytes may still flow.
    Running,
    /// The source has ended and everything read from it was delivered.
    Finished,
    /// Reading or writing failed.
    Failed,
}

/// What the caller does next for one direction.
#[derive(Debug, Clone, Copy, PartialEq, Eq, Structural)]
pub enum PumpAction {
    /// Read at most `max` bytes from the source.
    Read { max: usize },
    /// Write the `len` pending bytes, or a first part of them, to the sink.
    Write { len: usize },
    /// Nothing more: this direction is over.
    Done,
}

/// Something that happened to one direction.
pub enum PumpEvent {
    /// The source gave these bytes; none means that it has ended.
    Read(Seq<u8>),
    /// The sink took this many of the pending bytes.
    Written(nat),
    /// Reading or writing failed.
    Failed,
}

/// Mathematical value of a [`Pump`].
pub struct PumpModel {
    /// The bound on the pending bytes.
    pub capacity: nat,
    pub phase: PumpPhase,
    /// Every byte taken from the source so far, in order.
    pub consumed: Seq<u8>,
    /// Every byte handed to the sink so far, in order.
    pub delivered: Seq<u8>,
    /// The bytes taken from the source and not yet handed to the sink.
    pub pending: Seq<u8>,
}

/// One direction of a bridge.
pub struct Pump {
    buffer: Vec<u8>,
    start: usize,
    capacity: usize,
    phase: PumpPhase,
    copied: u64,
    consumed: Ghost<Seq<u8>>,
    delivered: Ghost<Seq<u8>>,
}

/// The count that stands for `len` bytes: `len` itself as far as it fits.
pub open spec fn counted(len: nat) -> u64 {
    if len <= u64::MAX {
        len as u64
    } else {
        u64::MAX
    }
}

impl PumpModel {
    /// A pump that has moved nothing yet.
    pub open spec fn start(capacity: nat) -> PumpModel {
        PumpModel {
            capacity,
            phase: PumpPhase::Running,
            consumed: Seq::empty(),
            delivered: Seq::empty(),
            pending: Seq::empty(),
        }
    }

    /// Nothing is lost, added or reordered: what was consumed is what was
    /// delivered followed by what is pending. The pending bytes stay within
    /// the capacity, and a finished pump has none.
    pub open spec fn wf(self) -> bool {
        &&& self.capacity > 0
        &&& self.pending.len() <= self.capacity
        &&& self.consumed == self.delivered + self.pending
        &&& (self.phase is Finished ==> self.pending.len() == 0)
    }

    /// Whether `event` can happen to a caller that does what the pump says.
    pub open spec fn accepts(self, event: PumpEvent) -> bool {
        self.phase is Running && match event {
            PumpEvent::Read(data) => self.pending.len() == 0 && data.len() <= self.capacity,
            PumpEvent::Written(count) => 0 < count <= self.pending.len(),
            PumpEvent::Failed => true,
        }
    }

    /// The pump after `event`. An event that the pump does not accept
    /// changes nothing.
    pub open spec fn step(self, event: PumpEvent) -> PumpModel {
        if !self.accepts(event) {
            self
        } else {
            match event {
                PumpEvent::Read(data) => if data.len() == 0 {
                    PumpModel { phase: PumpPhase::Finished, ..self }
                } else {
                    PumpModel { consumed: self.consumed + data, pending: data, ..self }
                },
                PumpEvent::Written(count) => PumpModel {
                    delivered: self.delivered + self.pending.take(count as int),
                    pending: self.pending.skip(count as int),
                    ..self
                },
                PumpEvent::Failed => PumpModel { phase: PumpPhase::Failed, ..self },
            }
        }
    }

    /// What the caller does next.
    pub open spec fn next_action(self) -> PumpAction {
        if !(self.phase is Running) {
            PumpAction::Done
        } else if self.pending.len() == 0 {
            PumpAction::Read { max: self.capacity as usize }
        } else {
            PumpAction::Write { len: self.pending.len() as usize }
        }
    }

    /// The pump after all of `events`, in their order.
    pub open spec fn run(self, events: Seq<PumpEvent>) -> PumpModel
        decreases events.len(),
    {
        if events.len() == 0 {
            self
        } else {
            self.run(events.drop_last()).step(events.last())
        }
    }

    /// Whether each of `events` is accepted when it happens.
    pub open spec fn run_accepts(self, events: Seq<PumpEvent>) -> bool
        decreases events.len(),
    {
        events.len() == 0 || (self.run_accepts(events.drop_last()) && self.run(
            events.drop_last(),
        ).accepts(events.last()))
    }
}

/// All bytes that the source gave in `events`, in order.
pub open spec fn payload(events: Seq<PumpEvent>) -> Seq<u8>
    decreases events.len(),
{
    if events.len() == 0 {
        Seq::empty()
    } else {
        match events.last() {
            PumpEvent::Read(data) => payload(events.drop_last()) + data,
            _ => payload(events.drop_last()),
        }
    }
}

impl View for Pump {
    type V = PumpModel;

    closed spec fn view(&self) -> PumpModel {
        PumpModel {
            capacity: self.capacity as nat,
            phase: self.phase,
            consumed: self.consumed@,
            delivered: self.delivered@,
            pending: self.buffer@.skip(self.start as int),
        }
    }
}

impl Pump {
    /// The invariant of a pump: its value is well formed.
    pub closed spec fn wf(&self) -> bool {
        &&& self.start <= self.buffer@.len()
        &&& self.copied == counted(self.delivered@.len())
        &&& self@.wf()
    }

    /// A well-formed pump has a well-formed value.
    pub proof fn lemma_wf(&self)
        requires
            self.wf(),
        ensures
            self@.wf(),
    {
    }

    /// A pump that holds at most `capacity` bytes at a time. A capacity of
    /// zero is raised to one.
    pub fn new(capacity: usize) -> (pump: Pump)
        ensures
            pump.wf(),
            pump@ == PumpModel::start(
                if capacity == 0 {
                    1
                } else {
                    capacity as nat
                },
            ),
    {
        let pump = Pump {
            buffer: Vec::new(),
            start: 0,
            capacity: if capacity == 0 {
                1
            } else {
                capacity
            },
            phase: PumpPhase::Running,
            copied: 0,
            consumed: Ghost(Seq::empty()),
            delivered: Ghost(Seq::empty()),
        };
        assert(pump@.pending =~= Seq::<u8>::empty());
        assert(pump@.consumed =~= pump@.delivered + pump@.pending);
        pump
    }

    /// What the caller does next.
    pub fn next(&self) -> (action: PumpAction)
        requires
            self.wf(),
        ensures
            action == self@.next_action(),
    {
        if !matches!(self.phase, PumpPhase::Running) {
            PumpAction::Done
        } else if self.start == self.buffer.len() {
            PumpAction::Read { max: self.capacity }
        } else {
            PumpAction::Write { len: self.buffer.len() - self.start }
        }
    }

    /// The bytes to write next.
    pub fn pending(&self) -> (bytes: &[u8])
        requires
            self.wf(),
        ensures
            bytes@ == self@.pending,
    {
        let bytes = slice_subrange(self.buffer.as_slice(), self.start, self.buffer.len());
        assert(bytes@ =~= self@.pending);
        bytes
    }

    /// How far this direction has come.
    pub fn phase(&self) -> (phase: PumpPhase)
        ensures
            phase == self@.phase,
    {
        self.phase
    }

    /// The number of bytes delivered so far, as far as it can be counted.
    pub fn copied(&self) -> (count: u64)
        requires
            self.wf(),
        ensures
            count == counted(self@.delivered.len()),
    {
        self.copied
    }

    /// The source gave `data`; no data means that it has ended. Returns
    /// whether the pump accepted the event.
    pub fn on_read(&mut self, data: &[u8]) -> (accepted: bool)
        requires
            old(self).wf(),
        ensures
            final(self).wf(),
            accepted == old(self)@.accepts(PumpEvent::Read(data@)),
            final(self)@ == old(self)@.step(PumpEvent::Read(data@)),
    {
        if !matches!(self.phase, PumpPhase::Running) || self.start < self.buffer.len()
            || data.len() > self.capacity {
            return false;
        }
        assert(self@.pending =~= Seq::<u8>::empty());
        if data.len() == 0 {
            self.phase = PumpPhase::Finished;
            return true;
        }
        self.buffer.clear();
        self.start = 0;
        self.buffer.extend_from_slice(data);
        self.consumed = Ghost(self.consumed@ + data@);
        assert(self.buffer@ =~= data@);
        assert(self@.pending =~= data@);
        assert(self@.consumed =~= self@.delivered + self@.pending);
        true
    }

    /// The sink took the first `count` of the pending bytes. Returns whether
    /// the pump accepted the event.
    pub fn on_written(&mut self, count: usize) -> (accepted: bool)
        requires
            old(self).wf(),
        ensures
            final(self).wf(),
            accepted == old(self)@.accepts(PumpEvent::Written(count as nat)),
            final(self)@ == old(self)@.step(PumpEvent::Written(count as nat)),
    {
        if !matches!(self.phase, PumpPhase::Running) || count == 0 || count > self.buffer.len()
            - self.start {
            return false;
        }
        let ghost taken = self@.pending.take(count as int);
        self.delivered = Ghost(self.delivered@ + taken);
        self.copied = if count as u64 > u64::MAX - self.copied {
            u64::MAX
        } else {
            self.copied + count as u64
        };
        self.start = self.start + count;
        assert(self@.pending =~= old(self)@.pending.skip(count as int));
        assert(self@.consumed =~= self@.delivered + self@.pending);
        true
    }

    /// Reading or writing failed. Returns whether the pump accepted the
    /// event.
    pub fn on_failed(&mut self) -> (accepted: bool)
        requires
            old(self).wf(),
        ensures
            final(self).wf(),
            accepted == old(self)@.accepts(PumpEvent::Failed),
            final(self)@ == old(self)@.step(PumpEvent::Failed),
    {
        if !matches!(self.phase, PumpPhase::Running) {
            return false;
        }
        self.phase = PumpPhase::Failed;
        true
    }
}

/// When a bridge is over.
#[derive(Debug, Clone, Copy, PartialEq, Eq, Structural)]
pub enum RelayPolicy {
    /// As soon as either direction ends; the other is abandoned.
    FirstWins,
    /// Only when both directions have ended.
    WaitBothHalfClose,
}

/// The state of a bridge.
#[derive(Debug, Clone, Copy, PartialEq, Eq, Structural)]
pub enum BridgeState {
    /// Both directions run.
    Active,
    /// One direction has ended or failed, and the other still runs.
    Closing,
    /// Both directions have ended, or what was left was abandoned.
    Closed,
}

/// One of the two directions of a bridge.
#[derive(Debug, Clone, Copy, PartialEq, Eq, Structural)]
pub enum Direction {
    /// From the local endpoint to the remote one.
    Outbound,
    /// From the remote endpoint to the local one.
    Inbound,
}

/// Mathematical value of a [`Bridge`].
pub struct BridgeModel {
    pub policy: RelayPolicy,
    pub outbound: PumpModel,
    pub inbound: PumpModel,
    /// Whether the bridge was cancelled from outside.
    pub cancelled: bool,
}

/// A relay between a local and a remote endpoint.
pub struct Bridge {
    policy: RelayPolicy,
    outbound: Pump,
    inbound: Pump,
    cancelled: bool,
}

impl BridgeModel {
    /// A bridge that has moved nothing yet.
    pub open spec fn start(policy: RelayPolicy, capacity: nat) -> BridgeModel {
        BridgeModel {
            policy,
            outbound: PumpModel::start(capacity),
            inbound: PumpModel::start(capacity),
            cancelled: false,
        }
    }

    /// Both directions are well formed.
    pub open spec fn wf(self) -> bool {
        self.outbound.wf() && self.inbound.wf()
    }

    /// The pump of one direction.
    pub open spec fn pump(self, direction: Direction) -> PumpModel {
        match direction {
            Direction::Outbound => self.outbound,
            Direction::Inbound => self.inbound,
        }
    }

    /// The state of the bridge under its policy.
    pub open spec fn state(self) -> BridgeState {
        let out_runs = self.outbound.phase is Running;
        let in_runs = self.inbound.phase is Running;
        if self.cancelled {
            BridgeState::Closed
        } else if out_runs && in_runs {
            BridgeState::Active
        } else if !out_runs && !in_runs {
            BridgeState::Closed
        } else {
            match self.policy {
                RelayPolicy::FirstWins => BridgeState::Closed,
                RelayPolicy::WaitBothHalfClose => BridgeState::Closing,
            }
        }
    }

    /// Whether `event` is accepted for `direction`: the bridge is not closed
    /// and the pump of that direction accepts it.
    pub open spec fn accepts(self, direction: Direction, event: PumpEvent) -> bool {
        !(self.state() is Closed) && self.pump(direction).accepts(event)
    }

    /// The bridge after `event` in `direction`. The other direction is left
    /// as it is, and a closed bridge does not change.
    pub open spec fn step(self, direction: Direction, event: PumpEvent) -> BridgeModel {
        if self.state() is Closed {
            self
        } else {
            match direction {
                Direction::Outbound => BridgeModel {
                    outbound: self.outbound.step(event),
                    ..self
                },
                Direction::Inbound => BridgeModel { inbound: self.inbound.step(event), ..self },
            }
        }
    }

    /// What the caller does next for `direction`.
    pub open spec fn next_action(self, direction: Direction) -> PumpAction {
        if self.state() is Closed {
            PumpAction::Done
        } else {
            self.pump(direction).next_action()
        }
    }

    /// The bridge after it was cancelled.
    pub open spec fn cancel(self) -> BridgeModel {
        BridgeModel { cancelled: true, ..self }
    }

    /// The bridge after all of `events`, in their order.
    pub open spec fn run(self, events: Seq<(Direction, PumpEvent)>) -> BridgeModel
        decreases events.len(),
    {
        if events.len() == 0 {
            self
        } else {
            self.run(events.drop_last()).step(events.last().0, events.last().1)
        }
    }

    /// Whether each of `events` is accepted when it happens.
    pub open spec fn run_accepts(self, events: Seq<(Direction, PumpEvent)>) -> bool
        decreases events.len(),
    {
        events.len() == 0 || (self.run_accepts(events.drop_last()) && self.run(
            events.drop_last(),
        ).accepts(events.last().0, events.last().1))
    }
}

/// All bytes that the source of `direction` gave in `events`, in order.
pub open spec fn direction_payload(
    events: Seq<(Direction, PumpEvent)>,
    direction: Direction,
) -> Seq<u8>
    decreases events.len(),
{
    if events.len() == 0 {
        Seq::empty()
    } else {
        match events.last() {
            (d, PumpEvent::Read(data)) => if d == direction {
                direction_payload(events.drop_last(), direction) + data
            } else {
                direction_payload(events.drop_last(), direction)
            },
            _ => direction_payload(events.drop_last(), direction),
        }
    }
}

impl View for Bridge {
    type V = BridgeModel;

    closed spec fn view(&self) -> BridgeModel {
        BridgeModel {
            policy: self.policy,
            outbound: self.outbound@,
            inbound: self.inbound@,
            cancelled: self.cancelled,
        }
    }
}

impl Bridge {
    /// The invariant of a bridge: both pumps are well formed.
    pub closed spec fn wf(&self) -> bool {
        self.outbound.wf() && self.inbound.wf()
    }

    /// A well-formed bridge has a well-formed value.
    pub proof fn lemma_wf(&self)
        requires
            self.wf(),
        ensures
            self@.wf(),
    {
        self.outbound.lemma_wf();
        self.inbound.lemma_wf();
    }

    /// A bridge under `policy` whose pumps hold at most `capacity` bytes
    /// each. A capacity of zero is raised to one.
    pub fn new(policy: RelayPolicy, capacity: usize) -> (bridge: Bridge)
        ensures
            bridge.wf(),
            bridge@ == BridgeModel::start(
                policy,
                if capacity == 0 {
                    1
                } else {
                    capacity as nat
                },
            ),
    {
        Bridge {
            policy,
            outbound: Pump::new(capacity),
            inbound: Pump::new(capacity),
            cancelled: false,
        }
    }

    /// The state of the bridge.
    pub fn state(&self) -> (state: BridgeState)
        ensures
            state == self@.state(),
    {
        let out_runs = matches!(self.outbound.phase(), PumpPhase::Running);
        let in_runs = matches!(self.inbound.phase(), PumpPhase::Running);
        if self.cancelled {
            BridgeState::Closed
        } else if out_runs && in_runs {
            BridgeState::Active
        } else if !out_runs && !in_runs {
            BridgeState::Closed
        } else {
            match self.policy {
                RelayPolicy::FirstWins => BridgeState::Closed,
                RelayPolicy::WaitBothHalfClose => BridgeState::Closing,
            }
        }
    }

    /// What the caller does next for `direction`.
    pub fn next(&self, direction: Direction) -> (action: PumpAction)
        requires
            self.wf(),
        ensures
            action == self@.next_action(direction),
    {
        if matches!(self.state(), BridgeState::Closed) {
            PumpAction::Done
        } else {
            match direction {
                Direction::Outbound => self.outbound.next(),
                Direction::Inbound => self.inbound.next(),
            }
        }
    }

    /// The bytes to write next in `direction`.
    pub fn pending(&self, direction: Direction) -> (bytes: &[u8])
        requires
            self.wf(),
        ensures
            bytes@ == self@.pump(direction).pending,
    {
        match direction {
            Direction::Outbound => self.outbound.pending(),
            Direction::Inbound => self.inbound.pending(),
        }
    }

    /// The number of bytes delivered so far in `direction`, as far as it
    /// can be counted.
    pub fn copied(&self, direction: Direction) -> (count: u64)
        requires
            self.wf(),
        ensures
            count == counted(self@.pump(direction).delivered.len()),
    {
        match direction {
            Direction::Outbound => self.outbound.copied(),
            Direction::Inbound => self.inbound.copied(),
        }
    }

    /// The source of `direction` gave `data`; no data means that it has
    /// ended. Returns whether the bridge accepted the event.
    pub fn on_read(&mut self, direction: Direction, data: &[u8]) -> (accepted: bool)
        requires
            old(self).wf(),
        ensures
            final(self).wf(),
            accepted == old(self)@.accepts(direction, PumpEvent::Read(data@)),
            final(self)@ == old(self)@.step(direction, PumpEvent::Read(data@)),
    {
        if matches!(self.state(), BridgeState::Closed) {
            return false;
        }
        match direction {
            Direction::Outbound => self.outbound.on_read(data),
            Direction::Inbound => self.inbound.on_read(data),
        }
    }

    /// The sink of `direction` took the first `count` of the pending bytes.
    /// Returns whether the bridge accepted the event.
    pub fn on_written(&mut self, direction: Direction, count: usize) -> (accepted: bool)
        requires
            old(self).wf(),
        ensures
            final(self).wf(),
            accepted == old(self)@.accepts(direction, PumpEvent::Written(count as nat)),
            final(self)@ == old(self)@.step(direction, PumpEvent::Written(count as nat)),
    {
        if matches!(self.state(), BridgeState::Closed) {
            return false;
        }
        match direction {
            Direction::Outbound => self.outbound.on_written(count),
            Direction::Inbound => self.inbound.on_written(count),
        }
    }

    /// Reading or writing failed in `direction`. Returns whether the bridge
    /// accepted the event.
    pub fn on_failed(&mut self, direction: Direction) -> (accepted: bool)
        requires
            old(self).wf(),
        ensures
            final(self).wf(),
            accepted == old(self)@.accepts(direction, PumpEvent::Failed),
            final(self)@ == old(self)@.step(direction, PumpEvent::Failed),
    {
        if matches!(self.state(), BridgeState::Closed) {
            return false;
        }
        match direction {
            Direction::Outbound => self.outbound.on_failed(),
            Direction::Inbound => self.inbound.on_failed(),
        }
    }

    /// Cancels the bridge: it is closed, and both directions are abandoned.
    pub fn cancel(&mut self)
        requires
            old(self).wf(),
        ensures
            final(self).wf(),
            final(self)@ == old(self)@.cancel(),
            final(self)@.state() is Closed,
    {
        self.cancelled = true;
    }
}

/// Every step keeps the pump well formed.
pub proof fn lemma_step_keeps_wf(pump: PumpModel, event: PumpEvent)
    requires
        pump.wf(),
    ensures
        pump.step(event).wf(),
{
    if pump.accepts(event) {
        match event {
            PumpEvent::Read(data) => {
                assert(pump.pending =~= Seq::<u8>::empty());
                assert(pump.consumed + data =~= pump.delivered + data);
            },
            PumpEvent::Written(count) => {
                assert(pump.delivered + pump.pending =~= (pump.delivered + pump.pending.take(
                    count as int,
                )) + pump.pending.skip(count as int));
            },
            PumpEvent::Failed => {},
        }
    }
}

/// What a pump delivers is what was sent through it, byte for byte: at every
/// moment the bytes delivered are the first of the bytes consumed, with
/// nothing doubled and nothing out of order, and once the pump has finished
/// they are all of them.
pub proof fn lemma_pump_delivers_exactly(capacity: nat, events: Seq<PumpEvent>)
    requires
        capacity > 0,
    ensures
        ({
            let end = PumpModel::start(capacity).run(events);
            &&& end.wf()
            &&& end.delivered.is_prefix_of(end.consumed)
            &&& (end.phase is Finished ==> end.delivered == end.consumed)
        }),
    decreases events.len(),
{
    let begin = PumpModel::start(capacity);
    if events.len() == 0 {
        assert(begin.consumed =~= begin.delivered + begin.pending);
    } else {
        lemma_pump_delivers_exactly(capacity, events.drop_last());
        lemma_step_keeps_wf(begin.run(events.drop_last()), events.last());
    }
    let end = begin.run(events);
    assert(end.delivered =~= end.consumed.subrange(0, end.delivered.len() as int));
    if end.phase is Finished {
        assert(end.delivered =~= end.consumed);
    }
}

/// Where the caller does what the pump says, what the pump has consumed is
/// the payload that the source gave, so a finished pump has delivered
/// exactly that payload.
pub proof fn lemma_pump_delivers_payload(capacity: nat, events: Seq<PumpEvent>)
    requires
        capacity > 0,
        PumpModel::start(capacity).run_accepts(events),
    ensures
        ({
            let end = PumpModel::start(capacity).run(events);
            &&& end.consumed == payload(events)
            &&& end.delivered.is_prefix_of(payload(events))
            &&& (end.phase is Finished ==> end.delivered == payload(events))
        }),
    decreases events.len(),
{
    let begin = PumpModel::start(capacity);
    lemma_pump_delivers_exactly(capacity, events);
    if events.len() > 0 {
        lemma_pump_delivers_payload(capacity, events.drop_last());
        let before = begin.run(events.drop_last());
        match events.last() {
            PumpEvent::Read(data) => {
                if data.len() == 0 {
                    assert(payload(events.drop_last()) + data =~= payload(events.drop_last()));
                }
            },
            _ => {},
        }
    }
}

/// What happens in one direction of a bridge leaves the other direction as
/// it was.
pub proof fn lemma_directions_are_separate(
    bridge: BridgeModel,
    direction: Direction,
    event: PumpEvent,
)
    ensures
        direction is Outbound ==> bridge.step(direction, event).inbound == bridge.inbound,
        direction is Inbound ==> bridge.step(direction, event).outbound == bridge.outbound,
        bridge.step(direction, event).policy == bridge.policy,
        bridge.step(direction, event).cancelled == bridge.cancelled,
{
}

/// A closed bridge stays closed and moves no more bytes.
pub proof fn lemma_closed_stays_closed(bridge: BridgeModel, direction: Direction, event: PumpEvent)
    requires
        bridge.state() is Closed,
    ensures
        bridge.step(direction, event) == bridge,
        bridge.next_action(direction) is Done,
{
}

/// Whatever happens on a bridge, and in whatever order, each direction
/// delivers the first of the bytes it consumed, with nothing doubled and
/// nothing out of order, and a direction that has finished has delivered
/// all of them.
pub proof fn lemma_bridge_delivers_exactly(
    policy: RelayPolicy,
    capacity: nat,
    events: Seq<(Direction, PumpEvent)>,
    direction: Direction,
)
    requires
        capacity > 0,
    ensures
        ({
            let end = BridgeModel::start(policy, capacity).run(events).pump(direction);
            &&& end.wf()
            &&& end.delivered.is_prefix_of(end.consumed)
            &&& (end.phase is Finished ==> end.delivered == end.consumed)
        }),
{
    let begin = PumpModel::start(capacity);
    assert(begin.consumed =~= begin.delivered + begin.pending);
    lemma_bridge_run_keeps_wf(BridgeModel::start(policy, capacity), events);
    let end = BridgeModel::start(policy, capacity).run(events).pump(direction);
    assert(end.delivered =~= end.consumed.subrange(0, end.delivered.len() as int));
    if end.phase is Finished {
        assert(end.delivered =~= end.consumed);
    }
}

/// Where the caller does what the bridge says, each direction has consumed
/// the payload that its own source gave, whatever happened in the other
/// direction in between. What the receiving side has got is the first of
/// that payload, and once the direction has finished, all of it.
pub proof fn lemma_bridge_delivers_payload(
    policy: RelayPolicy,
    capacity: nat,
    events: Seq<(Direction, PumpEvent)>,
    direction: Direction,
)
    requires
        capacity > 0,
        BridgeModel::start(policy, capacity).run_accepts(events),
    ensures
        ({
            let end = BridgeModel::start(policy, capacity).run(events).pump(direction);
            &&& end.consumed == direction_payload(events, direction)
            &&& end.delivered.is_prefix_of(direction_payload(events, direction))
            &&& (end.phase is Finished ==> end.delivered == direction_payload(events, direction))
        }),
    decreases events.len(),
{
    let begin = BridgeModel::start(policy, capacity);
    lemma_bridge_delivers_exactly(policy, capacity, events, direction);
    if events.len() > 0 {
        lemma_bridge_delivers_payload(policy, capacity, events.drop_last(), direction);
        match events.last() {
            (d, PumpEvent::Read(data)) => {
                if d == direction && data.len() == 0 {
                    assert(direction_payload(events.drop_last(), direction) + data
                        =~= direction_payload(events.drop_last(), direction));
                }
            },
            _ => {},
        }
    }
}

/// Every run keeps a bridge well formed.
pub proof fn lemma_bridge_run_keeps_wf(bridge: BridgeModel, events: Seq<(Direction, PumpEvent)>)
    requires
        bridge.wf(),
    ensures
        bridge.run(events).wf(),
    decreases events.len(),
{
    if events.len() > 0 {
        lemma_bridge_run_keeps_wf(bridge, events.drop_last());
        let before = bridge.run(events.drop_last());
        lemma_step_keeps_wf(before.outbound, events.last().1);
        lemma_step_keeps_wf(before.inbound, events.last().1);
    }
}

} // verus!
