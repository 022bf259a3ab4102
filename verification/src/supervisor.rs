//! The supervisor: owner of every bridge that runs under one endpoint.
//!
//! Each bridge is reached by the number it got when it was opened, and
//! belongs to the connection it was opened under. What happens to one bridge
//! never touches another. Closing a connection closes the bridges under it,
//! and a shutdown closes all of them, so that none is left behind.

use vstd::prelude::*;
use crate::bridge::{
    counted, Bridge, BridgeModel, BridgeState, Direction, PumpAction, PumpEvent, RelayPolicy,
};

verus! {

/// The bridges of one endpoint.
pub struct Supervisor {
    bridges: Vec<Bridge>,
    owners: Vec<u64>,
}

/// Something that happened to the bridge with number `id`.
pub struct BridgeEvent {
    pub id: int,
    pub direction: Direction,
    pub event: PumpEvent,
}

/// The bridges after `event` in `direction` on the bridge with number `id`.
/// A number that no bridge has changes nothing.
pub open spec fn supervised_step(
    bridges: Seq<BridgeModel>,
    id: int,
    direction: Direction,
    event: PumpEvent,
) -> Seq<BridgeModel> {
    if 0 <= id < bridges.len() {
        bridges.update(id, bridges[id].step(direction, event))
    } else {
        bridges
    }
}

/// The bridges after all of `events`, in their order.
pub open spec fn supervised_run(bridges: Seq<BridgeModel>, events: Seq<BridgeEvent>) -> Seq<
    BridgeModel,
>
    decreases events.len(),
{
    if events.len() == 0 {
        bridges
    } else {
        supervised_step(
            supervised_run(bridges, events.drop_last()),
            events.last().id,
            events.last().direction,
            events.last().event,
        )
    }
}

/// Those of `events` that concern the bridge with number `id`, in their
/// order.
pub open spec fn events_of(events: Seq<BridgeEvent>, id: int) -> Seq<(Direction, PumpEvent)>
    decreases events.len(),
{
    if events.len() == 0 {
        Seq::empty()
    } else if events.last().id == id {
        events_of(events.drop_last(), id).push((events.last().direction, events.last().event))
    } else {
        events_of(events.drop_last(), id)
    }
}

/// The bridges after each of them was cancelled.
pub open spec fn all_cancelled(bridges: Seq<BridgeModel>) -> Seq<BridgeModel> {
    Seq::new(bridges.len(), |i: int| bridges[i].cancel())
}

/// The bridges after each of them that belongs to the connection `owner`
/// was cancelled; `owners` names the connection of each bridge.
pub open spec fn owner_cancelled(bridges: Seq<BridgeModel>, owners: Seq<u64>, owner: u64) -> Seq<
    BridgeModel,
> {
    Seq::new(
        bridges.len(),
        |i: int|
            if owners[i] == owner {
                bridges[i].cancel()
            } else {
                bridges[i]
            },
    )
}

impl View for Supervisor {
    type V = Seq<BridgeModel>;

    closed spec fn view(&self) -> Seq<BridgeModel> {
        Seq::new(self.bridges@.len(), |i: int| self.bridges@[i]@)
    }
}

impl Supervisor {
    /// The invariant of a supervisor: each of its bridges is well formed
    /// and has an owner.
    pub closed spec fn wf(&self) -> bool {
        &&& self.owners@.len() == self.bridges@.len()
        &&& forall|i: int| 0 <= i < self.bridges@.len() ==> (#[trigger] self.bridges@[i]).wf()
    }

    /// The connection that each bridge belongs to, by the bridge's number.
    pub closed spec fn owners(&self) -> Seq<u64> {
        self.owners@
    }

    /// Each bridge of a well-formed supervisor has an owner.
    pub proof fn lemma_owners(&self)
        requires
            self.wf(),
        ensures
            self.owners().len() == self@.len(),
    {
    }

    /// Each bridge of a well-formed supervisor has a well-formed value.
    pub proof fn lemma_wf(&self, id: int)
        requires
            self.wf(),
            0 <= id < self@.len(),
        ensures
            self@[id].wf(),
    {
        self.bridges@[id].lemma_wf();
    }

    /// A supervisor without bridges.
    pub fn new() -> (supervisor: Supervisor)
        ensures
            supervisor.wf(),
            supervisor@ == Seq::<BridgeModel>::empty(),
            supervisor.owners() == Seq::<u64>::empty(),
    {
        let supervisor = Supervisor { bridges: Vec::new(), owners: Vec::new() };
        assert(supervisor@ =~= Seq::<BridgeModel>::empty());
        supervisor
    }

    /// The number of bridges opened so far.
    pub fn len(&self) -> (count: usize)
        ensures
            count == self@.len(),
    {
        self.bridges.len()
    }

    /// Opens a bridge under the connection `owner` and returns its number.
    /// A capacity of zero is raised to one.
    pub fn open(&mut self, owner: u64, policy: RelayPolicy, capacity: usize) -> (id: usize)
        requires
            old(self).wf(),
        ensures
            final(self).wf(),
            id == old(self)@.len(),
            final(self).owners() == old(self).owners().push(owner),
            final(self)@ == old(self)@.push(
                BridgeModel::start(
                    policy,
                    if capacity == 0 {
                        1
                    } else {
                        capacity as nat
                    },
                ),
            ),
    {
        let id = self.bridges.len();
        self.bridges.push(Bridge::new(policy, capacity));
        self.owners.push(owner);
        assert(self@ =~= old(self)@.push(
            BridgeModel::start(
                policy,
                if capacity == 0 {
                    1
                } else {
                    capacity as nat
                },
            ),
        ));
        id
    }

    /// The connection that the bridge with number `id` belongs to, if there
    /// is such a bridge.
    pub fn owner(&self, id: usize) -> (owner: Option<u64>)
        requires
            self.wf(),
        ensures
            owner == if id < self@.len() {
                Some(self.owners()[id as int])
            } else {
                None
            },
    {
        if id < self.owners.len() {
            Some(self.owners[id])
        } else {
            None
        }
    }

    /// The state of the bridge with number `id`, if there is one.
    pub fn state(&self, id: usize) -> (state: Option<BridgeState>)
        ensures
            state == if id < self@.len() {
                Some(self@[id as int].state())
            } else {
                None
            },
    {
        if id < self.bridges.len() {
            Some(self.bridges[id].state())
        } else {
            None
        }
    }

    /// What the caller does next for one direction of the bridge with number
    /// `id`. Where there is no such bridge, nothing.
    pub fn next(&self, id: usize, direction: Direction) -> (action: PumpAction)
        requires
            self.wf(),
        ensures
            action == if id < self@.len() {
                self@[id as int].next_action(direction)
            } else {
                PumpAction::Done
            },
    {
        if id < self.bridges.len() {
            self.bridges[id].next(direction)
        } else {
            PumpAction::Done
        }
    }

    /// The bytes to write next in one direction of the bridge with number
    /// `id`, if there is such a bridge.
    pub fn pending(&self, id: usize, direction: Direction) -> (bytes: Option<&[u8]>)
        requires
            self.wf(),
        ensures
            match bytes {
                Some(bytes) => id < self@.len() && bytes@ == self@[id as int].pump(
                    direction,
                ).pending,
                None => id >= self@.len(),
            },
    {
        if id < self.bridges.len() {
            Some(self.bridges[id].pending(direction))
        } else {
            None
        }
    }

    /// The number of bytes delivered so far in one direction of the bridge
    /// with number `id`, if there is such a bridge.
    pub fn copied(&self, id: usize, direction: Direction) -> (count: Option<u64>)
        requires
            self.wf(),
        ensures
            count == if id < self@.len() {
                Some(counted(self@[id as int].pump(direction).delivered.len()))
            } else {
                None
            },
    {
        if id < self.bridges.len() {
            Some(self.bridges[id].copied(direction))
        } else {
            None
        }
    }

    /// The source of one direction of the bridge with number `id` gave
    /// `data`. Returns whether the bridge accepted the event. No other bridge
    /// changes.
    pub fn on_read(&mut self, id: usize, direction: Direction, data: &[u8]) -> (accepted: bool)
        requires
            old(self).wf(),
        ensures
            final(self).wf(),
            final(self).owners() == old(self).owners(),
            accepted == (id < old(self)@.len() && old(self)@[id as int].accepts(
                direction,
                PumpEvent::Read(data@),
            )),
            final(self)@ == supervised_step(
                old(self)@,
                id as int,
                direction,
                PumpEvent::Read(data@),
            ),
    {
        if id >= self.bridges.len() {
            return false;
        }
        let accepted = self.bridges[id].on_read(direction, data);
        assert(self@ =~= supervised_step(
            old(self)@,
            id as int,
            direction,
            PumpEvent::Read(data@),
        ));
        accepted
    }

    /// The sink of one direction of the bridge with number `id` took the
    /// first `count` of the pending bytes. Returns whether the bridge
    /// accepted the event. No other bridge changes.
    pub fn on_written(&mut self, id: usize, direction: Direction, count: usize) -> (accepted: bool)
        requires
            old(self).wf(),
        ensures
            final(self).wf(),
            final(self).owners() == old(self).owners(),
            accepted == (id < old(self)@.len() && old(self)@[id as int].accepts(
                direction,
                PumpEvent::Written(count as nat),
            )),
            final(self)@ == supervised_step(
                old(self)@,
                id as int,
                direction,
                PumpEvent::Written(count as nat),
            ),
    {
        if id >= self.bridges.len() {
            return false;
        }
        let accepted = self.bridges[id].on_written(direction, count);
        assert(self@ =~= supervised_step(
            old(self)@,
            id as int,
            direction,
            PumpEvent::Written(count as nat),
        ));
        accepted
    }

    /// Reading or writing failed in one direction of the bridge with number
    /// `id`. Returns whether the bridge accepted the event. No other bridge
    /// changes.
    pub fn on_failed(&mut self, id: usize, direction: Direction) -> (accepted: bool)
        requires
            old(self).wf(),
        ensures
            final(self).wf(),
            final(self).owners() == old(self).owners(),
            accepted == (id < old(self)@.len() && old(self)@[id as int].accepts(
                direction,
                PumpEvent::Failed,
            )),
            final(self)@ == supervised_step(old(self)@, id as int, direction, PumpEvent::Failed),
    {
        if id >= self.bridges.len() {
            return false;
        }
        let accepted = self.bridges[id].on_failed(direction);
        assert(self@ =~= supervised_step(old(self)@, id as int, direction, PumpEvent::Failed));
        accepted
    }

    /// Cancels the bridge with number `id`, if there is one. No other bridge
    /// changes.
    pub fn cancel(&mut self, id: usize) -> (found: bool)
        requires
            old(self).wf(),
        ensures
            final(self).wf(),
            final(self).owners() == old(self).owners(),
            found == (id < old(self)@.len()),
            final(self)@ == if id < old(self)@.len() {
                old(self)@.update(id as int, old(self)@[id as int].cancel())
            } else {
                old(self)@
            },
    {
        if id >= self.bridges.len() {
            return false;
        }
        self.bridges[id].cancel();
        assert(self@ =~= old(self)@.update(id as int, old(self)@[id as int].cancel()));
        true
    }

    /// Cancels every bridge that belongs to the connection `owner`: once a
    /// connection is closed, each bridge under it is closed, and no other
    /// bridge changes.
    pub fn close_connection(&mut self, owner: u64)
        requires
            old(self).wf(),
        ensures
            final(self).wf(),
            final(self).owners() == old(self).owners(),
            final(self)@ == owner_cancelled(old(self)@, old(self).owners(), owner),
            forall|i: int|
                0 <= i < final(self)@.len() && final(self).owners()[i] == owner ==> (
                #[trigger] final(self)@[i]).state() is Closed,
    {
        let mut i: usize = 0;
        while i < self.bridges.len()
            invariant
                self.wf(),
                i <= self@.len(),
                self@.len() == old(self)@.len(),
                self.owners() == old(self).owners(),
                forall|j: int|
                    0 <= j < i ==> self@[j] == if old(self).owners()[j] == owner {
                        old(self)@[j].cancel()
                    } else {
                        old(self)@[j]
                    },
                forall|j: int| i <= j < self@.len() ==> self@[j] == old(self)@[j],
            decreases self@.len() - i,
        {
            if self.owners[i] == owner {
                self.cancel(i);
            }
            i += 1;
        }
        assert(self@ =~= owner_cancelled(old(self)@, old(self).owners(), owner));
    }

    /// Cancels every bridge: after a shutdown each one is closed.
    pub fn shutdown(&mut self)
        requires
            old(self).wf(),
        ensures
            final(self).wf(),
            final(self).owners() == old(self).owners(),
            final(self)@ == all_cancelled(old(self)@),
            forall|i: int| 0 <= i < final(self)@.len() ==> (#[trigger] final(self)@[i]).state()
                is Closed,
    {
        let mut i: usize = 0;
        while i < self.bridges.len()
            invariant
                self.wf(),
                i <= self@.len(),
                self@.len() == old(self)@.len(),
                self.owners() == old(self).owners(),
                forall|j: int| 0 <= j < i ==> self@[j] == old(self)@[j].cancel(),
                forall|j: int| i <= j < self@.len() ==> self@[j] == old(self)@[j],
            decreases self@.len() - i,
        {
            self.cancel(i);
            i += 1;
        }
        assert(self@ =~= all_cancelled(old(self)@));
    }

    /// Whether every bridge is closed.
    pub fn all_closed(&self) -> (closed: bool)
        ensures
            closed == forall|i: int| 0 <= i < self@.len() ==> (#[trigger] self@[i]).state()
                is Closed,
    {
        let mut i: usize = 0;
        while i < self.bridges.len()
            invariant
                i <= self@.len(),
                self@.len() == self.bridges@.len(),
                forall|j: int| 0 <= j < i ==> (#[trigger] self@[j]).state() is Closed,
            decreases self@.len() - i,
        {
            if !matches!(self.bridges[i].state(), BridgeState::Closed) {
                assert(!(self@[i as int].state() is Closed));
                return false;
            }
            i += 1;
        }
        true
    }
}

/// A step keeps the number of bridges and touches none but the one it
/// names.
pub proof fn lemma_step_touches_one(
    bridges: Seq<BridgeModel>,
    id: int,
    direction: Direction,
    event: PumpEvent,
    other: int,
)
    requires
        other != id,
        0 <= other < bridges.len(),
    ensures
        supervised_step(bridges, id, direction, event).len() == bridges.len(),
        supervised_step(bridges, id, direction, event)[other] == bridges[other],
{
}

/// Bridges are independent: however the events of many bridges are mixed,
/// each bridge ends as if it had seen its own events alone. What is written
/// on one connection is therefore never delivered on another.
pub proof fn lemma_bridges_are_independent(
    bridges: Seq<BridgeModel>,
    events: Seq<BridgeEvent>,
    id: int,
)
    requires
        0 <= id < bridges.len(),
    ensures
        supervised_run(bridges, events).len() == bridges.len(),
        supervised_run(bridges, events)[id] == bridges[id].run(events_of(events, id)),
    decreases events.len(),
{
    if events.len() > 0 {
        lemma_bridges_are_independent(bridges, events.drop_last(), id);
        let last = events.last();
        if last.id == id {
            let own = events_of(events.drop_last(), id);
            let all = own.push((last.direction, last.event));
            assert(all.drop_last() =~= own);
            assert(all.last() == (last.direction, last.event));
        }
    }
}

} // verus!
