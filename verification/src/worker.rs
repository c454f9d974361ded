//! The background worker of the diff panel, as a state machine.
//!
//! The worker sleeps until the repository reports a change, asks the panel to
//! plan a synchronisation round, awaits every load of that round in order,
//! registers each buffer that loaded, and sleeps again. It ends when the
//! update channel closes or when the panel is gone.

use vstd::prelude::*;

verus! {

/// Why the worker ended.
#[derive(Clone, Copy, Debug, PartialEq, Eq, Hash, Structural)]
pub enum WorkerExit {
    /// The update channel closed: a regular end.
    ChannelClosed,
    /// The panel was dropped while the worker needed it: an error.
    PanelDropped,
}

/// Where the worker stands.
#[derive(Clone, Copy, Debug, PartialEq, Eq, Hash, Structural)]
pub enum WorkerPhase {
    /// Waiting for the next update notification.
    AwaitingUpdate,
    /// Waiting for the panel to plan a round and to start its loads.
    Planning,
    /// Waiting for load number `next` of the `total` loads of this round.
    Loading { next: usize, total: usize },
    /// Waiting for the panel to register the buffer of load number `next`.
    Registering { next: usize, total: usize },
    /// The worker has ended.
    Finished { exit: WorkerExit },
}

/// What happened outside the worker.
#[derive(Clone, Copy, Debug, PartialEq, Eq, Hash, Structural)]
pub enum WorkerEvent {
    /// The update channel delivered a notification.
    UpdateNeeded,
    /// The update channel closed.
    ChannelClosed,
    /// The panel planned a round and started `loads` loads.
    Planned { loads: usize },
    /// The panel no longer exists.
    PanelDropped,
    /// The awaited load ended; `loaded` tells whether it produced a buffer.
    LoadFinished { loaded: bool },
    /// The panel registered the buffer of the load just awaited.
    Registered,
}

/// What the driver of the worker has to do next.
#[derive(Clone, Copy, Debug, PartialEq, Eq, Hash, Structural)]
pub enum WorkerAction {
    /// Wait for the update channel.
    AwaitUpdate,
    /// Ask the panel to plan a round and to start its loads.
    Plan,
    /// Await the load with this index.
    AwaitLoad { index: usize },
    /// Hand the buffer of the load with this index to the panel.
    Register { index: usize },
    /// Return from the worker.
    Stop { exit: WorkerExit },
}

impl WorkerPhase {
    /// While a round is in progress the current load is one of the round.
    pub open spec fn well_formed(self) -> bool {
        match self {
            WorkerPhase::Loading { next, total } => next < total,
            WorkerPhase::Registering { next, total } => next < total,
            _ => true,
        }
    }

    /// The action that the driver owes in this phase.
    pub open spec fn owed(self) -> WorkerAction {
        match self {
            WorkerPhase::AwaitingUpdate => WorkerAction::AwaitUpdate,
            WorkerPhase::Planning => WorkerAction::Plan,
            WorkerPhase::Loading { next, total } => WorkerAction::AwaitLoad { index: next },
            WorkerPhase::Registering { next, total } => WorkerAction::Register { index: next },
            WorkerPhase::Finished { exit } => WorkerAction::Stop { exit },
        }
    }

    /// The phase after load number `next` of `total` is dealt with: the next
    /// load of the round, or the wait for another update after the last one.
    pub open spec fn after_load(next: usize, total: usize) -> WorkerPhase {
        if next + 1 < total {
            WorkerPhase::Loading { next: (next + 1) as usize, total }
        } else {
            WorkerPhase::AwaitingUpdate
        }
    }

    /// The phase that follows `self` on `event`. An event that the phase does
    /// not wait for changes nothing.
    pub open spec fn on(self, event: WorkerEvent) -> WorkerPhase {
        match (self, event) {
            (WorkerPhase::AwaitingUpdate, WorkerEvent::UpdateNeeded) => WorkerPhase::Planning,
            (WorkerPhase::AwaitingUpdate, WorkerEvent::ChannelClosed) => WorkerPhase::Finished {
                exit: WorkerExit::ChannelClosed,
            },
            (WorkerPhase::Planning, WorkerEvent::Planned { loads }) => if loads > 0 {
                WorkerPhase::Loading { next: 0, total: loads }
            } else {
                WorkerPhase::AwaitingUpdate
            },
            (WorkerPhase::Planning, WorkerEvent::PanelDropped) => WorkerPhase::Finished {
                exit: WorkerExit::PanelDropped,
            },
            (WorkerPhase::Loading { next, total }, WorkerEvent::LoadFinished { loaded }) => if loaded {
                WorkerPhase::Registering { next, total }
            } else {
                WorkerPhase::after_load(next, total)
            },
            (WorkerPhase::Registering { next, total }, WorkerEvent::Registered) => {
                WorkerPhase::after_load(next, total)
            },
            (WorkerPhase::Registering { next, total }, WorkerEvent::PanelDropped) => {
                WorkerPhase::Finished { exit: WorkerExit::PanelDropped }
            },
            _ => self,
        }
    }

    /// The phase reached from `self` after the events of `events`, in order.
    pub open spec fn run(self, events: Seq<WorkerEvent>) -> WorkerPhase
        decreases events.len(),
    {
        if events.len() == 0 {
            self
        } else {
            self.run(events.drop_last()).on(events.last())
        }
    }

    /// Moves past load number `next` of `total`.
    fn advance(next: usize, total: usize) -> (phase: WorkerPhase)
        ensures
            phase == WorkerPhase::after_load(next, total),
    {
        if total > 0 && next < total - 1 {
            WorkerPhase::Loading { next: next + 1, total }
        } else {
            WorkerPhase::AwaitingUpdate
        }
    }

    /// Computes the phase that follows `self` on `event`.
    pub fn step(self, event: WorkerEvent) -> (following: WorkerPhase)
        ensures
            following == self.on(event),
            self.well_formed() ==> following.well_formed(),
    {
        match self {
            WorkerPhase::AwaitingUpdate => match event {
                WorkerEvent::UpdateNeeded => WorkerPhase::Planning,
                WorkerEvent::ChannelClosed => WorkerPhase::Finished {
                    exit: WorkerExit::ChannelClosed,
                },
                _ => self,
            },
            WorkerPhase::Planning => match event {
                WorkerEvent::Planned { loads } => if loads > 0 {
                    WorkerPhase::Loading { next: 0, total: loads }
                } else {
                    WorkerPhase::AwaitingUpdate
                },
                WorkerEvent::PanelDropped => WorkerPhase::Finished {
                    exit: WorkerExit::PanelDropped,
                },
                _ => self,
            },
            WorkerPhase::Loading { next, total } => match event {
                WorkerEvent::LoadFinished { loaded } => if loaded {
                    WorkerPhase::Registering { next, total }
                } else {
                    WorkerPhase::advance(next, total)
                },
                _ => self,
            },
            WorkerPhase::Registering { next, total } => match event {
                WorkerEvent::Registered => WorkerPhase::advance(next, total),
                WorkerEvent::PanelDropped => WorkerPhase::Finished {
                    exit: WorkerExit::PanelDropped,
                },
                _ => self,
            },
            WorkerPhase::Finished { exit } => self,
        }
    }

    /// Computes the action that the driver owes in this phase.
    pub fn action(self) -> (action: WorkerAction)
        ensures
            action == self.owed(),
    {
        match self {
            WorkerPhase::AwaitingUpdate => WorkerAction::AwaitUpdate,
            WorkerPhase::Planning => WorkerAction::Plan,
            WorkerPhase::Loading { next, total } => WorkerAction::AwaitLoad { index: next },
            WorkerPhase::Registering { next, total } => WorkerAction::Register { index: next },
            WorkerPhase::Finished { exit } => WorkerAction::Stop { exit },
        }
    }
}

/// The events that one load of a round produces: its end, and the
/// registration of its buffer where it loaded one.
pub open spec fn load_events(loaded: bool) -> Seq<WorkerEvent> {
    if loaded {
        seq![WorkerEvent::LoadFinished { loaded: true }, WorkerEvent::Registered]
    } else {
        seq![WorkerEvent::LoadFinished { loaded: false }]
    }
}

/// The events of the loads of a round, where `outcomes` tells for each load
/// in order whether it loaded a buffer.
pub open spec fn round_events(outcomes: Seq<bool>) -> Seq<WorkerEvent>
    decreases outcomes.len(),
{
    if outcomes.len() == 0 {
        Seq::empty()
    } else {
        round_events(outcomes.drop_last()) + load_events(outcomes.last())
    }
}

/// Running two lists of events one after the other is running their
/// concatenation.
pub proof fn lemma_run_concat(phase: WorkerPhase, first: Seq<WorkerEvent>, second: Seq<WorkerEvent>)
    ensures
        phase.run(first + second) == phase.run(first).run(second),
    decreases second.len(),
{
    if second.len() == 0 {
        assert(first + second =~= first);
    } else {
        lemma_run_concat(phase, first, second.drop_last());
        assert((first + second).drop_last() =~= first + second.drop_last());
        assert((first + second).last() == second.last());
    }
}

/// No event moves a well-formed phase to one that is not.
pub proof fn lemma_on_preserves_well_formed(phase: WorkerPhase, event: WorkerEvent)
    requires
        phase.well_formed(),
    ensures
        phase.on(event).well_formed(),
{
}

/// A worker that has ended stays ended, whatever happens.
pub proof fn lemma_finished_is_final(phase: WorkerPhase, events: Seq<WorkerEvent>)
    requires
        phase is Finished,
    ensures
        phase.run(events) == phase,
    decreases events.len(),
{
    if events.len() > 0 {
        lemma_finished_is_final(phase, events.drop_last());
    }
}

/// The worker ends only for one of two reasons: the update channel closed
/// while it waited for an update, or the panel was dropped while it waited
/// for the panel.
pub proof fn lemma_exit_reasons(phase: WorkerPhase, event: WorkerEvent)
    requires
        !(phase is Finished),
        phase.on(event) is Finished,
    ensures
        phase.on(event)->exit == WorkerExit::ChannelClosed <==> phase is AwaitingUpdate && event
            is ChannelClosed,
        phase.on(event)->exit == WorkerExit::PanelDropped <==> (phase is Planning || phase
            is Registering) && event is PanelDropped,
{
}

/// Every load of a round is awaited once and in order: after the events of
/// the first `outcomes.len()` loads of a round of `total` loads, the worker
/// waits for the next load of the round, and after the events of all of them
/// it waits for the next update.
pub proof fn lemma_round_awaits_each_load(total: usize, outcomes: Seq<bool>)
    requires
        outcomes.len() <= total,
    ensures
        WorkerPhase::Planning.on(WorkerEvent::Planned { loads: total }).run(round_events(outcomes))
            == if outcomes.len() < total {
            WorkerPhase::Loading { next: outcomes.len() as usize, total }
        } else {
            WorkerPhase::AwaitingUpdate
        },
    decreases outcomes.len(),
{
    let start = WorkerPhase::Planning.on(WorkerEvent::Planned { loads: total });
    if outcomes.len() == 0 {
    } else {
        let before = outcomes.drop_last();
        lemma_round_awaits_each_load(total, before);
        lemma_run_concat(start, round_events(before), load_events(outcomes.last()));
        let phase = start.run(round_events(before));
        assert(phase == WorkerPhase::Loading { next: before.len() as usize, total });
        let events = load_events(outcomes.last());
        if outcomes.last() {
            assert(events.drop_last() =~= seq![WorkerEvent::LoadFinished { loaded: true }]);
            assert(events.drop_last().drop_last() =~= Seq::<WorkerEvent>::empty());
            reveal_with_fuel(WorkerPhase::run, 3);
        } else {
            assert(events.drop_last() =~= Seq::<WorkerEvent>::empty());
            reveal_with_fuel(WorkerPhase::run, 2);
        }
    }
}

} // verus!
