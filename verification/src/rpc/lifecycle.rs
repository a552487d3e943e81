//! How a client connection ends.
//!
//! A connection serves until its RPC system stops or its last handle is gone. Where
//! it runs over the standard streams of a process that was spawned for it, the
//! process then gets a short grace period to exit, and is killed and reaped if it
//! does not.

use vstd::prelude::*;

verus! {

/// How long a spawned process may take to exit on its own, in milliseconds.
pub const EXIT_GRACE_MILLIS: u64 = 100;

/// Where a client connection stands, and with that what is to be done next.
#[derive(Debug, Clone, Copy, PartialEq, Eq, Structural)]
pub enum Stage {
    /// Serve. `child` tells whether a process was spawned for the connection.
    Serving { child: bool },
    /// Wait for the process to exit, for [`EXIT_GRACE_MILLIS`] at most.
    Leaving,
    /// Kill the process.
    Killing,
    /// Wait for the killed process to exit.
    Reaping,
    /// Nothing is left to do.
    Done,
}

/// What happens to a client connection.
#[derive(Debug, Clone, Copy, PartialEq, Eq, Structural)]
pub enum StageEvent {
    /// The RPC system stopped, or the last handle is gone.
    Served,
    /// Waiting for the process came to an end within the grace period.
    Exited,
    /// The grace period is over.
    GraceOver,
    /// The process was told to die.
    KillSent,
    /// Waiting for the killed process came to an end.
    Reaped,
}

/// The stage that follows a stage on an event. An event that the stage does not wait
/// for changes nothing.
pub open spec fn stage_after(stage: Stage, event: StageEvent) -> Stage {
    match (stage, event) {
        (Stage::Serving { child }, StageEvent::Served) => if child {
            Stage::Leaving
        } else {
            Stage::Done
        },
        (Stage::Leaving, StageEvent::Exited) => Stage::Done,
        (Stage::Leaving, StageEvent::GraceOver) => Stage::Killing,
        (Stage::Killing, StageEvent::KillSent) => Stage::Reaping,
        (Stage::Reaping, StageEvent::Reaped) => Stage::Done,
        _ => stage,
    }
}

/// Moves a connection to its next stage.
pub fn next_stage(stage: Stage, event: StageEvent) -> (next: Stage)
    ensures
        next == stage_after(stage, event),
{
    match (stage, event) {
        (Stage::Serving { child }, StageEvent::Served) => if child {
            Stage::Leaving
        } else {
            Stage::Done
        },
        (Stage::Leaving, StageEvent::Exited) => Stage::Done,
        (Stage::Leaving, StageEvent::GraceOver) => Stage::Killing,
        (Stage::Killing, StageEvent::KillSent) => Stage::Reaping,
        (Stage::Reaping, StageEvent::Reaped) => Stage::Done,
        _ => stage,
    }
}

/// The stage that a connection is in after the given events.
pub open spec fn stage_after_all(stage: Stage, events: Seq<StageEvent>) -> Stage
    decreases events.len(),
{
    if events.len() == 0 {
        stage
    } else {
        stage_after(stage_after_all(stage, events.drop_last()), events.last())
    }
}

/// Whether the given events occur in the given order, with any others in between.
pub open spec fn occur_in_order(wanted: Seq<StageEvent>, events: Seq<StageEvent>) -> bool
    decreases events.len(),
{
    if wanted.len() == 0 {
        true
    } else if events.len() == 0 {
        false
    } else {
        ||| occur_in_order(wanted, events.drop_last())
        ||| wanted.last() == events.last() && occur_in_order(
            wanted.drop_last(),
            events.drop_last(),
        )
    }
}

/// What a connection with a spawned process has gone through when it is in a stage.
pub open spec fn has_gone_through(stage: Stage, events: Seq<StageEvent>) -> bool {
    match stage {
        Stage::Serving { child } => child,
        Stage::Leaving => occur_in_order(seq![StageEvent::Served], events),
        Stage::Killing => occur_in_order(seq![StageEvent::Served, StageEvent::GraceOver], events),
        Stage::Reaping => occur_in_order(
            seq![StageEvent::Served, StageEvent::GraceOver, StageEvent::KillSent],
            events,
        ),
        Stage::Done => {
            ||| occur_in_order(seq![StageEvent::Served, StageEvent::Exited], events)
            ||| occur_in_order(
                seq![
                    StageEvent::Served,
                    StageEvent::GraceOver,
                    StageEvent::KillSent,
                    StageEvent::Reaped,
                ],
                events,
            )
        },
    }
}

/// A spawned process never outlives its connection unreaped: once nothing is left to
/// do, the connection has served, and after that the process has exited within the grace
/// period, or the grace period was over, the process was killed, and then reaped, in this
/// order. It is killed only when the grace period is over.
pub proof fn spawned_process_is_reaped(events: Seq<StageEvent>)
    ensures
        has_gone_through(stage_after_all(Stage::Serving { child: true }, events), events),
    decreases events.len(),
{
    if events.len() > 0 {
        let earlier = events.drop_last();
        spawned_process_is_reaped(earlier);
        let served = seq![StageEvent::Served];
        let overdue = served.push(StageEvent::GraceOver);
        let killed = overdue.push(StageEvent::KillSent);
        assert(seq![StageEvent::Served, StageEvent::GraceOver] =~= overdue);
        assert(seq![StageEvent::Served, StageEvent::GraceOver, StageEvent::KillSent] =~= killed);
        assert(seq![StageEvent::Served, StageEvent::Exited] =~= served.push(StageEvent::Exited));
        assert(seq![
            StageEvent::Served,
            StageEvent::GraceOver,
            StageEvent::KillSent,
            StageEvent::Reaped,
        ] =~= killed.push(StageEvent::Reaped));
        assert(served =~= Seq::<StageEvent>::empty().push(StageEvent::Served));
        another_event(Seq::empty(), events);
        another_event(served, events);
        another_event(overdue, events);
        another_event(killed, events);
        another_event(served.push(StageEvent::Exited), events);
        another_event(killed.push(StageEvent::Reaped), events);
    }
}

/// What occurred in order still did after another event, and that event may come last in the
/// order.
proof fn another_event(wanted: Seq<StageEvent>, events: Seq<StageEvent>)
    requires
        events.len() > 0,
    ensures
        occur_in_order(wanted, events.drop_last()) ==> {
            &&& occur_in_order(wanted, events)
            &&& occur_in_order(wanted.push(events.last()), events)
        },
        wanted.len() == 0 ==> occur_in_order(wanted, events.drop_last()),
{
    assert(wanted.push(events.last()).drop_last() =~= wanted);
}

/// What is done stays done, and a connection without a process is done as soon as it
/// has served.
pub proof fn done_is_final(stage: Stage, events: Seq<StageEvent>)
    ensures
        stage == Stage::Done ==> stage_after_all(stage, events) == Stage::Done,
        stage == (Stage::Serving { child: false }) ==> (stage_after_all(stage, events)
            == if events.contains(StageEvent::Served) {
            Stage::Done
        } else {
            stage
        }),
    decreases events.len(),
{
    if events.len() > 0 {
        let earlier = events.drop_last();
        done_is_final(stage, earlier);
        assert forall|event: StageEvent| #[trigger] events.contains(event) implies (
        earlier.contains(event) || event == events.last()) by {
            let i = choose|i: int| 0 <= i < events.len() && events[i] == event;
            if i < events.len() - 1 {
                assert(earlier[i] == event);
            }
        }
        assert forall|event: StageEvent| #[trigger] earlier.contains(event) implies events.contains(
            event,
        ) by {
            let i = choose|i: int| 0 <= i < earlier.len() && earlier[i] == event;
            assert(events[i] == event);
        }
        assert(events[events.len() - 1] == events.last());
    }
}

/// A client connection with its handles over time.
pub ghost struct Connection {
    /// How many handles there are: the first, and every channel that was built over the
    /// connection. Each holds the link, and no other thing does.
    pub handles: nat,
    /// Where the connection stands.
    pub stage: Stage,
    /// Whether the RPC system stopped while the connection served.
    pub rpc_stopped: bool,
    /// What happened to the connection itself, in order.
    pub events: Seq<StageEvent>,
}

/// What happens to a client connection and its handles.
pub ghost enum ConnectionEvent {
    /// A channel is built, which is another handle.
    Build,
    /// A handle is dropped.
    DropHandle,
    /// The connection learns that its link is gone.
    LinkGone,
    /// The RPC system stops.
    RpcStopped,
    /// Something happens to the spawned process.
    Process(StageEvent),
}

impl Connection {
    /// A connection with its first handle.
    pub open spec fn fresh(child: bool) -> Connection {
        Connection {
            handles: 1,
            stage: Stage::Serving { child },
            rpc_stopped: false,
            events: Seq::empty(),
        }
    }

    /// Lets something happen to the connection itself.
    pub open spec fn step(self, event: StageEvent) -> Connection {
        Connection {
            stage: stage_after(self.stage, event),
            events: self.events.push(event),
            ..self
        }
    }

    /// The connection after an event, or `None` where the event cannot happen: without a handle
    /// there is no link to build a channel on, and the link is gone only without a
    /// handle.
    pub open spec fn after(self, event: ConnectionEvent) -> Option<Connection> {
        match event {
            ConnectionEvent::Build => if self.handles > 0 {
                Some(Connection { handles: self.handles + 1, ..self })
            } else {
                None
            },
            ConnectionEvent::DropHandle => if self.handles > 0 {
                Some(Connection { handles: (self.handles - 1) as nat, ..self })
            } else {
                None
            },
            ConnectionEvent::LinkGone => if self.handles == 0 && self.stage is Serving {
                Some(self.step(StageEvent::Served))
            } else {
                None
            },
            ConnectionEvent::RpcStopped => if self.stage is Serving {
                Some((Connection { rpc_stopped: true, ..self }).step(StageEvent::Served))
            } else {
                None
            },
            ConnectionEvent::Process(event) => if event == StageEvent::Served {
                None
            } else {
                Some(self.step(event))
            },
        }
    }

    /// A new connection after the given events, or `None` where one of them cannot happen
    /// when its turn comes.
    pub open spec fn run(child: bool, events: Seq<ConnectionEvent>) -> Option<Connection>
        decreases events.len(),
    {
        if events.len() == 0 {
            Some(Connection::fresh(child))
        } else {
            match Connection::run(child, events.drop_last()) {
                Some(state) => state.after(events.last()),
                None => None,
            }
        }
    }
}

/// A connection remains alive until its last handle is dropped: unless the RPC system stops, it
/// serves as long as there is a handle, and dropping a builder while a channel that it built
/// is there ends nothing. A spawned process is left alone until then; after that it
/// gets its grace period, is killed only when that is over, and is reaped.
pub proof fn connection_lives_until_the_last_handle_is_dropped(
    child: bool,
    events: Seq<ConnectionEvent>,
)
    requires
        Connection::run(child, events) is Some,
    ensures
        ({
            let state = Connection::run(child, events)->0;
            &&& state.handles > 0 && !state.rpc_stopped ==> state.stage == Stage::Serving { child }
            &&& state.stage == stage_after_all(Stage::Serving { child }, state.events)
            &&& child ==> has_gone_through(state.stage, state.events)
        }),
    decreases events.len(),
{
    if events.len() > 0 {
        let earlier = events.drop_last();
        connection_lives_until_the_last_handle_is_dropped(child, earlier);
        let before = Connection::run(child, earlier)->0;
        let after = Connection::run(child, events)->0;
        if after.events.len() > before.events.len() {
            assert(after.events.drop_last() =~= before.events);
        }
    }
    let state = Connection::run(child, events)->0;
    if child {
        spawned_process_is_reaped(state.events);
    }
}

} // verus!
