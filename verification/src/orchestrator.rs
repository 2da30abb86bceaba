//! The connection orchestrator: which peripherals have a streaming writer,
//! which have a reconnect supervisor, and what each transport event makes of
//! that. Events are handled one at a time; the caller does what the returned
//! plan says.

use crate::flipper_manager::{find_characteristic, name_matches, passes, FLIPPER_CHARACTERISTIC_UUID};
use std::collections::HashSet;
use vstd::prelude::*;

verus! {

broadcast use vstd::std_specs::hash::group_hash_axioms;

/// What the transport reports of one peripheral.
#[derive(Clone, Debug, PartialEq, Eq)]
pub enum Event {
    /// The peripheral was seen advertising, under this name if it gave one.
    Discovered { id: u64, name: Option<String> },
    /// The link to the peripheral is up.
    Connected { id: u64 },
    /// The peripheral's characteristics were listed after a connect; the
    /// list is empty where listing them failed.
    Resolved { id: u64, characteristics: Vec<u128> },
    /// The link to the peripheral is down.
    Disconnected { id: u64 },
    /// Anything else; it changes nothing.
    Other,
}

/// What the caller is to do after an event, each for the event's peripheral.
#[derive(Clone, Copy, Debug, PartialEq, Eq)]
pub struct Plan {
    /// Ask the transport to connect.
    pub connect: bool,
    /// List the peripheral's characteristics and report them as `Resolved`.
    pub discover: bool,
    /// Start a streaming writer.
    pub start_writer: bool,
    /// Cancel the streaming writer.
    pub stop_writer: bool,
    /// Start a reconnect supervisor.
    pub start_supervisor: bool,
    /// Cancel the reconnect supervisor.
    pub stop_supervisor: bool,
}

/// The orchestrator's state as mathematics.
pub struct Tracking {
    /// The name filter.
    pub filter: Seq<char>,
    /// The peripherals with a streaming writer.
    pub streaming: Set<u64>,
    /// The peripherals with a reconnect supervisor.
    pub reconnecting: Set<u64>,
}

/// The plan that asks for nothing.
pub open spec fn idle() -> Plan {
    Plan {
        connect: false,
        discover: false,
        start_writer: false,
        stop_writer: false,
        start_supervisor: false,
        stop_supervisor: false,
    }
}

/// The peripheral that an event is about.
pub open spec fn subject(event: Event) -> Option<u64> {
    match event {
        Event::Discovered { id, .. } => Some(id),
        Event::Connected { id } => Some(id),
        Event::Resolved { id, .. } => Some(id),
        Event::Disconnected { id } => Some(id),
        Event::Other => None,
    }
}

/// What is to be done when `event` arrives in `state`.
///
/// Discovered: connect where the name passes the filter. Connected: list the
/// characteristics, unless a writer already streams. Resolved: unless a
/// writer already streams, start one where the telemetry characteristic is
/// offered, and cancel the supervisor if there is one. Disconnected: cancel
/// the writer if there is one, and start a supervisor unless there is one.
pub open spec fn plan_for(state: Tracking, event: Event) -> Plan {
    match event {
        Event::Discovered { id, name } => Plan {
            connect: name matches Some(n) && passes(state.filter, n@),
            ..idle()
        },
        Event::Connected { id } => Plan { discover: !state.streaming.contains(id), ..idle() },
        Event::Resolved { id, characteristics } => if state.streaming.contains(id) {
            idle()
        } else {
            Plan {
                start_writer: characteristics@.contains(FLIPPER_CHARACTERISTIC_UUID),
                stop_supervisor: state.reconnecting.contains(id),
                ..idle()
            }
        },
        Event::Disconnected { id } => Plan {
            stop_writer: state.streaming.contains(id),
            start_supervisor: !state.reconnecting.contains(id),
            ..idle()
        },
        Event::Other => idle(),
    }
}

/// The state after `event` was handled in `state`: the workers that the plan
/// starts are recorded, those that it cancels are forgotten.
pub open spec fn after(state: Tracking, event: Event) -> Tracking {
    let plan = plan_for(state, event);
    match subject(event) {
        Some(id) => Tracking {
            filter: state.filter,
            streaming: if plan.start_writer {
                state.streaming.insert(id)
            } else if plan.stop_writer {
                state.streaming.remove(id)
            } else {
                state.streaming
            },
            reconnecting: if plan.start_supervisor {
                state.reconnecting.insert(id)
            } else if plan.stop_supervisor {
                state.reconnecting.remove(id)
            } else {
                state.reconnecting
            },
        },
        None => state,
    }
}

impl Tracking {
    /// No peripheral has both a streaming writer and a reconnect supervisor.
    pub open spec fn exclusive(self) -> bool {
        self.streaming.disjoint(self.reconnecting)
    }
}

/// The state in which no peripheral is tracked.
pub open spec fn initial(filter: Seq<char>) -> Tracking {
    Tracking { filter, streaming: Set::empty(), reconnecting: Set::empty() }
}

/// The state after `events` were handled in their order, starting in `state`.
pub open spec fn run(state: Tracking, events: Seq<Event>) -> Tracking
    decreases events.len(),
{
    if events.len() == 0 {
        state
    } else {
        after(run(state, events.drop_last()), events.last())
    }
}

/// 1 for true, 0 for false.
pub open spec fn count(flag: bool) -> int {
    if flag {
        1
    } else {
        0
    }
}

/// How many streaming writers were started for `id`, less how many were
/// cancelled, while `events` were handled from `state` on.
pub open spec fn writers_gained(state: Tracking, events: Seq<Event>, id: u64) -> int
    decreases events.len(),
{
    if events.len() == 0 {
        0
    } else {
        let plan = plan_for(run(state, events.drop_last()), events.last());
        writers_gained(state, events.drop_last(), id) + if subject(events.last()) == Some(id) {
            count(plan.start_writer) - count(plan.stop_writer)
        } else {
            0
        }
    }
}

/// How many reconnect supervisors were started for `id`, less how many were
/// cancelled, while `events` were handled from `state` on.
pub open spec fn supervisors_gained(state: Tracking, events: Seq<Event>, id: u64) -> int
    decreases events.len(),
{
    if events.len() == 0 {
        0
    } else {
        let plan = plan_for(run(state, events.drop_last()), events.last());
        supervisors_gained(state, events.drop_last(), id) + if subject(events.last()) == Some(id) {
            count(plan.start_supervisor) - count(plan.stop_supervisor)
        } else {
            0
        }
    }
}

/// Handling an event never gives a peripheral both a writer and a
/// supervisor.
pub proof fn lemma_step_keeps_exclusive(state: Tracking, event: Event)
    requires
        state.exclusive(),
    ensures
        after(state, event).exclusive(),
{
}

/// After any events, from the start on, no peripheral has both a writer and
/// a supervisor.
pub proof fn lemma_run_keeps_exclusive(filter: Seq<char>, events: Seq<Event>)
    ensures
        run(initial(filter), events).exclusive(),
    decreases events.len(),
{
    if events.len() > 0 {
        lemma_run_keeps_exclusive(filter, events.drop_last());
        lemma_step_keeps_exclusive(run(initial(filter), events.drop_last()), events.last());
    }
}

/// The state's record of a peripheral's workers is the count of what the
/// plans started and cancelled: whatever the events and their order, the
/// writers that `id` had, and those gained since, are the one writer that the
/// state records, or none; and so for the supervisors.
pub proof fn lemma_workers_counted(state: Tracking, events: Seq<Event>, id: u64)
    ensures
        count(state.streaming.contains(id)) + writers_gained(state, events, id) == count(
            run(state, events).streaming.contains(id),
        ),
        count(state.reconnecting.contains(id)) + supervisors_gained(state, events, id) == count(
            run(state, events).reconnecting.contains(id),
        ),
    decreases events.len(),
{
    if events.len() > 0 {
        lemma_workers_counted(state, events.drop_last(), id);
    }
}

/// Whatever events arrive in whatever order, a peripheral never has more than
/// one streaming writer or more than one reconnect supervisor running, and
/// never one of each.
pub proof fn lemma_at_most_one_worker(filter: Seq<char>, events: Seq<Event>, id: u64)
    ensures
        0 <= writers_gained(initial(filter), events, id) <= 1,
        0 <= supervisors_gained(initial(filter), events, id) <= 1,
        writers_gained(initial(filter), events, id) + supervisors_gained(
            initial(filter),
            events,
            id,
        ) <= 1,
{
    lemma_workers_counted(initial(filter), events, id);
    lemma_run_keeps_exclusive(filter, events);
}

/// A second report of a connection changes nothing: while a writer streams
/// to a peripheral, `Connected` and `Resolved` for it ask for nothing and
/// leave the state as it is.
pub proof fn lemma_duplicate_connected_ignored(state: Tracking, id: u64, offered: Vec<u128>)
    requires
        state.streaming.contains(id),
    ensures
        plan_for(state, Event::Connected { id }) == idle(),
        after(state, Event::Connected { id }) == state,
        plan_for(state, Event::Resolved { id, characteristics: offered }) == idle(),
        after(state, Event::Resolved { id, characteristics: offered }) == state,
{
}

/// The connection orchestrator.
pub struct Orchestrator {
    filter: String,
    streaming: HashSet<u64>,
    reconnecting: HashSet<u64>,
}

impl View for Orchestrator {
    type V = Tracking;

    closed spec fn view(&self) -> Tracking {
        Tracking {
            filter: self.filter@,
            streaming: self.streaming@,
            reconnecting: self.reconnecting@,
        }
    }
}

impl Orchestrator {
    /// An orchestrator that tracks no peripheral yet.
    pub fn new(filter: String) -> (fresh: Orchestrator)
        ensures
            fresh@ == initial(filter@),
            fresh@.exclusive(),
    {
        Orchestrator { filter, streaming: HashSet::new(), reconnecting: HashSet::new() }
    }

    /// Whether the peripheral has a streaming writer.
    pub fn is_streaming(&self, id: u64) -> (yes: bool)
        ensures
            yes == self@.streaming.contains(id),
    {
        self.streaming.contains(&id)
    }

    /// Whether the peripheral has a reconnect supervisor.
    pub fn is_reconnecting(&self, id: u64) -> (yes: bool)
        ensures
            yes == self@.reconnecting.contains(id),
    {
        self.reconnecting.contains(&id)
    }

    /// Handles one event: updates the state and says what is to be done.
    pub fn handle(&mut self, event: &Event) -> (plan: Plan)
        ensures
            plan == plan_for(old(self)@, *event),
            final(self)@ == after(old(self)@, *event),
            old(self)@.exclusive() ==> final(self)@.exclusive(),
    {
        let mut plan = Plan {
            connect: false,
            discover: false,
            start_writer: false,
            stop_writer: false,
            start_supervisor: false,
            stop_supervisor: false,
        };
        match event {
            Event::Discovered { id, name } => {
                plan.connect = match name {
                    Some(n) => name_matches(self.filter.as_str(), n.as_str()),
                    None => false,
                };
            },
            Event::Connected { id } => {
                plan.discover = !self.streaming.contains(id);
            },
            Event::Resolved { id, characteristics } => {
                if !self.streaming.contains(id) {
                    let found = find_characteristic(characteristics, FLIPPER_CHARACTERISTIC_UUID);
                    if found.is_some() {
                        plan.start_writer = true;
                        self.streaming.insert(*id);
                    }
                    plan.stop_supervisor = self.reconnecting.remove(id);
                }
            },
            Event::Disconnected { id } => {
                plan.stop_writer = self.streaming.remove(id);
                plan.start_supervisor = self.reconnecting.insert(*id);
            },
            Event::Other => {},
        }
        proof {
            let before = old(self)@;
            let now = self@;
            let wanted = after(before, *event);
            assert(now.streaming =~= wanted.streaming);
            assert(now.reconnecting =~= wanted.reconnecting);
        }
        plan
    }
}

} // verus!
