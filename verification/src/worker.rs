//! The two worker loops, as the decisions they make once per tick. The
//! streaming writer sends one record per tick; the reconnect supervisor tries
//! one connect per tick. Neither ends by itself: a failed write or connect
//! is followed by the next tick, and only a cancellation stops the loop.

use crate::flipper_manager::{find_characteristic, FLIPPER_CHARACTERISTIC_UUID};
use vstd::prelude::*;

verus! {

/// Seconds between two records of a streaming writer.
pub const STREAM_INTERVAL_SECS: u64 = 1;

/// Seconds between two connect attempts of a reconnect supervisor.
pub const RECONNECT_INTERVAL_SECS: u64 = 5;

/// Which of the two loops a worker runs.
#[derive(Clone, Copy, Debug, PartialEq, Eq, Structural)]
pub enum WorkerKind {
    /// Samples, encodes and writes telemetry.
    Streaming,
    /// Tries to connect again.
    Reconnect,
}

/// What a worker does in one tick.
#[derive(Clone, Copy, Debug, PartialEq, Eq, Structural)]
pub enum Step {
    /// Do the tick's work, then wait for the interval.
    Work,
    /// Leave the loop.
    Stop,
}

/// One worker loop.
#[derive(Clone, Copy, Debug, PartialEq, Eq)]
pub struct Worker {
    kind: WorkerKind,
    stopped: bool,
}

/// A worker's state as mathematics.
pub struct WorkerState {
    /// Which loop it runs.
    pub kind: WorkerKind,
    /// Whether it has seen a cancellation.
    pub stopped: bool,
}

impl View for Worker {
    type V = WorkerState;

    closed spec fn view(&self) -> WorkerState {
        WorkerState { kind: self.kind, stopped: self.stopped }
    }
}

/// The step of a worker that has, or has not, seen a cancellation.
pub open spec fn step_of(stopped: bool) -> Step {
    if stopped {
        Step::Stop
    } else {
        Step::Work
    }
}

/// The steps of a worker that sees the cancellation flags `seen`, one per
/// tick, starting with `stopped`: it works until the first flag that is set.
pub open spec fn steps(stopped: bool, seen: Seq<bool>) -> Seq<Step>
    decreases seen.len(),
{
    if seen.len() == 0 {
        Seq::empty()
    } else {
        let halt = stopped || seen[0];
        seq![step_of(halt)] + steps(halt, seen.drop_first())
    }
}

/// A worker takes one step per tick; before the first cancellation it sees,
/// every step is work, whatever came of the work before; from that tick on,
/// every step is a stop: no write and no connect follows a cancellation that
/// the worker has seen.
pub proof fn lemma_cancel_is_final(seen: Seq<bool>, at: int)
    requires
        0 <= at < seen.len(),
    ensures
        steps(false, seen).len() == seen.len(),
        steps(false, seen)[at] == Step::Stop <==> exists|k: int| 0 <= k <= at && seen[k],
{
    lemma_steps(false, seen, at);
}

/// The general form of `lemma_cancel_is_final`, for a worker that may have
/// stopped before.
pub proof fn lemma_steps(stopped: bool, seen: Seq<bool>, at: int)
    requires
        0 <= at < seen.len(),
    ensures
        steps(stopped, seen).len() == seen.len(),
        steps(stopped, seen)[at] == Step::Stop <==> stopped || exists|k: int|
            0 <= k <= at && seen[k],
    decreases seen.len(),
{
    let halt = stopped || seen[0];
    let rest = seen.drop_first();
    lemma_steps_len(halt, rest);
    if at > 0 {
        lemma_steps(halt, rest, at - 1);
        if exists|k: int| 0 <= k <= at - 1 && rest[k] {
            let k = choose|k: int| 0 <= k <= at - 1 && rest[k];
            assert(seen[k + 1]);
        }
        if exists|k: int| 0 <= k <= at && seen[k] {
            let k = choose|k: int| 0 <= k <= at && seen[k];
            if k > 0 {
                assert(rest[k - 1]);
            }
        }
    }
}

/// There is one step for each tick.
pub proof fn lemma_steps_len(stopped: bool, seen: Seq<bool>)
    ensures
        steps(stopped, seen).len() == seen.len(),
    decreases seen.len(),
{
    if seen.len() > 0 {
        lemma_steps_len(stopped || seen[0], seen.drop_first());
    }
}

impl Worker {
    /// A worker that has not stopped.
    pub fn new(kind: WorkerKind) -> (worker: Worker)
        ensures
            worker@.kind == kind,
            !worker@.stopped,
    {
        Worker { kind, stopped: false }
    }

    /// A streaming writer for a peripheral that offers `offered`; none where
    /// the telemetry characteristic is not among them. With the writer comes
    /// the first position of that characteristic.
    pub fn streaming(offered: &Vec<u128>) -> (started: Option<(Worker, usize)>)
        ensures
            started is Some <==> offered@.contains(FLIPPER_CHARACTERISTIC_UUID),
            started matches Some((worker, at)) ==> {
                &&& worker@.kind == WorkerKind::Streaming
                &&& !worker@.stopped
                &&& at < offered.len()
                &&& offered[at as int] == FLIPPER_CHARACTERISTIC_UUID
                &&& forall|j: int| 0 <= j < at ==> offered[j] != FLIPPER_CHARACTERISTIC_UUID
            },
    {
        match find_characteristic(offered, FLIPPER_CHARACTERISTIC_UUID) {
            Some(at) => Some((Worker::new(WorkerKind::Streaming), at)),
            None => None,
        }
    }

    /// Which loop the worker runs.
    pub fn kind(&self) -> (kind: WorkerKind)
        ensures
            kind == self@.kind,
    {
        self.kind
    }

    /// Whether the worker has seen a cancellation.
    pub fn is_stopped(&self) -> (stopped: bool)
        ensures
            stopped == self@.stopped,
    {
        self.stopped
    }

    /// Seconds between two ticks: 1 for a streaming writer, 5 for a
    /// reconnect supervisor.
    pub fn interval_secs(&self) -> (secs: u64)
        ensures
            secs == match self@.kind {
                WorkerKind::Streaming => STREAM_INTERVAL_SECS,
                WorkerKind::Reconnect => RECONNECT_INTERVAL_SECS,
            },
    {
        match self.kind {
            WorkerKind::Streaming => STREAM_INTERVAL_SECS,
            WorkerKind::Reconnect => RECONNECT_INTERVAL_SECS,
        }
    }

    /// One tick: `cancelled` says whether a cancellation has been signalled.
    /// The worker stops at the first tick that sees one and stays stopped.
    pub fn tick(&mut self, cancelled: bool) -> (step: Step)
        ensures
            final(self)@.kind == old(self)@.kind,
            final(self)@.stopped == (old(self)@.stopped || cancelled),
            step == step_of(final(self)@.stopped),
            step == steps(old(self)@.stopped, seq![cancelled])[0],
    {
        if cancelled {
            self.stopped = true;
        }
        if self.stopped {
            Step::Stop
        } else {
            Step::Work
        }
    }
}

} // verus!
