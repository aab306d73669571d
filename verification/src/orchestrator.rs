//! The upload orchestrator's decision core: a state machine that admits
//! batch-write tasks into a bounded concurrency window, drains the window
//! at end-of-data, and treats a failed batch write exactly like a
//! completed one — the slot frees, the run goes on.

use vstd::prelude::*;

verus! {

/// The phase of one run.
#[derive(Clone, Copy, Debug, PartialEq, Eq, Structural)]
pub enum Phase {
    /// Pulling batches from the assembler and starting write tasks.
    Pulling,
    /// End of data seen; waiting for the remaining in-flight writes.
    Draining,
    /// Terminal: every started write has finished.
    Done,
}

/// One observable event of a run.
pub enum RunEvent {
    /// A batch-write task was admitted into the window.
    StartWrite,
    /// An in-flight batch write finished, successfully or not.
    WriteFinished(bool),
    /// The source signalled end-of-data.
    EndOfData,
}

/// The mathematical state of the window.
pub ghost struct WindowModel {
    pub width: int,
    pub in_flight: int,
    pub phase: Phase,
    pub completed: int,
    pub failed: int,
}

/// The window invariant: never more in-flight tasks than the configured
/// width, and nothing in flight once the run is done.
pub open spec fn window_wf(s: WindowModel) -> bool {
    &&& s.width >= 1
    &&& 0 <= s.in_flight <= s.width
    &&& s.phase is Done ==> s.in_flight == 0
    &&& s.completed >= 0
    &&& s.failed >= 0
}

/// When an event can happen at all: a write starts only while pulling
/// and only into a free slot; only an in-flight write can finish.
pub open spec fn event_allowed(s: WindowModel, e: RunEvent) -> bool {
    match e {
        RunEvent::StartWrite => s.phase is Pulling && s.in_flight < s.width,
        RunEvent::WriteFinished(ok) => s.in_flight > 0,
        RunEvent::EndOfData => s.phase is Pulling,
    }
}

/// The transition relation, one event at a time. A finished write frees
/// its slot whether it succeeded or failed; the run reaches `Done` when
/// end-of-data has been seen and the window is empty.
pub open spec fn spec_step(s: WindowModel, e: RunEvent) -> WindowModel {
    match e {
        RunEvent::StartWrite => WindowModel { in_flight: s.in_flight + 1, ..s },
        RunEvent::WriteFinished(ok) => WindowModel {
            in_flight: s.in_flight - 1,
            phase: if s.phase is Draining && s.in_flight == 1 {
                Phase::Done
            } else {
                s.phase
            },
            completed: if ok {
                s.completed + 1
            } else {
                s.completed
            },
            failed: if ok {
                s.failed
            } else {
                s.failed + 1
            },
            ..s
        },
        RunEvent::EndOfData => WindowModel {
            phase: if s.in_flight == 0 {
                Phase::Done
            } else {
                Phase::Draining
            },
            ..s
        },
    }
}

/// Whether a run in this state has succeeded: it is done. How many batch
/// writes failed plays no part; only a fatal read-path error, which
/// aborts a run before it reaches `Done`, makes a run fail.
pub open spec fn spec_run_succeeded(s: WindowModel) -> bool {
    s.phase is Done
}

/// The state after the first `k` events of a run.
pub open spec fn run_state(s0: WindowModel, events: Seq<RunEvent>, k: int) -> WindowModel
    decreases k,
{
    if k <= 0 {
        s0
    } else {
        spec_step(run_state(s0, events, k - 1), events[k - 1])
    }
}

/// A run is admissible when each event is allowed in the state it meets.
pub open spec fn admissible_run(s0: WindowModel, events: Seq<RunEvent>) -> bool {
    forall|k: int|
        0 <= k < events.len() ==> event_allowed(run_state(s0, events, k), #[trigger] events[k])
}

/// One allowed step keeps the invariant and the configured width.
pub proof fn lemma_step_preserves_wf(s: WindowModel, e: RunEvent)
    requires
        window_wf(s),
        event_allowed(s, e),
    ensures
        window_wf(spec_step(s, e)),
        spec_step(s, e).width == s.width,
{
}

/// Along any admissible run the invariant holds at every point.
pub proof fn lemma_run_wf(s0: WindowModel, events: Seq<RunEvent>, k: int)
    requires
        window_wf(s0),
        admissible_run(s0, events),
        0 <= k <= events.len(),
    ensures
        window_wf(run_state(s0, events, k)),
        run_state(s0, events, k).width == s0.width,
    decreases k,
{
    if k > 0 {
        lemma_run_wf(s0, events, k - 1);
        lemma_step_preserves_wf(run_state(s0, events, k - 1), events[k - 1]);
    }
}

/// At no point of any admissible run do more batch-write tasks sit in
/// flight than the configured concurrency width.
pub proof fn lemma_window_never_exceeds_width(s0: WindowModel, events: Seq<RunEvent>)
    requires
        window_wf(s0),
        admissible_run(s0, events),
    ensures
        forall|k: int|
            0 <= k <= events.len() ==> run_state(s0, events, k).in_flight <= s0.width,
{
    assert forall|k: int|
        0 <= k <= events.len() implies run_state(s0, events, k).in_flight <= s0.width by {
        lemma_run_wf(s0, events, k);
    }
}

/// A failing batch write frees its window slot exactly as a success
/// does: the window, the phase, and so the run's outcome are the same
/// either way, and later well-formed batches proceed untouched.
pub proof fn lemma_write_failure_isolated(s: WindowModel)
    requires
        window_wf(s),
        s.in_flight > 0,
    ensures
        ({
            let f = spec_step(s, RunEvent::WriteFinished(false));
            let g = spec_step(s, RunEvent::WriteFinished(true));
            &&& f.in_flight == g.in_flight
            &&& f.phase == g.phase
            &&& f.width == g.width
            &&& spec_run_succeeded(f) == spec_run_succeeded(g)
        }),
{
}

/// The executable window state the run loop drives. Its transitions
/// follow `spec_step` exactly.
pub struct Orchestrator {
    width: usize,
    in_flight: usize,
    phase: Phase,
    completed: u64,
    failed: u64,
}

impl Orchestrator {
    pub closed spec fn model(&self) -> WindowModel {
        WindowModel {
            width: self.width as int,
            in_flight: self.in_flight as int,
            phase: self.phase,
            completed: self.completed as int,
            failed: self.failed as int,
        }
    }

    pub open spec fn wf(&self) -> bool {
        window_wf(self.model())
    }

    /// A fresh window of the configured width, ready to pull.
    pub fn new(width: usize) -> (r: Orchestrator)
        requires
            width >= 1,
        ensures
            r.wf(),
            r.model() == (WindowModel {
                width: width as int,
                in_flight: 0,
                phase: Phase::Pulling,
                completed: 0,
                failed: 0,
            }),
    {
        Orchestrator { width, in_flight: 0, phase: Phase::Pulling, completed: 0, failed: 0 }
    }

    /// Whether a new batch write may start now: the run is still pulling
    /// and a window slot is free.
    pub fn can_start(&self) -> (r: bool)
        ensures
            r == event_allowed(self.model(), RunEvent::StartWrite),
    {
        match self.phase {
            Phase::Pulling => self.in_flight < self.width,
            _ => false,
        }
    }

    /// Admit one batch-write task into the window.
    pub fn start_write(&mut self)
        requires
            old(self).wf(),
            event_allowed(old(self).model(), RunEvent::StartWrite),
        ensures
            final(self).wf(),
            final(self).model() == spec_step(old(self).model(), RunEvent::StartWrite),
    {
        self.in_flight = self.in_flight + 1;
    }

    /// Record that one in-flight batch write finished; a failure frees
    /// its slot exactly as a success does.
    pub fn finish_write(&mut self, ok: bool)
        requires
            old(self).wf(),
            event_allowed(old(self).model(), RunEvent::WriteFinished(ok)),
            old(self).model().completed + old(self).model().failed < u64::MAX,
        ensures
            final(self).wf(),
            final(self).model() == spec_step(old(self).model(), RunEvent::WriteFinished(ok)),
    {
        self.in_flight = self.in_flight - 1;
        if ok {
            self.completed = self.completed + 1;
        } else {
            self.failed = self.failed + 1;
        }
        match self.phase {
            Phase::Draining => {
                if self.in_flight == 0 {
                    self.phase = Phase::Done;
                }
            },
            _ => {},
        }
    }

    /// The source has no more batches: drain what is still in flight.
    pub fn end_of_data(&mut self)
        requires
            old(self).wf(),
            event_allowed(old(self).model(), RunEvent::EndOfData),
        ensures
            final(self).wf(),
            final(self).model() == spec_step(old(self).model(), RunEvent::EndOfData),
    {
        if self.in_flight == 0 {
            self.phase = Phase::Done;
        } else {
            self.phase = Phase::Draining;
        }
    }

    /// How many batch writes are in flight right now.
    pub fn in_flight(&self) -> (r: usize)
        ensures
            r == self.model().in_flight,
    {
        self.in_flight
    }

    /// How many batch writes have finished, successfully or not.
    pub fn finished_counts(&self) -> (r: (u64, u64))
        ensures
            r.0 == self.model().completed,
            r.1 == self.model().failed,
    {
        (self.completed, self.failed)
    }

    /// Whether the run has completed. Failed batch writes do not make a
    /// run fail; only a fatal read-path error, which aborts the loop
    /// before this state is reached, does.
    pub fn run_succeeded(&self) -> (r: bool)
        ensures
            r == spec_run_succeeded(self.model()),
    {
        match self.phase {
            Phase::Done => true,
            _ => false,
        }
    }
}

} // verus!
