use vstd::prelude::*;

use crate::pacing::FrameBudget;
use crate::watcher::{changed_since, Timestamp};

verus! {

/// Where the controller stands within a run.
///
/// A tick goes `Updating`, `Watching`, possibly `Swapping`, `Pacing`,
/// `Sleeping`, and back to `Updating`. `Starting` comes once, before the
/// first tick; `Terminating` ends the run.
#[derive(Clone, Copy, Debug, PartialEq, Eq, Structural)]
pub enum Phase {
    Starting,
    Updating,
    Watching,
    Swapping { modified: Timestamp },
    Pacing,
    Sleeping { nanos: u64 },
    Terminating { load_failed: bool },
}

/// What the host is to do next.
#[derive(Clone, Copy, Debug, PartialEq, Eq, Structural)]
pub enum Action {
    /// Create the opaque state with the active module's constructor.
    Construct,
    /// Call the active module's update entry point once.
    Update,
    /// Read the tracked artifact's modification time.
    Poll,
    /// Locate the newest artifact and open it as a new module handle.
    Load,
    /// Report how long the tick's work has taken.
    Measure,
    /// Sleep for this many nanoseconds.
    Sleep { nanos: u64 },
    /// Leave the loop: the module asked to quit.
    Exit,
    /// Leave the process: a rebuilt module could not be loaded.
    Abort,
}

/// What the host reports back after doing an action.
pub enum Event<H> {
    /// The opaque state was created.
    Constructed,
    /// The update call returned; `quit` is what the module asked for.
    Updated { quit: bool },
    /// The modification time read, or `None` when it could not be read.
    Polled { modified: Option<Timestamp> },
    /// The new handle, fully opened with every entry point resolved, or
    /// `None` when opening or resolving failed.
    Loaded { handle: Option<H> },
    /// How long the tick's work took, in nanoseconds.
    Measured { elapsed: u64 },
    /// The end-of-tick sleep is over.
    Slept,
}

/// The action that a phase asks for.
pub open spec fn action_of(phase: Phase) -> Action {
    match phase {
        Phase::Starting => Action::Construct,
        Phase::Updating => Action::Update,
        Phase::Watching => Action::Poll,
        Phase::Swapping { .. } => Action::Load,
        Phase::Pacing => Action::Measure,
        Phase::Sleeping { nanos } => Action::Sleep { nanos },
        Phase::Terminating { load_failed } => if load_failed {
            Action::Abort
        } else {
            Action::Exit
        },
    }
}

/// Sequences the ticks of a run around the active module handle `H`.
///
/// The controller owns the active handle. A handle is replaced only after its
/// successor has been opened and resolved, and only between the update call
/// of a tick and the update call of the next one.
pub struct Controller<H> {
    pub active: H,
    pub phase: Phase,
    pub baseline: Timestamp,
    pub generation: u64,
    pub budget: FrameBudget,
}

impl<H> Controller<H> {
    pub open spec fn wf(&self) -> bool {
        &&& self.baseline.wf()
        &&& self.phase matches Phase::Swapping { modified } ==> modified.wf()
        &&& self.phase matches Phase::Swapping { modified } ==> modified.instant()
            > self.baseline.instant()
    }

    /// Whether `event` answers the action that the current phase asks for.
    pub open spec fn accepts_spec(&self, event: &Event<H>) -> bool {
        match self.phase {
            Phase::Starting => event is Constructed,
            Phase::Updating => event is Updated,
            Phase::Watching => match event {
                Event::Polled { modified } => modified matches Some(t) ==> t.wf(),
                _ => false,
            },
            Phase::Swapping { .. } => event is Loaded,
            Phase::Pacing => event is Measured,
            Phase::Sleeping { .. } => event is Slept,
            Phase::Terminating { .. } => false,
        }
    }

    /// The controller after `event`.
    pub open spec fn next(self, event: Event<H>) -> Controller<H> {
        match event {
            Event::Constructed => Controller { phase: Phase::Updating, ..self },
            Event::Updated { quit } => if quit {
                Controller { phase: Phase::Terminating { load_failed: false }, ..self }
            } else {
                Controller { phase: Phase::Watching, ..self }
            },
            Event::Polled { modified } => match modified {
                Some(t) => if t.instant() > self.baseline.instant() {
                    Controller { phase: Phase::Swapping { modified: t }, ..self }
                } else {
                    Controller { phase: Phase::Pacing, ..self }
                },
                None => Controller { phase: Phase::Pacing, ..self },
            },
            Event::Loaded { handle } => match handle {
                Some(h) => match self.phase {
                    Phase::Swapping { modified } => Controller {
                        active: h,
                        phase: Phase::Pacing,
                        baseline: modified,
                        generation: if self.generation < u64::MAX {
                            (self.generation + 1) as u64
                        } else {
                            self.generation
                        },
                        budget: self.budget,
                    },
                    _ => self,
                },
                None => Controller { phase: Phase::Terminating { load_failed: true }, ..self },
            },
            Event::Measured { elapsed } => Controller {
                phase: Phase::Sleeping {
                    nanos: if elapsed < self.budget.nanos {
                        (self.budget.nanos - elapsed) as u64
                    } else {
                        0
                    },
                },
                ..self
            },
            Event::Slept => Controller { phase: Phase::Updating, ..self },
        }
    }

    /// A controller for a run whose first module handle is `first`, opened
    /// from an artifact last modified at `modified`. Its first action is to
    /// create the opaque state.
    pub fn new(first: H, modified: Timestamp, budget: FrameBudget) -> (r: Controller<H>)
        requires
            modified.wf(),
        ensures
            r.wf(),
            r.active == first,
            r.phase == Phase::Starting,
            r.baseline == modified,
            r.generation == 0,
            r.budget == budget,
    {
        Controller { active: first, phase: Phase::Starting, baseline: modified, generation: 0, budget }
    }

    /// The action that the current phase asks for.
    pub fn action(&self) -> (r: Action)
        ensures
            r == action_of(self.phase),
    {
        match self.phase {
            Phase::Starting => Action::Construct,
            Phase::Updating => Action::Update,
            Phase::Watching => Action::Poll,
            Phase::Swapping { .. } => Action::Load,
            Phase::Pacing => Action::Measure,
            Phase::Sleeping { nanos } => Action::Sleep { nanos },
            Phase::Terminating { load_failed } => if load_failed {
                Action::Abort
            } else {
                Action::Exit
            },
        }
    }

    /// Whether `event` answers the action that the current phase asks for.
    pub fn accepts(&self, event: &Event<H>) -> (r: bool)
        ensures
            r == self.accepts_spec(event),
    {
        match self.phase {
            Phase::Starting => matches!(event, Event::Constructed),
            Phase::Updating => matches!(event, Event::Updated { .. }),
            Phase::Watching => match event {
                Event::Polled { modified } => match modified {
                    Some(t) => t.nanos < 1_000_000_000,
                    None => true,
                },
                _ => false,
            },
            Phase::Swapping { .. } => matches!(event, Event::Loaded { .. }),
            Phase::Pacing => matches!(event, Event::Measured { .. }),
            Phase::Sleeping { .. } => matches!(event, Event::Slept),
            Phase::Terminating { .. } => false,
        }
    }

    /// Takes in what the host reports and moves to the next phase; returns
    /// the action that the new phase asks for.
    pub fn step(&mut self, event: Event<H>) -> (r: Action)
        requires
            old(self).wf(),
            old(self).accepts_spec(&event),
        ensures
            final(self).wf(),
            *final(self) == old(self).next(event),
            r == action_of(final(self).phase),
    {
        match event {
            Event::Constructed => {
                self.phase = Phase::Updating;
            },
            Event::Updated { quit } => {
                if quit {
                    self.phase = Phase::Terminating { load_failed: false };
                } else {
                    self.phase = Phase::Watching;
                }
            },
            Event::Polled { modified } => {
                match changed_since(modified, &self.baseline) {
                    Some(t) => {
                        self.phase = Phase::Swapping { modified: t };
                    },
                    None => {
                        self.phase = Phase::Pacing;
                    },
                }
            },
            Event::Loaded { handle } => {
                match handle {
                    Some(h) => {
                        if let Phase::Swapping { modified } = self.phase {
                            let mut retired = h;
                            core::mem::swap(&mut self.active, &mut retired);
                            self.baseline = modified;
                            if self.generation < u64::MAX {
                                self.generation = self.generation + 1;
                            }
                            self.phase = Phase::Pacing;
                        }
                    },
                    None => {
                        self.phase = Phase::Terminating { load_failed: true };
                    },
                }
            },
            Event::Measured { elapsed } => {
                self.phase = Phase::Sleeping { nanos: self.budget.sleep_time(elapsed) };
            },
            Event::Slept => {
                self.phase = Phase::Updating;
            },
        }
        self.action()
    }
}

/// Whether every event of `events`, in order, answers what the controller
/// asks for at that point.
pub open spec fn is_run<H>(c: Controller<H>, events: Seq<Event<H>>) -> bool
    decreases events.len(),
{
    events.len() == 0 || (c.accepts_spec(&events[0]) && is_run(c.next(events[0]), events.drop_first()))
}

/// The controller after `events`, taken in order.
pub open spec fn after_run<H>(c: Controller<H>, events: Seq<Event<H>>) -> Controller<H>
    decreases events.len(),
{
    if events.len() == 0 {
        c
    } else {
        after_run(c.next(events[0]), events.drop_first())
    }
}

/// Once the opaque state exists, nothing brings the controller to ask for
/// the constructor again: no run of events, module swaps included, leads
/// back to it.
pub proof fn lemma_constructor_never_asked_again<H>(c: Controller<H>, events: Seq<Event<H>>)
    requires
        c.wf(),
        !(c.phase is Starting),
        is_run(c, events),
    ensures
        !(after_run(c, events).phase is Starting),
        action_of(after_run(c, events).phase) != Action::Construct,
    decreases events.len(),
{
    if events.len() > 0 {
        lemma_step_keeps_wf(c, events[0]);
        lemma_constructor_never_asked_again(c.next(events[0]), events.drop_first());
    }
}

/// A step keeps the controller well formed.
pub proof fn lemma_step_keeps_wf<H>(c: Controller<H>, e: Event<H>)
    requires
        c.wf(),
        c.accepts_spec(&e),
    ensures
        c.next(e).wf(),
{
}

/// A module swap takes effect only between ticks: the active handle, and
/// the count of swaps, change only when a loaded successor arrives while
/// swapping, which comes after the tick's update call has returned; the
/// handle that an update call is made on stays active through that call.
pub proof fn lemma_swap_only_between_updates<H>(c: Controller<H>, e: Event<H>)
    requires
        c.wf(),
        c.accepts_spec(&e),
    ensures
        (c.next(e).active != c.active || c.next(e).generation != c.generation) ==> (
        c.phase is Swapping && c.next(e).phase == Phase::Pacing),
        c.phase is Updating ==> c.next(e).active == c.active,
        c.next(e).budget == c.budget,
{
}

} // verus!
