//! The life of an execution context, and what the host does when one ends.
//!
//! A context is created, instantiated from the template, and run. It ends by
//! returning or by a failure of the engine, and a failure in any context ends
//! the whole process: contexts are not isolated from one another.

use crate::text::{report_line, report_text, snapshot_failure_line, snapshot_failure_text};
use vstd::prelude::*;

verus! {

/// Where an execution context stands.
#[derive(Clone, Copy, Debug, PartialEq, Eq, Structural)]
pub enum Phase {
    /// The state of the context is prepared.
    Created,
    /// The template is being bound to a fresh instance.
    Instantiating,
    /// The entry function is executing.
    Running,
    /// The entry function has returned.
    TerminatedNormally,
    /// The engine has reported an error.
    TerminatedFatally,
}

/// What happens to an execution context.
#[derive(Clone, Copy, Debug, PartialEq, Eq, Structural)]
pub enum Event {
    /// Instantiation begins.
    Instantiate,
    /// The instance is ready and the entry function is called.
    Instantiated,
    /// The entry function returns.
    Returned,
    /// The engine reports an error.
    Failed,
}

/// The phase that follows `phase` on `event`, if the event can happen there.
pub open spec fn next_phase(phase: Phase, event: Event) -> Option<Phase> {
    match (phase, event) {
        (Phase::Created, Event::Instantiate) => Some(Phase::Instantiating),
        (Phase::Instantiating, Event::Instantiated) => Some(Phase::Running),
        (Phase::Instantiating, Event::Failed) => Some(Phase::TerminatedFatally),
        (Phase::Running, Event::Returned) => Some(Phase::TerminatedNormally),
        (Phase::Running, Event::Failed) => Some(Phase::TerminatedFatally),
        _ => None,
    }
}

/// Whether a context in this phase has ended.
pub open spec fn is_terminal(phase: Phase) -> bool {
    phase == Phase::TerminatedNormally || phase == Phase::TerminatedFatally
}

/// Moves a context on by one event.
pub fn advance(phase: Phase, event: Event) -> (next: Option<Phase>)
    ensures
        next == next_phase(phase, event),
{
    match phase {
        Phase::Created => match event {
            Event::Instantiate => Some(Phase::Instantiating),
            _ => None,
        },
        Phase::Instantiating => match event {
            Event::Instantiated => Some(Phase::Running),
            Event::Failed => Some(Phase::TerminatedFatally),
            _ => None,
        },
        Phase::Running => match event {
            Event::Returned => Some(Phase::TerminatedNormally),
            Event::Failed => Some(Phase::TerminatedFatally),
            _ => None,
        },
        _ => None,
    }
}

/// A context that has ended stays as it is; a context ends fatally exactly
/// when the engine fails while it is instantiated or run; and it ends
/// normally only by returning from its entry function.
pub proof fn lemma_lifecycle(phase: Phase, event: Event)
    ensures
        is_terminal(phase) ==> next_phase(phase, event) is None,
        next_phase(phase, event) == Some(Phase::TerminatedFatally) <==> event == Event::Failed && (
        phase == Phase::Instantiating || phase == Phase::Running),
        next_phase(phase, event) == Some(Phase::TerminatedNormally) <==> event == Event::Returned
            && phase == Phase::Running,
        next_phase(phase, event) != Some(Phase::Created),
{
}

/// How the top-level call of an execution context ended.
#[derive(Debug, PartialEq, Eq)]
pub enum Outcome {
    /// It returned.
    Returned,
    /// The engine reported an error while it instantiated or ran the guest: a
    /// trap of the guest, or the refusal of a host call. `error` is the
    /// engine's account of it, and `snapshot` tells whether the engine took a
    /// snapshot of the guest.
    Fault { error: String, snapshot: bool },
}

/// One thing the host does after a context has ended.
#[derive(Debug, PartialEq, Eq)]
pub enum Step {
    /// Serialize the snapshot and write it to the coredump file. A failure
    /// to write is logged and nothing more.
    PersistSnapshot,
    /// Write a line to the error stream.
    Report { line: String },
    /// End the process with a status.
    Exit { status: i32 },
}

/// What a step is in specifications.
pub enum StepView {
    PersistSnapshot,
    Report { line: Seq<char> },
    Exit { status: i32 },
}

impl View for Step {
    type V = StepView;

    open spec fn view(&self) -> StepView {
        match self {
            Step::PersistSnapshot => StepView::PersistSnapshot,
            Step::Report { line } => StepView::Report { line: line@ },
            Step::Exit { status } => StepView::Exit { status: *status },
        }
    }
}

/// The steps after a context named `name` has ended: none if it returned;
/// after a fault the snapshot is persisted if there is one, the context and
/// the error are reported, and the process ends with status 1.
pub open spec fn diagnosis(name: Seq<char>, outcome: Outcome) -> Seq<StepView> {
    match outcome {
        Outcome::Returned => Seq::<StepView>::empty(),
        Outcome::Fault { error, snapshot } => {
            let report = seq![
                StepView::Report { line: report_text(name, error@) },
                StepView::Exit { status: 1 },
            ];
            if snapshot {
                seq![StepView::PersistSnapshot] + report
            } else {
                report
            }
        },
    }
}

/// The views of steps.
pub open spec fn step_views(steps: Seq<Step>) -> Seq<StepView> {
    Seq::new(steps.len(), |i: int| steps[i]@)
}

/// Decides what to do after a context has ended.
pub fn handle_result(name: &str, outcome: &Outcome) -> (steps: Vec<Step>)
    ensures
        step_views(steps@) == diagnosis(name@, *outcome),
{
    let mut steps: Vec<Step> = Vec::new();
    match outcome {
        Outcome::Returned => {},
        Outcome::Fault { error, snapshot } => {
            if *snapshot {
                steps.push(Step::PersistSnapshot);
            }
            steps.push(Step::Report { line: report_line(name, error.as_str()) });
            steps.push(Step::Exit { status: 1 });
        },
    }
    assert(step_views(steps@) =~= diagnosis(name@, *outcome));
    steps
}

/// The steps after the boot context has ended. When it returns the process
/// ends with status 0 at once: the host does not wait for the contexts that
/// the guest has started. A fault is handled as in every other context.
pub open spec fn boot_conclusion(outcome: Outcome) -> Seq<StepView> {
    match outcome {
        Outcome::Returned => seq![StepView::Exit { status: 0 }],
        Outcome::Fault { .. } => diagnosis("boot"@, outcome),
    }
}

/// Decides what to do after the boot context has ended.
pub fn conclude_boot(outcome: &Outcome) -> (steps: Vec<Step>)
    ensures
        step_views(steps@) == boot_conclusion(*outcome),
{
    match outcome {
        Outcome::Returned => {
            let mut steps: Vec<Step> = Vec::new();
            steps.push(Step::Exit { status: 0 });
            assert(step_views(steps@) =~= boot_conclusion(*outcome));
            steps
        },
        Outcome::Fault { .. } => handle_result("boot", outcome),
    }
}

/// The line to log after the snapshot was written, if any: a failure to
/// write is reported and changes nothing else.
pub fn snapshot_persisted(failure: Option<&str>) -> (line: Option<String>)
    ensures
        match failure {
            Some(error) => line is Some && line->Some_0@ == snapshot_failure_text(error@),
            None => line is None,
        },
{
    match failure {
        Some(error) => Some(snapshot_failure_line(error)),
        None => None,
    }
}

/// The process ends with status 0 only when the boot context returns, and
/// every fault, in whatever context, ends it with status 1 after the report.
pub proof fn lemma_exit_status(name: Seq<char>, outcome: Outcome)
    ensures
        outcome is Returned ==> diagnosis(name, outcome).len() == 0,
        outcome is Returned ==> boot_conclusion(outcome) == seq![StepView::Exit { status: 0 }],
        outcome is Fault ==> diagnosis(name, outcome).last() == (StepView::Exit { status: 1 }),
        outcome is Fault ==> boot_conclusion(outcome).last() == (StepView::Exit { status: 1 }),
        outcome is Fault ==> !diagnosis(name, outcome).contains(StepView::Exit { status: 0 }),
        outcome matches Outcome::Fault { snapshot, .. } ==> (snapshot <==> diagnosis(
            name,
            outcome,
        ).contains(StepView::PersistSnapshot)),
{
    match outcome {
        Outcome::Returned => {},
        Outcome::Fault { error, snapshot } => {
            let steps = diagnosis(name, outcome);
            if snapshot {
                assert(steps[0] == StepView::PersistSnapshot);
            }
        },
    }
}

} // verus!
