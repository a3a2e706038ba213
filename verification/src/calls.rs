//! What each entry point has to have done for it, in which order, and how it ends.
//!
//! An entry point is a plan of steps. The steps themselves reach outside: into the engine, its
//! database, the async runtime or Python. Whoever performs them asks for the step that is due,
//! performs it, and reports the outcome, until the call has returned or raised.

use vstd::prelude::*;

#[allow(unused_imports)]
use crate::errors::is_debug_text;
use crate::errors::{IntoPyResult, PyException};
use crate::setup::{report_target, ReportTarget};
#[allow(unused_imports)]
use crate::setup::target_of_report;

verus! {

/// One piece of work outside.
#[derive(Debug, Clone, Copy, PartialEq, Eq, Structural)]
pub enum Step {
    InitLibContext,
    ClearLibContext,
    GetLibContext,
    RequireBuiltinDbPool,
    RequirePersistenceCtx,
    ReadSetupStates,
    InitServer,
    SpawnServer,
    RegisterFactory,
    StartLiveUpdater,
    WaitForLiveUpdater,
    NextStatusUpdates,
    GetExecutionPlan,
    UseExecutionCtx,
    EvaluateAndDump,
    ValuesFromPython,
    EvaluateTransientFlow,
    RoundtripValue,
    ValueToPython,
    DescribeBundle,
    ApplyBundle { report: ReportTarget },
    RemoveFlowContext,
    AddAuthEntry,
}

/// When a step is performed: before the call comes back to Python, or once Python awaits what the
/// call gave it. A failure surfaces at the same time.
#[derive(Debug, Clone, Copy, PartialEq, Eq, Structural)]
pub enum Phase {
    AtCall,
    OnAwait,
}

/// A step and when it is performed.
#[derive(Debug, Clone, Copy, PartialEq, Eq, Structural)]
pub struct PlannedStep {
    pub step: Step,
    pub phase: Phase,
}

/// What Python can call that needs work outside.
#[derive(Debug, Clone, Copy, PartialEq, Eq, Structural)]
pub enum EntryPoint {
    Init,
    StartServer,
    Stop,
    RegisterFunctionFactory,
    CreateLiveUpdater,
    WaitAsync,
    NextStatusUpdatesAsync,
    EvaluateAndDump,
    EvaluateAsync,
    DescribeAsync,
    ApplyAsync { report_to_stdout: bool },
    FlowNamesWithSetupAsync,
    RemoveFlowContext { context_set: bool },
    AddAuthEntry,
    SederRoundtrip,
}

/// `step`, before the call comes back.
pub open spec fn at_call(step: Step) -> PlannedStep {
    PlannedStep { step, phase: Phase::AtCall }
}

/// `step`, once Python awaits.
pub open spec fn on_await(step: Step) -> PlannedStep {
    PlannedStep { step, phase: Phase::OnAwait }
}

/// The steps of an entry point, in their order.
pub open spec fn plan_of(entry: EntryPoint) -> Seq<PlannedStep> {
    match entry {
        EntryPoint::Init => seq![at_call(Step::InitLibContext)],
        EntryPoint::StartServer => seq![
            at_call(Step::GetLibContext),
            at_call(Step::InitServer),
            at_call(Step::SpawnServer),
        ],
        EntryPoint::Stop => seq![at_call(Step::ClearLibContext)],
        EntryPoint::RegisterFunctionFactory => seq![at_call(Step::RegisterFactory)],
        EntryPoint::CreateLiveUpdater => seq![
            on_await(Step::GetLibContext),
            on_await(Step::RequireBuiltinDbPool),
            on_await(Step::StartLiveUpdater),
        ],
        EntryPoint::WaitAsync => seq![on_await(Step::WaitForLiveUpdater)],
        EntryPoint::NextStatusUpdatesAsync => seq![on_await(Step::NextStatusUpdates)],
        EntryPoint::EvaluateAndDump => seq![
            at_call(Step::GetExecutionPlan),
            at_call(Step::GetLibContext),
            at_call(Step::UseExecutionCtx),
            at_call(Step::RequireBuiltinDbPool),
            at_call(Step::EvaluateAndDump),
        ],
        EntryPoint::EvaluateAsync => seq![
            at_call(Step::ValuesFromPython),
            on_await(Step::EvaluateTransientFlow),
            on_await(Step::ValueToPython),
        ],
        EntryPoint::DescribeAsync => seq![
            at_call(Step::GetLibContext),
            on_await(Step::DescribeBundle),
        ],
        EntryPoint::ApplyAsync { report_to_stdout } => seq![
            at_call(Step::GetLibContext),
            on_await(Step::ApplyBundle { report: target_of_report(report_to_stdout) }),
        ],
        EntryPoint::FlowNamesWithSetupAsync => seq![
            on_await(Step::GetLibContext),
            on_await(Step::RequirePersistenceCtx),
            on_await(Step::ReadSetupStates),
        ],
        EntryPoint::RemoveFlowContext { context_set } => if context_set {
            seq![at_call(Step::RemoveFlowContext)]
        } else {
            Seq::empty()
        },
        EntryPoint::AddAuthEntry => seq![at_call(Step::AddAuthEntry)],
        EntryPoint::SederRoundtrip => seq![
            at_call(Step::ValuesFromPython),
            at_call(Step::RoundtripValue),
            at_call(Step::ValueToPython),
        ],
    }
}

fn planned(step: Step, phase: Phase) -> (planned: PlannedStep)
    ensures
        planned == (PlannedStep { step, phase }),
{
    PlannedStep { step, phase }
}

/// Lists the steps of an entry point, in their order.
pub fn plan(entry: EntryPoint) -> (steps: Vec<PlannedStep>)
    ensures
        steps@ == plan_of(entry),
{
    let now = Phase::AtCall;
    let later = Phase::OnAwait;
    let steps = match entry {
        EntryPoint::Init => vec![planned(Step::InitLibContext, now)],
        EntryPoint::StartServer => vec![
            planned(Step::GetLibContext, now),
            planned(Step::InitServer, now),
            planned(Step::SpawnServer, now),
        ],
        EntryPoint::Stop => vec![planned(Step::ClearLibContext, now)],
        EntryPoint::RegisterFunctionFactory => vec![planned(Step::RegisterFactory, now)],
        EntryPoint::CreateLiveUpdater => vec![
            planned(Step::GetLibContext, later),
            planned(Step::RequireBuiltinDbPool, later),
            planned(Step::StartLiveUpdater, later),
        ],
        EntryPoint::WaitAsync => vec![planned(Step::WaitForLiveUpdater, later)],
        EntryPoint::NextStatusUpdatesAsync => vec![planned(Step::NextStatusUpdates, later)],
        EntryPoint::EvaluateAndDump => vec![
            planned(Step::GetExecutionPlan, now),
            planned(Step::GetLibContext, now),
            planned(Step::UseExecutionCtx, now),
            planned(Step::RequireBuiltinDbPool, now),
            planned(Step::EvaluateAndDump, now),
        ],
        EntryPoint::EvaluateAsync => vec![
            planned(Step::ValuesFromPython, now),
            planned(Step::EvaluateTransientFlow, later),
            planned(Step::ValueToPython, later),
        ],
        EntryPoint::DescribeAsync => vec![
            planned(Step::GetLibContext, now),
            planned(Step::DescribeBundle, later),
        ],
        EntryPoint::ApplyAsync { report_to_stdout } => vec![
            planned(Step::GetLibContext, now),
            planned(Step::ApplyBundle { report: report_target(report_to_stdout) }, later),
        ],
        EntryPoint::FlowNamesWithSetupAsync => vec![
            planned(Step::GetLibContext, later),
            planned(Step::RequirePersistenceCtx, later),
            planned(Step::ReadSetupStates, later),
        ],
        EntryPoint::RemoveFlowContext { context_set } => if context_set {
            vec![planned(Step::RemoveFlowContext, now)]
        } else {
            Vec::new()
        },
        EntryPoint::AddAuthEntry => vec![planned(Step::AddAuthEntry, now)],
        EntryPoint::SederRoundtrip => vec![
            planned(Step::ValuesFromPython, now),
            planned(Step::RoundtripValue, now),
            planned(Step::ValueToPython, now),
        ],
    };
    assert(steps@ =~= plan_of(entry));
    steps
}

/// How a step failed: with an error that Python raised, or with one of the engine's own.
#[derive(Debug)]
pub enum StepFailure<E, D> {
    Python(E),
    Engine(D),
}

/// A failure of `step` can reach Python.
pub open spec fn can_fail(step: Step) -> bool {
    match step {
        Step::ClearLibContext => false,
        Step::SpawnServer => false,
        Step::ReadSetupStates => false,
        Step::RemoveFlowContext => false,
        _ => true,
    }
}

/// Where `step` fails, it fails with an error that Python raised: it converts values from or to
/// Python. The other steps fail with errors of the engine's own.
pub open spec fn fails_in_python(step: Step) -> bool {
    match step {
        Step::ValuesFromPython => true,
        Step::ValueToPython => true,
        _ => false,
    }
}

/// `outcome` is one that `step` can have.
pub open spec fn can_end_in<E, D>(step: Step, outcome: Result<(), StepFailure<E, D>>) -> bool {
    match outcome {
        Ok(_) => true,
        Err(StepFailure::Python(_)) => can_fail(step) && fails_in_python(step),
        Err(StepFailure::Engine(_)) => can_fail(step) && !fails_in_python(step),
    }
}

/// What a call raises.
#[derive(Debug)]
pub enum Raised<E> {
    Python(E),
    Exception(PyException),
}

/// How far a call has come.
#[derive(Debug)]
pub enum CallState<E> {
    /// `done` steps are done, and the next one is due.
    Pending { entry: EntryPoint, done: usize },
    /// All steps are done.
    Returned,
    /// A step failed.
    Raised { phase: Phase, error: Raised<E> },
}

impl<E> CallState<E> {
    /// A pending call has a step that is due.
    pub open spec fn well_formed(self) -> bool {
        match self {
            CallState::Pending { entry, done } => done < plan_of(entry).len(),
            CallState::Returned => true,
            CallState::Raised { .. } => true,
        }
    }

    /// The step that is due.
    pub open spec fn due_step(self) -> Option<PlannedStep> {
        match self {
            CallState::Pending { entry, done } => Some(plan_of(entry)[done as int]),
            CallState::Returned => None,
            CallState::Raised { .. } => None,
        }
    }

    /// The call has gone through `done` steps of its entry point's plan and nothing failed.
    pub open spec fn is_after(self, entry: EntryPoint, done: int) -> bool {
        if done < plan_of(entry).len() {
            self matches CallState::Pending { entry: pending, done: count } && pending == entry
                && count == done
        } else {
            self is Returned
        }
    }

    /// The call raised, in the given phase, what the given failure gives.
    pub open spec fn raised<D: std::fmt::Debug>(
        self,
        phase: Phase,
        failure: StepFailure<E, D>,
    ) -> bool {
        &&& self matches CallState::Raised { phase: raised_in, error }
        &&& raised_in == phase
        &&& match failure {
            StepFailure::Python(raised) => error == Raised::Python(raised),
            StepFailure::Engine(err) => error matches Raised::Exception(exception)
                && is_debug_text(err, exception.message@),
        }
    }

    /// Taking the outcome of the step that was due leads to `next`: a step that went well makes
    /// the following one due, a failure ends the call, and a call that has ended stays as it is.
    pub open spec fn steps_to<D: std::fmt::Debug>(
        self,
        outcome: Result<(), StepFailure<E, D>>,
        next: Self,
    ) -> bool {
        match self {
            CallState::Pending { entry, done } => match outcome {
                Ok(_) => next.is_after(entry, done + 1),
                Err(failure) => next.raised(plan_of(entry)[done as int].phase, failure),
            },
            _ => next == self,
        }
    }

    /// A call that begins.
    pub fn begin(entry: EntryPoint) -> (state: Self)
        ensures
            state.well_formed(),
            state.is_after(entry, 0),
    {
        if plan(entry).len() == 0 {
            CallState::Returned
        } else {
            CallState::Pending { entry, done: 0 }
        }
    }

    /// The step that is due; none, once the call has ended.
    pub fn due(&self) -> (due: Option<PlannedStep>)
        requires
            self.well_formed(),
        ensures
            due == self.due_step(),
    {
        match self {
            CallState::Pending { entry, done } => Some(plan(*entry)[*done]),
            CallState::Returned => None,
            CallState::Raised { .. } => None,
        }
    }

    /// Takes the outcome of the step that was due. A failure ends the call: an error that Python
    /// raised is raised again, and one of the engine's own becomes an exception with its debug text.
    /// A call that has ended stays as it is.
    pub fn advance<D: std::fmt::Debug>(self, outcome: Result<(), StepFailure<E, D>>) -> (next:
        Self)
        requires
            self.well_formed(),
        ensures
            next.well_formed(),
            self.steps_to(outcome, next),
    {
        match self {
            CallState::Pending { entry, done } => {
                let steps = plan(entry);
                match outcome {
                    Ok(_) => {
                        if done + 1 < steps.len() {
                            CallState::Pending { entry, done: done + 1 }
                        } else {
                            CallState::Returned
                        }
                    },
                    Err(StepFailure::Python(error)) => CallState::Raised {
                        phase: steps[done].phase,
                        error: Raised::Python(error),
                    },
                    Err(StepFailure::Engine(err)) => {
                        let raised: Result<(), PyException> = Err::<(), D>(err).into_py_result();
                        match raised {
                            Ok(_) => vstd::pervasive::unreached(),
                            Err(exception) => CallState::Raised {
                                phase: steps[done].phase,
                                error: Raised::Exception(exception),
                            },
                        }
                    },
                }
            },
            ended => ended,
        }
    }
}

} // verus!
