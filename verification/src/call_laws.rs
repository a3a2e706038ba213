//! What holds of every call.

use vstd::prelude::*;

#[allow(unused_imports)]
use crate::calls::{
    can_end_in, can_fail, fails_in_python, plan, plan_of, CallState, EntryPoint, PlannedStep, Raised,
    Step, StepFailure,
};
#[allow(unused_imports)]
use crate::errors::debug_text;
#[allow(unused_imports)]
use crate::setup::ReportTarget;

verus! {

/// The states that a call of `entry` goes through as it takes `outcomes`, one after the other.
pub open spec fn is_run<E, D: std::fmt::Debug>(
    entry: EntryPoint,
    outcomes: Seq<Result<(), StepFailure<E, D>>>,
    states: Seq<CallState<E>>,
) -> bool {
    &&& states.len() == outcomes.len() + 1
    &&& states[0].is_after(entry, 0)
    &&& forall|i: int, j: int|
        0 <= i < outcomes.len() && j == i + 1 ==> (#[trigger] states[i]).steps_to(
            outcomes[i],
            #[trigger] states[j],
        )
}

/// The first `count` of `outcomes` went well.
pub open spec fn went_well<E, D: std::fmt::Debug>(
    outcomes: Seq<Result<(), StepFailure<E, D>>>,
    count: int,
) -> bool {
    forall|i: int| 0 <= i < count ==> (#[trigger] outcomes[i]) is Ok
}

/// While all goes well, the steps of the plan are due one after the other, each of them once, and
/// after the last the call returns.
pub proof fn lemma_steps_come_in_order<E, D: std::fmt::Debug>(
    entry: EntryPoint,
    outcomes: Seq<Result<(), StepFailure<E, D>>>,
    states: Seq<CallState<E>>,
    count: int,
)
    requires
        is_run(entry, outcomes, states),
        0 <= count <= outcomes.len(),
        went_well(outcomes, count),
    ensures
        count < plan_of(entry).len() ==> states[count].due_step() == Some(plan_of(entry)[count]),
        count >= plan_of(entry).len() ==> states[count] is Returned,
{
    lemma_state_after_successes(entry, outcomes, states, count);
}

proof fn lemma_state_after_successes<E, D: std::fmt::Debug>(
    entry: EntryPoint,
    outcomes: Seq<Result<(), StepFailure<E, D>>>,
    states: Seq<CallState<E>>,
    count: int,
)
    requires
        is_run(entry, outcomes, states),
        0 <= count <= outcomes.len(),
        went_well(outcomes, count),
    ensures
        states[count].is_after(entry, count),
    decreases count,
{
    if count > 0 {
        lemma_state_after_successes(entry, outcomes, states, count - 1);
        assert(outcomes[count - 1] is Ok);
        assert(states[count - 1].steps_to(outcomes[count - 1], states[count]));
    }
}

/// The first step that fails ends the call: what it failed with is raised in that step's phase, and
/// no outcome that is reported later changes it.
pub proof fn lemma_first_failure_ends_the_call<E, D: std::fmt::Debug>(
    entry: EntryPoint,
    outcomes: Seq<Result<(), StepFailure<E, D>>>,
    states: Seq<CallState<E>>,
    failed: int,
    failure: StepFailure<E, D>,
    later: int,
)
    requires
        is_run(entry, outcomes, states),
        0 <= failed < outcomes.len(),
        failed < plan_of(entry).len(),
        went_well(outcomes, failed),
        outcomes[failed] == Err::<(), StepFailure<E, D>>(failure),
        failed < later <= outcomes.len(),
    ensures
        states[later].raised(plan_of(entry)[failed].phase, failure),
        states[later].due_step() is None,
    decreases later,
{
    if later == failed + 1 {
        lemma_state_after_successes(entry, outcomes, states, failed);
        assert(states[failed].steps_to(outcomes[failed], states[later]));
    } else {
        lemma_first_failure_ends_the_call(entry, outcomes, states, failed, failure, later - 1);
        assert(states[later - 1].steps_to(outcomes[later - 1], states[later]));
    }
}

/// Once Python awaits, nothing of the call is left to be done before it comes back.
pub proof fn lemma_phases_come_in_order(entry: EntryPoint, earlier: int, later: int)
    requires
        0 <= earlier <= later < plan_of(entry).len(),
        plan_of(entry)[earlier].phase is OnAwait,
    ensures
        plan_of(entry)[later].phase is OnAwait,
{
}

/// The step works on the library context.
pub open spec fn needs_context(step: Step) -> bool {
    match step {
        Step::RequireBuiltinDbPool => true,
        Step::RequirePersistenceCtx => true,
        Step::InitServer => true,
        Step::DescribeBundle => true,
        Step::ApplyBundle { .. } => true,
        _ => false,
    }
}

/// A step that works on the library context comes after the step that gets it.
pub proof fn lemma_context_comes_first(entry: EntryPoint, needing: int)
    requires
        0 <= needing < plan_of(entry).len(),
        needs_context(plan_of(entry)[needing].step),
    ensures
        exists|getting: int|
            0 <= getting < needing && (#[trigger] plan_of(entry)[getting]).step
                == Step::GetLibContext,
{
    let getting = if entry is EvaluateAndDump {
        1int
    } else {
        0int
    };
    assert(plan_of(entry)[getting].step == Step::GetLibContext);
}

/// Each of `outcomes` is one that the step at its place in the plan can have.
pub open spec fn keeps_to_plan<E, D: std::fmt::Debug>(
    entry: EntryPoint,
    outcomes: Seq<Result<(), StepFailure<E, D>>>,
) -> bool {
    forall|i: int|
        0 <= i < outcomes.len() && i < plan_of(entry).len() ==> can_end_in(
            plan_of(entry)[i].step,
            #[trigger] outcomes[i],
        )
}

/// The step at `failed` is the first that failed, and `state` raises what it failed with.
pub open spec fn raised_by<E, D: std::fmt::Debug>(
    entry: EntryPoint,
    outcomes: Seq<Result<(), StepFailure<E, D>>>,
    state: CallState<E>,
    failed: int,
) -> bool {
    &&& 0 <= failed < outcomes.len()
    &&& failed < plan_of(entry).len()
    &&& went_well(outcomes, failed)
    &&& outcomes[failed] is Err
    &&& state.raised(plan_of(entry)[failed].phase, outcomes[failed]->Err_0)
}

/// A call that raised did so because of one step, the first that failed.
pub proof fn lemma_raising_has_a_cause<E, D: std::fmt::Debug>(
    entry: EntryPoint,
    outcomes: Seq<Result<(), StepFailure<E, D>>>,
    states: Seq<CallState<E>>,
    at: int,
)
    requires
        is_run(entry, outcomes, states),
        0 <= at < states.len(),
        states[at] is Raised,
    ensures
        exists|failed: int| #[trigger]
            raised_by(entry, outcomes, states[at], failed) && failed < at,
{
    let failed = lemma_first_failure_before(entry, outcomes, states, at);
    lemma_first_failure_ends_the_call(
        entry,
        outcomes,
        states,
        failed,
        outcomes[failed]->Err_0,
        at,
    );
    assert(raised_by(entry, outcomes, states[at], failed));
}

/// Before a state in which the call has raised, some step was the first that failed.
proof fn lemma_first_failure_before<E, D: std::fmt::Debug>(
    entry: EntryPoint,
    outcomes: Seq<Result<(), StepFailure<E, D>>>,
    states: Seq<CallState<E>>,
    at: int,
) -> (failed: int)
    requires
        is_run(entry, outcomes, states),
        0 <= at < states.len(),
        states[at] is Raised,
    ensures
        0 <= failed < at,
        failed < plan_of(entry).len(),
        went_well(outcomes, failed),
        outcomes[failed] is Err,
    decreases at,
{
    if at == 0 {
        arbitrary()
    } else if states[at - 1] is Raised {
        lemma_first_failure_before(entry, outcomes, states, at - 1)
    } else {
        assert(states[at - 1].steps_to(outcomes[at - 1], states[at]));
        lemma_pending_means_all_went_well(entry, outcomes, states, at - 1);
        at - 1
    }
}

/// While a call is pending, every step so far went well.
proof fn lemma_pending_means_all_went_well<E, D: std::fmt::Debug>(
    entry: EntryPoint,
    outcomes: Seq<Result<(), StepFailure<E, D>>>,
    states: Seq<CallState<E>>,
    at: int,
)
    requires
        is_run(entry, outcomes, states),
        0 <= at < states.len(),
        states[at] is Pending,
    ensures
        went_well(outcomes, at),
        states[at].is_after(entry, at),
        at < plan_of(entry).len(),
    decreases at,
{
    if at > 0 {
        assert(states[at - 1].steps_to(outcomes[at - 1], states[at]));
        lemma_pending_means_all_went_well(entry, outcomes, states, at - 1);
    }
}

/// A call raises only from a step that can fail. It raises Python's own error where that step
/// converts values from or to Python, and an exception that words the engine's error elsewhere.
pub proof fn lemma_only_failing_steps_raise<E, D: std::fmt::Debug>(
    entry: EntryPoint,
    outcomes: Seq<Result<(), StepFailure<E, D>>>,
    states: Seq<CallState<E>>,
    at: int,
)
    requires
        is_run(entry, outcomes, states),
        keeps_to_plan(entry, outcomes),
        0 <= at < states.len(),
        states[at] is Raised,
    ensures
        exists|failed: int| #[trigger]
            raised_by(entry, outcomes, states[at], failed) && failed < at && can_fail(
                plan_of(entry)[failed].step,
            ) && (states[at]->error is Python <==> fails_in_python(plan_of(entry)[failed].step)),
{
    lemma_raising_has_a_cause(entry, outcomes, states, at);
    let failed = choose|failed: int| #[trigger]
        raised_by(entry, outcomes, states[at], failed) && failed < at;
    assert(can_end_in(plan_of(entry)[failed].step, outcomes[failed]));
    assert(raised_by(entry, outcomes, states[at], failed));
}

/// An entry point none of whose steps can fail never raises: once its steps are done it has
/// returned.
pub proof fn lemma_sure_calls_return<E, D: std::fmt::Debug>(
    entry: EntryPoint,
    outcomes: Seq<Result<(), StepFailure<E, D>>>,
    states: Seq<CallState<E>>,
    at: int,
)
    requires
        is_run(entry, outcomes, states),
        keeps_to_plan(entry, outcomes),
        forall|i: int|
            0 <= i < plan_of(entry).len() ==> !can_fail((#[trigger] plan_of(entry)[i]).step),
        0 <= at < states.len(),
    ensures
        !(states[at] is Raised),
        at >= plan_of(entry).len() ==> states[at] is Returned,
{
    if states[at] is Raised {
        lemma_only_failing_steps_raise(entry, outcomes, states, at);
    } else if states[at] is Pending {
        lemma_pending_means_all_went_well(entry, outcomes, states, at);
    }
}

/// Stopping the engine never raises, and returns once the context is cleared.
pub proof fn lemma_stop_never_raises<E, D: std::fmt::Debug>(
    outcomes: Seq<Result<(), StepFailure<E, D>>>,
    states: Seq<CallState<E>>,
    at: int,
)
    requires
        is_run(EntryPoint::Stop, outcomes, states),
        keeps_to_plan(EntryPoint::Stop, outcomes),
        0 <= at < states.len(),
    ensures
        !(states[at] is Raised),
        at >= 1 ==> states[at] is Returned,
{
    lemma_sure_calls_return(EntryPoint::Stop, outcomes, states, at);
}

/// Removing a flow's context never raises: it returns at once where no library context is set, and
/// after its one step where there is one.
pub proof fn lemma_removing_a_flow_context_never_raises<E, D: std::fmt::Debug>(
    context_set: bool,
    outcomes: Seq<Result<(), StepFailure<E, D>>>,
    states: Seq<CallState<E>>,
    at: int,
)
    requires
        is_run((EntryPoint::RemoveFlowContext { context_set }), outcomes, states),
        keeps_to_plan((EntryPoint::RemoveFlowContext { context_set }), outcomes),
        0 <= at < states.len(),
    ensures
        !(states[at] is Raised),
        !context_set || at >= 1 ==> states[at] is Returned,
{
    lemma_sure_calls_return(EntryPoint::RemoveFlowContext { context_set }, outcomes, states, at);
}

/// Starting the server raises only where there is no library context or the server cannot be
/// initialized; listing the flows that are set up, only where there is no library context or no
/// persistence. What is left after that cannot fail.
pub proof fn lemma_last_step_cannot_raise<E, D: std::fmt::Debug>(
    entry: EntryPoint,
    outcomes: Seq<Result<(), StepFailure<E, D>>>,
    states: Seq<CallState<E>>,
    at: int,
)
    requires
        entry is StartServer || entry is FlowNamesWithSetupAsync,
        is_run(entry, outcomes, states),
        keeps_to_plan(entry, outcomes),
        0 <= at < states.len(),
    ensures
        states[at] is Raised ==> states[at]->error is Exception && (raised_by(
            entry,
            outcomes,
            states[at],
            0,
        ) || raised_by(entry, outcomes, states[at], 1)),
        at >= 3 && outcomes[0] is Ok && outcomes[1] is Ok ==> states[at] is Returned,
{
    if states[at] is Raised {
        lemma_only_failing_steps_raise(entry, outcomes, states, at);
        let failed = choose|failed: int| #[trigger]
            raised_by(entry, outcomes, states[at], failed) && failed < at && can_fail(
                plan_of(entry)[failed].step,
            ) && (states[at]->error is Python <==> fails_in_python(plan_of(entry)[failed].step));
        assert(failed == 0 || failed == 1 || failed == 2);
    } else if states[at] is Pending {
        lemma_pending_means_all_went_well(entry, outcomes, states, at);
    }
}

/// A call begins with the first step of its plan, and has returned already where there is none.
pub proof fn lemma_calls_begin_at_the_start<E>(
    entry: EntryPoint,
    steps: Vec<PlannedStep>,
    state: CallState<E>,
)
    requires
        call_ensures(plan, (entry,), steps),
        call_ensures(CallState::<E>::begin, (entry,), state),
    ensures
        steps@.len() == 0 ==> state is Returned,
        steps@.len() > 0 ==> state == (CallState::<E>::Pending { entry, done: 0 }),
{
}

/// The step that is due is the one behind those that are done; nothing is due once a call has
/// ended.
pub proof fn lemma_due_is_the_next_step<E>(
    entry: EntryPoint,
    steps: Vec<PlannedStep>,
    state: CallState<E>,
    due: Option<PlannedStep>,
)
    requires
        call_ensures(plan, (entry,), steps),
        call_ensures(CallState::<E>::due, (&state,), due),
    ensures
        state is Pending && state->entry == entry && state->done < steps@.len() ==> due == Some(
            steps@[state->done as int],
        ),
        !(state is Pending) ==> due is None,
{
}

/// A step that went well is done: the one behind it is due, or else the call has returned.
pub proof fn lemma_success_moves_on<E, D: std::fmt::Debug>(
    entry: EntryPoint,
    done: usize,
    steps: Vec<PlannedStep>,
    next: CallState<E>,
)
    requires
        call_ensures(plan, (entry,), steps),
        done < steps@.len(),
        call_ensures(
            CallState::<E>::advance::<D>,
            ((CallState::<E>::Pending { entry, done }), Ok::<(), StepFailure<E, D>>(())),
            next,
        ),
    ensures
        done + 1 < steps@.len() ==> next is Pending && next->entry == entry && next->done == done
            + 1,
        done + 1 == steps@.len() ==> next is Returned,
{
}

/// A step that failed ends the call in the phase that the step belongs to. An error that Python
/// raised is raised as it is; one of the engine's own is raised as an exception whose message is
/// what writing the error for debugging gives.
pub proof fn lemma_failure_is_raised<E, D: std::fmt::Debug>(
    entry: EntryPoint,
    done: usize,
    steps: Vec<PlannedStep>,
    failure: StepFailure<E, D>,
    next: CallState<E>,
)
    requires
        call_ensures(plan, (entry,), steps),
        done < steps@.len(),
        call_ensures(
            CallState::<E>::advance::<D>,
            ((CallState::<E>::Pending { entry, done }), Err::<(), StepFailure<E, D>>(failure)),
            next,
        ),
    ensures
        next is Raised,
        next->phase == steps@[done as int].phase,
        failure is Python ==> next->error is Python && next->error->Python_0
            == failure->Python_0,
        failure is Engine ==> next->error is Exception && exists|text: String| #[trigger]
            call_ensures(debug_text::<D>, (&failure->Engine_0,), text) && text@
                == next->error->Exception_0.message@,
{
}

/// No outcome changes a call that has ended.
pub proof fn lemma_ended_calls_stay<E, D: std::fmt::Debug>(
    state: CallState<E>,
    outcome: Result<(), StepFailure<E, D>>,
    next: CallState<E>,
)
    requires
        !(state is Pending),
        call_ensures(CallState::<E>::advance::<D>, (state, outcome), next),
    ensures
        next == state,
{
}

/// No step is performed twice in one call.
pub proof fn lemma_no_step_comes_twice(
    entry: EntryPoint,
    steps: Vec<PlannedStep>,
    i: int,
    j: int,
)
    requires
        call_ensures(plan, (entry,), steps),
        0 <= i < j < steps@.len(),
    ensures
        steps@[i].step != steps@[j].step,
{
}

/// Every call ends with the step that it is made for.
pub proof fn lemma_plans_end_with_their_purpose(entry: EntryPoint, steps: Vec<PlannedStep>)
    requires
        call_ensures(plan, (entry,), steps),
    ensures
        entry is RemoveFlowContext && !entry->context_set <==> steps@.len() == 0,
        steps@.len() > 0 ==> steps@.last().step == match entry {
            EntryPoint::Init => Step::InitLibContext,
            EntryPoint::StartServer => Step::SpawnServer,
            EntryPoint::Stop => Step::ClearLibContext,
            EntryPoint::RegisterFunctionFactory => Step::RegisterFactory,
            EntryPoint::CreateLiveUpdater => Step::StartLiveUpdater,
            EntryPoint::WaitAsync => Step::WaitForLiveUpdater,
            EntryPoint::NextStatusUpdatesAsync => Step::NextStatusUpdates,
            EntryPoint::EvaluateAndDump => Step::EvaluateAndDump,
            EntryPoint::EvaluateAsync => Step::ValueToPython,
            EntryPoint::DescribeAsync => Step::DescribeBundle,
            EntryPoint::ApplyAsync { report_to_stdout: true } => Step::ApplyBundle {
                report: ReportTarget::Stdout,
            },
            EntryPoint::ApplyAsync { report_to_stdout: false } => Step::ApplyBundle {
                report: ReportTarget::Sink,
            },
            EntryPoint::FlowNamesWithSetupAsync => Step::ReadSetupStates,
            EntryPoint::RemoveFlowContext { .. } => Step::RemoveFlowContext,
            EntryPoint::AddAuthEntry => Step::AddAuthEntry,
            EntryPoint::SederRoundtrip => Step::ValueToPython,
        },
{
}

/// Before the step that it is made for, a call does what that step needs and nothing more: in most
/// calls that is nothing.
pub proof fn lemma_plans_get_what_is_needed(entry: EntryPoint, steps: Vec<PlannedStep>)
    requires
        call_ensures(plan, (entry,), steps),
    ensures
        match entry {
            EntryPoint::StartServer => {
                &&& steps@.len() == 3
                &&& steps@[0].step == Step::GetLibContext
                &&& steps@[1].step == Step::InitServer
            },
            EntryPoint::CreateLiveUpdater => {
                &&& steps@.len() == 3
                &&& steps@[0].step == Step::GetLibContext
                &&& steps@[1].step == Step::RequireBuiltinDbPool
            },
            EntryPoint::EvaluateAndDump => {
                &&& steps@.len() == 5
                &&& steps@[0].step == Step::GetExecutionPlan
                &&& steps@[1].step == Step::GetLibContext
                &&& steps@[2].step == Step::UseExecutionCtx
                &&& steps@[3].step == Step::RequireBuiltinDbPool
            },
            EntryPoint::EvaluateAsync => {
                &&& steps@.len() == 3
                &&& steps@[0].step == Step::ValuesFromPython
                &&& steps@[1].step == Step::EvaluateTransientFlow
            },
            EntryPoint::DescribeAsync => {
                &&& steps@.len() == 2
                &&& steps@[0].step == Step::GetLibContext
            },
            EntryPoint::ApplyAsync { .. } => {
                &&& steps@.len() == 2
                &&& steps@[0].step == Step::GetLibContext
            },
            EntryPoint::FlowNamesWithSetupAsync => {
                &&& steps@.len() == 3
                &&& steps@[0].step == Step::GetLibContext
                &&& steps@[1].step == Step::RequirePersistenceCtx
            },
            EntryPoint::SederRoundtrip => {
                &&& steps@.len() == 3
                &&& steps@[0].step == Step::ValuesFromPython
                &&& steps@[1].step == Step::RoundtripValue
            },
            _ => steps@.len() <= 1,
        },
{
}

/// What Python awaits is done on await, but for what the arguments are turned into and the context
/// that a bundle works in, which are got at the call; everything else is done at the call.
pub proof fn lemma_phases_follow_the_entry_point(
    entry: EntryPoint,
    steps: Vec<PlannedStep>,
    i: int,
)
    requires
        call_ensures(plan, (entry,), steps),
        0 <= i < steps@.len(),
    ensures
        steps@[i].phase is OnAwait <==> (match entry {
            EntryPoint::CreateLiveUpdater => true,
            EntryPoint::WaitAsync => true,
            EntryPoint::NextStatusUpdatesAsync => true,
            EntryPoint::FlowNamesWithSetupAsync => true,
            EntryPoint::EvaluateAsync => i > 0,
            EntryPoint::DescribeAsync => i > 0,
            EntryPoint::ApplyAsync { .. } => i > 0,
            _ => false,
        }),
{
}

} // verus!
