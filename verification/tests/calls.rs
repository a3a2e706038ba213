use cocoindex_engine::calls::{
    plan, CallState, EntryPoint, Phase, PlannedStep, Raised, Step, StepFailure,
};
use cocoindex_engine::setup::ReportTarget;

fn now(step: Step) -> PlannedStep {
    PlannedStep {
        step,
        phase: Phase::AtCall,
    }
}

fn later(step: Step) -> PlannedStep {
    PlannedStep {
        step,
        phase: Phase::OnAwait,
    }
}

fn done() -> Result<(), StepFailure<u8, String>> {
    Ok(())
}

fn raised_in_python(err: u8) -> Result<(), StepFailure<u8, String>> {
    Err(StepFailure::Python(err))
}

fn failed_in_engine(err: &str) -> Result<(), StepFailure<u8, String>> {
    Err(StepFailure::Engine(err.to_string()))
}

fn performed(entry: EntryPoint) -> Vec<PlannedStep> {
    let mut state: CallState<u8> = CallState::begin(entry);
    let mut steps = Vec::new();
    while let Some(due) = state.due() {
        steps.push(due);
        state = state.advance(done());
    }
    assert!(matches!(state, CallState::Returned));
    steps
}

#[test]
fn dumping_gets_everything_before_it_dumps() {
    let expected = vec![
        now(Step::GetExecutionPlan),
        now(Step::GetLibContext),
        now(Step::UseExecutionCtx),
        now(Step::RequireBuiltinDbPool),
        now(Step::EvaluateAndDump),
    ];
    assert_eq!(plan(EntryPoint::EvaluateAndDump), expected);
    assert_eq!(performed(EntryPoint::EvaluateAndDump), expected);
}

#[test]
fn a_live_updater_is_created_on_await() {
    assert_eq!(
        performed(EntryPoint::CreateLiveUpdater),
        vec![
            later(Step::GetLibContext),
            later(Step::RequireBuiltinDbPool),
            later(Step::StartLiveUpdater),
        ]
    );
}

#[test]
fn the_context_of_a_bundle_is_got_at_the_call() {
    assert_eq!(
        performed(EntryPoint::DescribeAsync),
        vec![now(Step::GetLibContext), later(Step::DescribeBundle)]
    );
    assert_eq!(
        performed(EntryPoint::ApplyAsync {
            report_to_stdout: true
        })[1],
        later(Step::ApplyBundle {
            report: ReportTarget::Stdout
        })
    );
    assert_eq!(
        performed(EntryPoint::ApplyAsync {
            report_to_stdout: false
        })[1],
        later(Step::ApplyBundle {
            report: ReportTarget::Sink
        })
    );
}

#[test]
fn the_other_entry_points_have_their_steps() {
    assert_eq!(performed(EntryPoint::Init), vec![now(Step::InitLibContext)]);
    assert_eq!(
        performed(EntryPoint::StartServer),
        vec![
            now(Step::GetLibContext),
            now(Step::InitServer),
            now(Step::SpawnServer),
        ]
    );
    assert_eq!(performed(EntryPoint::Stop), vec![now(Step::ClearLibContext)]);
    assert_eq!(
        performed(EntryPoint::RegisterFunctionFactory),
        vec![now(Step::RegisterFactory)]
    );
    assert_eq!(
        performed(EntryPoint::WaitAsync),
        vec![later(Step::WaitForLiveUpdater)]
    );
    assert_eq!(
        performed(EntryPoint::NextStatusUpdatesAsync),
        vec![later(Step::NextStatusUpdates)]
    );
    assert_eq!(
        performed(EntryPoint::EvaluateAsync),
        vec![
            now(Step::ValuesFromPython),
            later(Step::EvaluateTransientFlow),
            later(Step::ValueToPython),
        ]
    );
    assert_eq!(
        performed(EntryPoint::FlowNamesWithSetupAsync),
        vec![
            later(Step::GetLibContext),
            later(Step::RequirePersistenceCtx),
            later(Step::ReadSetupStates),
        ]
    );
    assert_eq!(
        performed(EntryPoint::AddAuthEntry),
        vec![now(Step::AddAuthEntry)]
    );
    assert_eq!(
        performed(EntryPoint::SederRoundtrip),
        vec![
            now(Step::ValuesFromPython),
            now(Step::RoundtripValue),
            now(Step::ValueToPython),
        ]
    );
}

#[test]
fn removing_a_flow_context_needs_a_context() {
    assert_eq!(
        performed(EntryPoint::RemoveFlowContext { context_set: true }),
        vec![now(Step::RemoveFlowContext)]
    );
    assert!(performed(EntryPoint::RemoveFlowContext { context_set: false }).is_empty());
}

#[test]
fn a_failure_of_the_engine_becomes_an_exception() {
    let state: CallState<u8> = CallState::begin(EntryPoint::CreateLiveUpdater);
    let state = state.advance(done());
    let state = state.advance(failed_in_engine("no \"db\""));
    assert!(state.due().is_none());
    match state {
        CallState::Raised {
            phase,
            error: Raised::Exception(exception),
        } => {
            assert_eq!(phase, Phase::OnAwait);
            assert_eq!(exception.message, "\"no \\\"db\\\"\"");
        }
        other => panic!("{other:?}"),
    }
}

#[test]
fn a_failure_in_python_is_raised_again() {
    let state: CallState<u8> = CallState::begin(EntryPoint::EvaluateAsync);
    let state = state.advance(raised_in_python(9));
    match state {
        CallState::Raised {
            phase,
            error: Raised::Python(error),
        } => {
            assert_eq!(phase, Phase::AtCall);
            assert_eq!(error, 9);
        }
        other => panic!("{other:?}"),
    }
}

#[test]
fn a_call_that_has_ended_stays_as_it_is() {
    let state: CallState<u8> = CallState::begin(EntryPoint::Init);
    let state = state.advance(raised_in_python(9));
    let state = state.advance(done());
    assert!(matches!(
        state,
        CallState::Raised {
            error: Raised::Python(9),
            ..
        }
    ));
    let state: CallState<u8> = CallState::begin(EntryPoint::Init);
    let state = state.advance(done());
    let state = state.advance(raised_in_python(9));
    assert!(matches!(state, CallState::Returned));
}

#[test]
fn stopping_and_removing_return_after_their_one_step() {
    let state: CallState<u8> = CallState::begin(EntryPoint::Stop);
    assert!(matches!(state.advance(done()), CallState::Returned));
    let state: CallState<u8> = CallState::begin(EntryPoint::RemoveFlowContext { context_set: true });
    assert!(matches!(state.advance(done()), CallState::Returned));
}

#[test]
fn listing_flow_names_raises_from_its_first_two_steps() {
    for failing in 0..2 {
        let mut state: CallState<u8> = CallState::begin(EntryPoint::FlowNamesWithSetupAsync);
        for _ in 0..failing {
            state = state.advance(done());
        }
        let state = state.advance(failed_in_engine("gone"));
        assert!(matches!(
            state,
            CallState::Raised {
                phase: Phase::OnAwait,
                error: Raised::Exception(_)
            }
        ));
    }
}

#[test]
fn starting_the_server_raises_from_its_first_two_steps() {
    for failing in 0..2 {
        let mut state: CallState<u8> = CallState::begin(EntryPoint::StartServer);
        for _ in 0..failing {
            state = state.advance(done());
        }
        let state = state.advance(failed_in_engine("gone"));
        assert!(matches!(
            state,
            CallState::Raised {
                phase: Phase::AtCall,
                error: Raised::Exception(_)
            }
        ));
    }
}
