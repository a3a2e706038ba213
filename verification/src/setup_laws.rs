//! What holds of every bundle of setup changes, and of every listing of setup states.

use vstd::prelude::*;

#[allow(unused_imports)]
use crate::errors::PyException;
#[allow(unused_imports)]
use crate::flow::Flow;
#[allow(unused_imports)]
use crate::setup::{
    make_drop_bundle, make_setup_bundle, report_target, AllSetupStates, FlowSetupChangeAction,
    ReportTarget, SetupChangeBundle,
};

verus! {

/// Making a bundle to set up flows always works: the bundle sets up, and its flows are the given
/// ones, in the given order.
pub proof fn lemma_setup_bundle_sets_up(
    flow_names: Vec<String>,
    made: Result<SetupChangeBundle, PyException>,
)
    requires
        call_ensures(make_setup_bundle, (flow_names,), made),
    ensures
        made is Ok,
        made->Ok_0.action == FlowSetupChangeAction::Setup,
        made->Ok_0.flow_names@.len() == flow_names@.len(),
        forall|i: int|
            0 <= i < flow_names@.len() ==> (#[trigger] made->Ok_0.flow_names@[i])@
                == flow_names@[i]@,
{
}

/// Making a bundle to drop flows always works: the bundle drops, and its flows are the given ones,
/// in the given order.
pub proof fn lemma_drop_bundle_drops(
    flow_names: Vec<String>,
    made: Result<SetupChangeBundle, PyException>,
)
    requires
        call_ensures(make_drop_bundle, (flow_names,), made),
    ensures
        made is Ok,
        made->Ok_0.action == FlowSetupChangeAction::Drop,
        made->Ok_0.flow_names@.len() == flow_names@.len(),
        forall|i: int|
            0 <= i < flow_names@.len() ==> (#[trigger] made->Ok_0.flow_names@[i])@
                == flow_names@[i]@,
{
}

/// The two bundles for the same names differ in what they do and in nothing else.
pub proof fn lemma_bundles_differ_only_in_action(
    flow_names: Vec<String>,
    setup: Result<SetupChangeBundle, PyException>,
    dropped: Result<SetupChangeBundle, PyException>,
)
    requires
        call_ensures(make_setup_bundle, (flow_names,), setup),
        call_ensures(make_drop_bundle, (flow_names,), dropped),
    ensures
        setup->Ok_0.action != dropped->Ok_0.action,
        setup->Ok_0.flow_names@.len() == dropped->Ok_0.flow_names@.len(),
        forall|i: int|
            0 <= i < setup->Ok_0.flow_names@.len() ==> (#[trigger] setup->Ok_0.flow_names@[i])@
                == dropped->Ok_0.flow_names@[i]@,
{
    lemma_setup_bundle_sets_up(flow_names, setup);
    lemma_drop_bundle_drops(flow_names, dropped);
}

/// A flow's actions set up and drop that flow, and no other.
pub proof fn lemma_flow_actions_are_about_the_flow(
    flow: Flow,
    setup: SetupChangeBundle,
    dropped: SetupChangeBundle,
)
    requires
        call_ensures(Flow::make_setup_action, (&flow,), setup),
        call_ensures(Flow::make_drop_action, (&flow,), dropped),
    ensures
        setup.action == FlowSetupChangeAction::Setup,
        setup.flow_names@.len() == 1,
        setup.flow_names@[0]@ == flow.flow_instance.name@,
        dropped.action == FlowSetupChangeAction::Drop,
        dropped.flow_names@.len() == 1,
        dropped.flow_names@[0]@ == flow.flow_instance.name@,
{
}

/// The report on an applied bundle goes to the standard output exactly where the caller wants it
/// there.
pub proof fn lemma_report_goes_where_wanted(report_to_stdout: bool, target: ReportTarget)
    requires
        call_ensures(report_target, (report_to_stdout,), target),
    ensures
        report_to_stdout ==> target == ReportTarget::Stdout,
        !report_to_stdout ==> target == ReportTarget::Sink,
{
}

/// Every flow that has a setup state is listed, once for each state and at the state's place, and
/// nothing else is.
pub proof fn lemma_every_setup_state_is_listed<S>(
    states: AllSetupStates<S>,
    flow_names: Vec<String>,
)
    requires
        call_ensures(AllSetupStates::<S>::flow_names, (&states,), flow_names),
    ensures
        flow_names@.len() == states.flows@.len(),
        forall|i: int|
            0 <= i < states.flows@.len() ==> (#[trigger] flow_names@[i])@ == states.flows@[i].0@,
{
}

} // verus!
