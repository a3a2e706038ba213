//! Changes to what flows have set up outside the engine.

use vstd::prelude::*;

use crate::errors::PyException;
#[allow(unused_imports)]
use crate::text::texts;

verus! {

/// Whether flows are to be set up or dropped.
#[derive(Debug, Clone, Copy, PartialEq, Eq, Structural)]
pub enum FlowSetupChangeAction {
    Setup,
    Drop,
}

/// One change, to be made for each of the named flows.
#[derive(Debug)]
pub struct SetupChangeBundle {
    pub action: FlowSetupChangeAction,
    pub flow_names: Vec<String>,
}

/// What a bundle asks for: the change, and the names of the flows, in their order.
pub ghost struct Bundle {
    pub action: FlowSetupChangeAction,
    pub flow_names: Seq<Seq<char>>,
}

impl View for SetupChangeBundle {
    type V = Bundle;

    open spec fn view(&self) -> Bundle {
        Bundle { action: self.action, flow_names: texts(self.flow_names@) }
    }
}

/// To set up the named flows.
pub open spec fn setup_of(flow_names: Seq<Seq<char>>) -> Bundle {
    Bundle { action: FlowSetupChangeAction::Setup, flow_names }
}

/// To drop the named flows.
pub open spec fn drop_of(flow_names: Seq<Seq<char>>) -> Bundle {
    Bundle { action: FlowSetupChangeAction::Drop, flow_names }
}

/// A bundle that sets up the named flows.
pub fn make_setup_bundle(flow_names: Vec<String>) -> (bundle: Result<
    SetupChangeBundle,
    PyException,
>)
    ensures
        bundle matches Ok(made) && made@ == setup_of(texts(flow_names@)),
        bundle matches Ok(made) && made.action == FlowSetupChangeAction::Setup && made.flow_names@
            == flow_names@,
{
    Ok(SetupChangeBundle { action: FlowSetupChangeAction::Setup, flow_names })
}

/// A bundle that drops the named flows.
pub fn make_drop_bundle(flow_names: Vec<String>) -> (bundle: Result<
    SetupChangeBundle,
    PyException,
>)
    ensures
        bundle matches Ok(made) && made@ == drop_of(texts(flow_names@)),
        bundle matches Ok(made) && made.action == FlowSetupChangeAction::Drop && made.flow_names@
            == flow_names@,
{
    Ok(SetupChangeBundle { action: FlowSetupChangeAction::Drop, flow_names })
}

/// Where the report on an applied bundle goes.
#[derive(Debug, Clone, Copy, PartialEq, Eq, Structural)]
pub enum ReportTarget {
    Stdout,
    Sink,
}

/// Where the report goes, by whether the caller wants to see it.
pub open spec fn target_of_report(report_to_stdout: bool) -> ReportTarget {
    if report_to_stdout {
        ReportTarget::Stdout
    } else {
        ReportTarget::Sink
    }
}

/// Picks where the report on an applied bundle goes.
pub fn report_target(report_to_stdout: bool) -> (target: ReportTarget)
    ensures
        target == target_of_report(report_to_stdout),
        report_to_stdout <==> target is Stdout,
{
    if report_to_stdout {
        ReportTarget::Stdout
    } else {
        ReportTarget::Sink
    }
}

/// The setup states of all flows, by flow name, in the order of the names' listing. No flow has
/// two of them.
#[derive(Debug)]
pub struct AllSetupStates<S> {
    pub flows: Vec<(String, S)>,
}

impl<S> AllSetupStates<S> {
    /// The names of the flows, in their order.
    pub open spec fn names(self) -> Seq<Seq<char>> {
        Seq::new(self.flows@.len(), |i: int| self.flows@[i].0@)
    }

    /// No flow stands here twice.
    pub open spec fn well_formed(self) -> bool {
        self.names().no_duplicates()
    }

    /// The names of the flows that have a setup state, in their order.
    pub fn flow_names(&self) -> (flow_names: Vec<String>)
        ensures
            texts(flow_names@) == self.names(),
            flow_names@.len() == self.flows@.len(),
            forall|i: int|
                0 <= i < self.flows@.len() ==> (#[trigger] flow_names@[i])@ == self.flows@[i].0@,
            self.well_formed() ==> texts(flow_names@).no_duplicates(),
    {
        let mut flow_names: Vec<String> = Vec::new();
        for i in 0..self.flows.len()
            invariant
                flow_names@.len() == i,
                forall|j: int| 0 <= j < i ==> (#[trigger] flow_names@[j])@ == self.flows@[j].0@,
        {
            flow_names.push(self.flows[i].0.clone());
        }
        assert(texts(flow_names@) =~= self.names());
        flow_names
    }
}

} // verus!
