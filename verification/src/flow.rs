//! A flow, as Python sees it.

use vstd::prelude::*;

use crate::errors::PyException;
#[allow(unused_imports)]
use crate::json::pretty_json;
use crate::json::to_string_pretty;
use crate::render::render_spec;
#[allow(unused_imports)]
use crate::render::spec_sections;
use crate::rendered::RenderedSpec;
#[allow(unused_imports)]
use crate::schema::{fields_rows, row_views};
use crate::schema::{process_fields, FlowSchema};
#[allow(unused_imports)]
use crate::setup::{drop_of, setup_of};
use crate::setup::{FlowSetupChangeAction, SetupChangeBundle};
use crate::spec::{FlowInstanceSpec, OutputMode};
#[allow(unused_imports)]
use crate::text::texts;

verus! {

/// A flow that has been analyzed: its spec, and the schema of its data.
#[derive(Debug)]
pub struct Flow {
    pub flow_instance: FlowInstanceSpec,
    pub data_schema: FlowSchema,
}

/// The mode to render in, where the caller may leave it open.
pub open spec fn mode_or_default(output_mode: Option<OutputMode>) -> OutputMode {
    match output_mode {
        Some(mode) => mode,
        None => OutputMode::Concise,
    }
}

impl Flow {
    /// The spec of the flow, as indented JSON.
    pub fn __str__(&self) -> (text: String)
        ensures
            text@ == pretty_json(self.flow_instance.document),
    {
        to_string_pretty(&self.flow_instance.document)
    }

    /// The same text as `__str__`.
    pub fn __repr__(&self) -> (text: String)
        ensures
            text@ == pretty_json(self.flow_instance.document),
    {
        self.__str__()
    }

    /// The name of the flow.
    pub fn name(&self) -> (name: &str)
        ensures
            name@ == self.flow_instance.name@,
    {
        self.flow_instance.name.as_str()
    }

    /// Renders the spec of the flow, concisely unless asked otherwise.
    pub fn get_spec(&self, output_mode: Option<OutputMode>) -> (rendered: Result<
        RenderedSpec,
        PyException,
    >)
        ensures
            rendered matches Ok(spec) && spec@ == spec_sections(
                self.flow_instance,
                mode_or_default(output_mode),
            ),
    {
        let mode = match output_mode {
            Some(mode) => mode,
            None => OutputMode::Concise,
        };
        Ok(render_spec(&self.flow_instance, mode))
    }

    /// Lists the fields of the flow's data: where each one is, its type, and its attributes.
    pub fn get_schema(&self) -> (rows: Vec<(String, String, String)>)
        ensures
            row_views(rows@) == fields_rows(self.data_schema.schema.fields@, Seq::empty()),
            rows@.len() == fields_rows(self.data_schema.schema.fields@, Seq::empty()).len(),
            forall|i: int|
                0 <= i < rows@.len() ==> {
                    let row = fields_rows(self.data_schema.schema.fields@, Seq::empty())[i];
                    &&& (#[trigger] rows@[i]).0@ == row.name
                    &&& rows@[i].1@ == row.typ
                    &&& rows@[i].2@ == row.attrs
                },
    {
        proof {
            reveal_strlit("");
            assert(""@ =~= Seq::empty());
        }
        let mut rows: Vec<(String, String, String)> = Vec::new();
        process_fields(&self.data_schema.schema.fields, "", &mut rows);
        assert(row_views(rows@) =~= fields_rows(self.data_schema.schema.fields@, Seq::empty()));
        assert forall|i: int| 0 <= i < rows@.len() implies {
            let row = fields_rows(self.data_schema.schema.fields@, Seq::empty())[i];
            &&& (#[trigger] rows@[i]).0@ == row.name
            &&& rows@[i].1@ == row.typ
            &&& rows@[i].2@ == row.attrs
        } by {
            assert(row_views(rows@)[i] == fields_rows(
                self.data_schema.schema.fields@,
                Seq::empty(),
            )[i]);
        }
        rows
    }

    /// A bundle that sets up this flow alone.
    pub fn make_setup_action(&self) -> (bundle: SetupChangeBundle)
        ensures
            bundle@ == setup_of(seq![self.flow_instance.name@]),
            bundle.action == FlowSetupChangeAction::Setup,
            bundle.flow_names@.len() == 1,
            bundle.flow_names@[0]@ == self.flow_instance.name@,
    {
        let bundle = SetupChangeBundle {
            action: FlowSetupChangeAction::Setup,
            flow_names: vec![self.name().to_string()],
        };
        assert(bundle@.flow_names =~= seq![self.flow_instance.name@]);
        bundle
    }

    /// A bundle that drops this flow alone.
    pub fn make_drop_action(&self) -> (bundle: SetupChangeBundle)
        ensures
            bundle@ == drop_of(seq![self.flow_instance.name@]),
            bundle.action == FlowSetupChangeAction::Drop,
            bundle.flow_names@.len() == 1,
            bundle.flow_names@[0]@ == self.flow_instance.name@,
    {
        let bundle = SetupChangeBundle {
            action: FlowSetupChangeAction::Drop,
            flow_names: vec![self.name().to_string()],
        };
        assert(bundle@.flow_names =~= seq![self.flow_instance.name@]);
        bundle
    }
}

} // verus!
