//! What a flow is made of, as far as rendering it reads.

use vstd::prelude::*;

verus! {

/// How much of a spec its formatted text shows.
#[derive(Debug, Clone, Copy, PartialEq, Eq, Structural)]
pub enum OutputMode {
    Concise,
    Verbose,
}

/// The formatted text of one spec, in each output mode.
#[derive(Debug)]
pub struct SpecText {
    pub concise: String,
    pub verbose: String,
}

impl SpecText {
    /// The text in the given mode.
    pub open spec fn formatted(self, mode: OutputMode) -> Seq<char> {
        match mode {
            OutputMode::Concise => self.concise@,
            OutputMode::Verbose => self.verbose@,
        }
    }

    /// Formats the spec in the given mode.
    pub fn format(&self, mode: OutputMode) -> (text: String)
        ensures
            text@ == self.formatted(mode),
    {
        match mode {
            OutputMode::Concise => self.concise.clone(),
            OutputMode::Verbose => self.verbose.clone(),
        }
    }
}

/// A spec under the name that the flow gives it.
#[derive(Debug)]
pub struct NamedSpec<S> {
    pub name: String,
    pub spec: S,
}

/// The operations that run for each row of a table.
#[derive(Debug)]
pub struct ReactiveOpScope {
    pub ops: Vec<NamedSpec<ReactiveOpSpec>>,
}

/// An operation that runs its scope for each row of a table.
#[derive(Debug)]
pub struct ForEachOpSpec {
    pub text: SpecText,
    pub op_scope: ReactiveOpScope,
}

/// One operation of a flow: either it nests others, or it stands alone.
#[derive(Debug)]
pub enum ReactiveOpSpec {
    ForEach(ForEachOpSpec),
    Leaf(SpecText),
}

impl ReactiveOpSpec {
    /// The text in the given mode.
    pub open spec fn formatted(self, mode: OutputMode) -> Seq<char> {
        match self {
            ReactiveOpSpec::ForEach(for_each) => for_each.text.formatted(mode),
            ReactiveOpSpec::Leaf(text) => text.formatted(mode),
        }
    }

    /// Formats the spec in the given mode.
    pub fn format(&self, mode: OutputMode) -> (text: String)
        ensures
            text@ == self.formatted(mode),
    {
        match self {
            ReactiveOpSpec::ForEach(for_each) => for_each.text.format(mode),
            ReactiveOpSpec::Leaf(text) => text.format(mode),
        }
    }
}

/// The spec of a flow: its operations by their part in it, and the document that it is written as.
#[derive(Debug)]
pub struct FlowInstanceSpec {
    pub name: String,
    pub import_ops: Vec<NamedSpec<SpecText>>,
    pub reactive_ops: Vec<NamedSpec<ReactiveOpSpec>>,
    pub export_ops: Vec<NamedSpec<SpecText>>,
    pub declarations: Vec<SpecText>,
    pub document: serde_json::Value,
}

} // verus!
