//! What a live updater tells Python.

use vstd::prelude::*;

#[allow(unused_imports)]
use crate::text::texts;

verus! {

/// The statistics of an index update, by the text that they display as.
#[derive(Debug)]
pub struct IndexUpdateInfo {
    pub text: String,
}

impl IndexUpdateInfo {
    /// The statistics as text.
    pub fn __str__(&self) -> (text: String)
        ensures
            text@ == self.text@,
    {
        self.text.clone()
    }

    /// The same text as `__str__`.
    pub fn __repr__(&self) -> (text: String)
        ensures
            text@ == self.text@,
    {
        self.__str__()
    }
}

/// The sources of a live updater: those that it still watches, and those that changed.
#[derive(Debug)]
pub struct FlowLiveUpdaterUpdates {
    pub active_sources: Vec<String>,
    pub updated_sources: Vec<String>,
}

impl FlowLiveUpdaterUpdates {
    /// The sources that are still watched.
    pub fn active_sources(&self) -> (sources: Vec<String>)
        ensures
            texts(sources@) == texts(self.active_sources@),
            sources@.len() == self.active_sources@.len(),
            forall|i: int|
                0 <= i < sources@.len() ==> (#[trigger] sources@[i])@ == self.active_sources@[i]@,
    {
        let sources = self.active_sources.clone();
        assert(texts(sources@) =~= texts(self.active_sources@));
        sources
    }

    /// The sources that changed.
    pub fn updated_sources(&self) -> (sources: Vec<String>)
        ensures
            texts(sources@) == texts(self.updated_sources@),
            sources@.len() == self.updated_sources@.len(),
            forall|i: int|
                0 <= i < sources@.len() ==> (#[trigger] sources@[i])@ == self.updated_sources@[i]@,
    {
        let sources = self.updated_sources.clone();
        assert(texts(sources@) =~= texts(self.updated_sources@));
        sources
    }
}

} // verus!
