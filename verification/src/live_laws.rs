//! What holds of everything a live updater tells.

use vstd::prelude::*;

#[allow(unused_imports)]
use crate::context::PythonExecutionContext;
#[allow(unused_imports)]
use crate::live::{FlowLiveUpdaterUpdates, IndexUpdateInfo};

verus! {

/// The sources that are handed out are all those of the updates, each in its place: the watched
/// ones as watched, and the changed ones as changed.
pub proof fn lemma_all_sources_are_told(
    updates: FlowLiveUpdaterUpdates,
    active: Vec<String>,
    updated: Vec<String>,
)
    requires
        call_ensures(FlowLiveUpdaterUpdates::active_sources, (&updates,), active),
        call_ensures(FlowLiveUpdaterUpdates::updated_sources, (&updates,), updated),
    ensures
        active@.len() == updates.active_sources@.len(),
        forall|i: int|
            0 <= i < active@.len() ==> (#[trigger] active@[i])@ == updates.active_sources@[i]@,
        updated@.len() == updates.updated_sources@.len(),
        forall|i: int|
            0 <= i < updated@.len() ==> (#[trigger] updated@[i])@ == updates.updated_sources@[i]@,
{
}

/// Both texts of the statistics are the statistics' own text.
pub proof fn lemma_info_texts_agree(info: IndexUpdateInfo, text: String, repr: String)
    requires
        call_ensures(IndexUpdateInfo::__str__, (&info,), text),
        call_ensures(IndexUpdateInfo::__repr__, (&info,), repr),
    ensures
        text@ == info.text@,
        repr@ == info.text@,
{
}

/// A context runs in the event loop that it was made with.
pub proof fn lemma_context_keeps_its_loop<L>(event_loop: L, context: PythonExecutionContext<L>)
    requires
        call_ensures(PythonExecutionContext::<L>::new, (event_loop,), context),
    ensures
        context.event_loop == event_loop,
{
}

} // verus!
