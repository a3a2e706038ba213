use cocoindex_engine::context::PythonExecutionContext;
use cocoindex_engine::live::{FlowLiveUpdaterUpdates, IndexUpdateInfo};

#[test]
fn updates_hand_out_their_sources() {
    let updates = FlowLiveUpdaterUpdates {
        active_sources: vec!["s3".to_string(), "drive".to_string()],
        updated_sources: vec!["drive".to_string()],
    };
    assert_eq!(updates.active_sources(), vec!["s3", "drive"]);
    assert_eq!(updates.updated_sources(), vec!["drive"]);
}

#[test]
fn update_info_prints_its_text() {
    let info = IndexUpdateInfo {
        text: "documents: 3 added".to_string(),
    };
    assert_eq!(info.__str__(), "documents: 3 added");
    assert_eq!(info.__repr__(), info.__str__());
}

#[test]
fn contexts_keep_their_event_loop() {
    assert_eq!(PythonExecutionContext::new(17).event_loop, 17);
}
