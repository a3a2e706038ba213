use cocoindex_engine::setup::{
    make_drop_bundle, make_setup_bundle, report_target, AllSetupStates, FlowSetupChangeAction,
    ReportTarget,
};

#[test]
fn bundles_keep_the_names_in_order() {
    let names = vec!["b".to_string(), "a".to_string(), "b".to_string()];
    let setup = make_setup_bundle(names.clone()).unwrap();
    assert_eq!(setup.action, FlowSetupChangeAction::Setup);
    assert_eq!(setup.flow_names, names);
    let drop = make_drop_bundle(names.clone()).unwrap();
    assert_eq!(drop.action, FlowSetupChangeAction::Drop);
    assert_eq!(drop.flow_names, names);
    assert!(make_setup_bundle(vec![]).unwrap().flow_names.is_empty());
}

#[test]
fn reports_go_where_they_are_wanted() {
    assert_eq!(report_target(true), ReportTarget::Stdout);
    assert_eq!(report_target(false), ReportTarget::Sink);
}

#[test]
fn lists_the_flows_that_are_set_up() {
    let states = AllSetupStates {
        flows: vec![("one".to_string(), 1), ("two".to_string(), 2)],
    };
    assert_eq!(states.flow_names(), vec!["one", "two"]);
    let none: AllSetupStates<()> = AllSetupStates { flows: vec![] };
    assert!(none.flow_names().is_empty());
}
