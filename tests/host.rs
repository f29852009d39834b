use magnus::host::{
    dispatch, host_call, load_addon, load_all, AddonStatus, HostArg, HostCall, HostFn, Rejection,
    ScriptRun,
};
use magnus::registry::{ContentDefinition, ContentRegistry, RegistryError};

fn s(x: &str) -> String {
    x.to_string()
}

fn wolf() -> HostCall {
    HostCall::RegisterEntity { id: s("wolf"), icon: 'w' }
}

#[test]
fn print_and_finish_register_nothing() {
    let mut r = ContentRegistry::new();
    assert_eq!(dispatch(&mut r, &HostCall::Print { message: s("hi") }), Ok(()));
    assert_eq!(dispatch(&mut r, &HostCall::Finish), Ok(()));
    assert!(r.list().is_empty());
}

#[test]
fn herbalism_scenario() {
    let mut r = ContentRegistry::new();
    let run = ScriptRun {
        calls: vec![
            HostCall::RegisterAddon { id: s("herbalism"), description: s("herbs") },
            HostCall::RegisterDecoration { id: s("flower"), icon: '*', description: s("a flower") },
            HostCall::Finish,
        ],
        error: None,
    };
    let report = load_addon(&mut r, &run);
    assert_eq!(report.status, AddonStatus::Completed);
    assert!(report.rejected.is_empty());
    let list = r.list();
    assert_eq!(list.len(), 2);
    assert!(matches!(&list[0], ContentDefinition::Addon { id, .. } if id == "herbalism"));
    assert!(matches!(&list[1], ContentDefinition::Decoration { id, icon: '*', description }
        if id == "flower" && description == "a flower"));
}

#[test]
fn wolf_registered_twice_keeps_first() {
    let mut r = ContentRegistry::new();
    let runs = vec![
        ScriptRun { calls: vec![wolf()], error: None },
        ScriptRun {
            calls: vec![HostCall::RegisterEntity { id: s("wolf"), icon: 'W' }],
            error: None,
        },
    ];
    let reports = load_all(&mut r, &runs);
    assert_eq!(reports.len(), 2);
    assert!(reports[0].rejected.is_empty());
    assert_eq!(
        reports[1].rejected,
        vec![Rejection { call_index: 0, error: RegistryError::Duplicate }]
    );
    assert!(matches!(r.lookup(&s("wolf")), Some(ContentDefinition::Entity { icon: 'w', .. })));
    assert_eq!(r.list().len(), 1);
}

#[test]
fn failed_addon_keeps_its_registrations_and_does_not_block_the_next() {
    let mut r = ContentRegistry::new();
    let runs = vec![
        ScriptRun {
            calls: vec![HostCall::RegisterMelee { id: s("club") }],
            error: Some(s("syntax error at line 3")),
        },
        ScriptRun { calls: vec![wolf(), HostCall::Finish], error: None },
    ];
    let reports = load_all(&mut r, &runs);
    assert_eq!(reports[0].status, AddonStatus::Failed);
    assert_eq!(reports[1].status, AddonStatus::Completed);
    assert!(r.lookup(&s("club")).is_some());
    assert!(r.lookup(&s("wolf")).is_some());
}

#[test]
fn refused_call_does_not_stop_the_script() {
    let mut r = ContentRegistry::new();
    let run = ScriptRun {
        calls: vec![
            HostCall::RegisterMelee { id: s("") },
            wolf(),
            wolf(),
            HostCall::RegisterMelee { id: s("axe") },
        ],
        error: None,
    };
    let report = load_addon(&mut r, &run);
    assert_eq!(
        report.rejected,
        vec![
            Rejection { call_index: 0, error: RegistryError::InvalidDefinition },
            Rejection { call_index: 2, error: RegistryError::Duplicate },
        ]
    );
    assert_eq!(r.list().len(), 2);
}

#[test]
fn arguments_are_checked_against_the_schema() {
    let good = host_call(HostFn::RegisterEntity, &vec![HostArg::Str(s("wolf")), HostArg::Char('w')]);
    assert!(matches!(good, HostCall::RegisterEntity { ref id, icon: 'w' } if id == "wolf"));
    let swapped = host_call(HostFn::RegisterEntity, &vec![HostArg::Char('w'), HostArg::Str(s("wolf"))]);
    assert!(matches!(swapped, HostCall::Malformed { function: HostFn::RegisterEntity }));
    let short = host_call(HostFn::RegisterDecoration, &vec![HostArg::Str(s("flower"))]);
    assert!(matches!(short, HostCall::Malformed { .. }));
    let other = host_call(HostFn::RegisterMelee, &vec![HostArg::Other]);
    assert!(matches!(other, HostCall::Malformed { .. }));
    assert!(matches!(host_call(HostFn::Finish, &vec![]), HostCall::Finish));
    assert!(matches!(
        host_call(HostFn::Print, &vec![HostArg::Str(s("hi"))]),
        HostCall::Print { ref message } if message == "hi"
    ));
    let deco = host_call(
        HostFn::RegisterDecoration,
        &vec![HostArg::Str(s("flower")), HostArg::Char('*'), HostArg::Str(s("a flower"))],
    );
    assert!(matches!(deco, HostCall::RegisterDecoration { icon: '*', .. }));
    let addon = host_call(HostFn::RegisterAddon, &vec![HostArg::Str(s("a")), HostArg::Str(s("b"))]);
    assert!(matches!(addon, HostCall::RegisterAddon { .. }));
}

#[test]
fn malformed_call_is_refused_and_script_continues() {
    let mut r = ContentRegistry::new();
    let run = ScriptRun {
        calls: vec![HostCall::Malformed { function: HostFn::RegisterMelee }, wolf()],
        error: None,
    };
    let report = load_addon(&mut r, &run);
    assert_eq!(
        report.rejected,
        vec![Rejection { call_index: 0, error: RegistryError::InvalidDefinition }]
    );
    assert_eq!(r.list().len(), 1);
}
