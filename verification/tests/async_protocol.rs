use alluka_rust::client::{BasicContext, Client};
use alluka_rust::resolve::{AsyncAction, AsyncResolution, Phase, SyncAction, SyncResolution};
use alluka_rust::values::{InjectionError, Value};
use alluka_rust::visitor::{
    InjectionMarker, ParamDefault, ParameterMetadata, SignatureData, TypeExpr, TypeShape,
};

fn injected_type_param(name: &str, key: i64, label: &str) -> ParameterMetadata {
    ParameterMetadata {
        name: String::from(name),
        annotation: None,
        default: Some(ParamDefault::Marker(InjectionMarker {
            callback: None,
            injected_type: Some(TypeExpr {
                shape: TypeShape::Single(key),
                label: String::from(label),
            }),
            default: None,
        })),
    }
}

fn injected_callback_param(name: &str, wrapped: i64) -> ParameterMetadata {
    ParameterMetadata {
        name: String::from(name),
        annotation: None,
        default: Some(ParamDefault::Marker(InjectionMarker {
            callback: Some(wrapped),
            injected_type: None,
            default: None,
        })),
    }
}

#[test]
fn three_providers_are_launched_together_before_any_is_awaited() {
    // fan-out: one Launch action carries all three targets; values are then
    // delivered in an arbitrary order, and the invocation waits for all
    let mut client = Client::new();
    let ctx = BasicContext::new();
    let sig = SignatureData::Parameters(vec![
        injected_callback_param("a", 101),
        injected_callback_param("b", 102),
        injected_callback_param("c", 103),
    ]);
    let (mut m, act) = AsyncResolution::start(&client, &ctx, 9, vec![], vec![]);
    assert!(matches!(act, AsyncAction::NeedMetadata { .. }));
    let targets = match m.on_metadata(&mut client, &ctx, &sig) {
        AsyncAction::Launch { targets } => targets,
        _ => panic!("expected the concurrent launch"),
    };
    assert_eq!(targets, vec![101, 102, 103]);
    assert_eq!(m.remaining, 3);

    // completion order differs from launch order
    assert!(matches!(m.on_task_done(1, Value::Plain(2)), AsyncAction::Waiting));
    assert!(matches!(m.on_task_done(2, Value::Plain(3)), AsyncAction::Waiting));
    match m.on_task_done(0, Value::Plain(1)) {
        AsyncAction::Invoke { callback, kwargs, .. } => {
            assert_eq!(callback, 9);
            // all insertions completed before the invocation; merged in
            // completion order under the right names
            assert_eq!(kwargs.len(), 3);
            assert_eq!(kwargs[0].name, "b");
            assert_eq!(kwargs[0].value, Value::Plain(2));
            assert_eq!(kwargs[1].name, "c");
            assert_eq!(kwargs[1].value, Value::Plain(3));
            assert_eq!(kwargs[2].name, "a");
            assert_eq!(kwargs[2].value, Value::Plain(1));
        },
        _ => panic!("expected an invocation request"),
    }
}

#[test]
fn awaitable_result_is_awaited_not_rejected() {
    let mut client = Client::new();
    let ctx = BasicContext::new();
    let (mut m, _) = AsyncResolution::start(&client, &ctx, 7, vec![], vec![]);
    let act = m.on_metadata(&mut client, &ctx, &SignatureData::Parameters(vec![]));
    assert!(matches!(act, AsyncAction::Invoke { .. }));
    let act = m.on_invoked(Value::Awaitable(50));
    assert!(matches!(act, AsyncAction::AwaitResult));
    assert_eq!(m.phase, Phase::AwaitingResult);
    match m.on_awaited(Value::Plain(5)) {
        AsyncAction::Finished { value } => assert_eq!(value, Value::Plain(5)),
        _ => panic!("expected the awaited value"),
    }
    assert_eq!(m.phase, Phase::Done);
}

#[test]
fn plain_result_is_final_without_awaiting() {
    let mut client = Client::new();
    let ctx = BasicContext::new();
    let (mut m, _) = AsyncResolution::start(&client, &ctx, 7, vec![], vec![]);
    let act = m.on_metadata(&mut client, &ctx, &SignatureData::Parameters(vec![]));
    assert!(matches!(act, AsyncAction::Invoke { .. }));
    match m.on_invoked(Value::Plain(6)) {
        AsyncAction::Finished { value } => assert_eq!(value, Value::Plain(6)),
        _ => panic!("expected the final value"),
    }
}

#[test]
fn type_failure_aborts_before_anything_is_launched() {
    let mut client = Client::new();
    let ctx = BasicContext::new();
    let sig = SignatureData::Parameters(vec![
        injected_callback_param("a", 101),
        injected_type_param("dep", 1, "Missing"),
    ]);
    let (mut m, _) = AsyncResolution::start(&client, &ctx, 9, vec![], vec![]);
    match m.on_metadata(&mut client, &ctx, &sig) {
        AsyncAction::Failed { error: InjectionError::MissingDependency { label } } => {
            assert_eq!(label, "Missing");
        },
        _ => panic!("expected a missing-dependency failure"),
    }
    assert_eq!(m.phase, Phase::Failed);
}

#[test]
fn type_injected_entries_resolve_immediately_and_tasks_fan_out() {
    let mut client = Client::new();
    let ctx = BasicContext::new();
    client.set_type_dependency(1, Value::Plain(10));
    let sig = SignatureData::Parameters(vec![
        injected_type_param("cfg", 1, "A"),
        injected_callback_param("dep", 100),
    ]);
    let (mut m, _) = AsyncResolution::start(&client, &ctx, 9, vec![], vec![]);
    let targets = match m.on_metadata(&mut client, &ctx, &sig) {
        AsyncAction::Launch { targets } => targets,
        _ => panic!("expected the concurrent launch"),
    };
    assert_eq!(targets, vec![100]);
    // the type-injected value was merged before any task completed
    assert_eq!(m.kwargs.len(), 1);
    assert_eq!(m.kwargs[0].name, "cfg");
    match m.on_task_done(0, Value::Plain(4)) {
        AsyncAction::Invoke { kwargs, .. } => {
            assert_eq!(kwargs.len(), 2);
            assert_eq!(kwargs[0].name, "cfg");
            assert_eq!(kwargs[1].name, "dep");
        },
        _ => panic!("expected an invocation request"),
    }
}

#[test]
fn both_protocols_share_the_descriptor_cache() {
    let mut client = Client::new();
    let ctx = BasicContext::new();
    client.set_type_dependency(1, Value::Plain(10));
    let sig = SignatureData::Parameters(vec![injected_type_param("cfg", 1, "A")]);

    let (mut a, _) = AsyncResolution::start(&client, &ctx, 9, vec![], vec![]);
    assert!(matches!(a.on_metadata(&mut client, &ctx, &sig), AsyncAction::Invoke { .. }));
    assert_eq!(client.descriptors.parses, 1);

    // the synchronous protocol finds the same callable already cached
    let (_s, act) = SyncResolution::start(&client, &ctx, 9, vec![], vec![]);
    assert!(matches!(act, SyncAction::Invoke { .. }));
    assert_eq!(client.descriptors.parses, 1);
}
