use alluka_rust::client::{BasicContext, Client};
use alluka_rust::resolve::{Phase, SyncAction, SyncResolution};
use alluka_rust::values::{InjectionError, Value};
use alluka_rust::visitor::{
    InjectionMarker, ParamAnnotation, ParamDefault, ParameterMetadata, SignatureData, TypeExpr,
    TypeMember, TypeShape,
};

fn type_param(name: &str, keys: &[i64], label: &str) -> ParameterMetadata {
    let shape = if keys.len() == 1 {
        TypeShape::Single(keys[0])
    } else {
        TypeShape::Union(keys.iter().map(|k| TypeMember::Concrete(*k)).collect())
    };
    ParameterMetadata {
        name: String::from(name),
        annotation: None,
        default: Some(ParamDefault::Marker(InjectionMarker {
            callback: None,
            injected_type: Some(TypeExpr { shape, label: String::from(label) }),
            default: None,
        })),
    }
}

fn callback_param(name: &str, wrapped: i64) -> ParameterMetadata {
    ParameterMetadata {
        name: String::from(name),
        annotation: None,
        default: Some(ParamDefault::Marker(InjectionMarker {
            callback: Some(wrapped),
            injected_type: None,
            default: None,
        })),
    }
}

#[test]
fn plain_call_passes_arguments_through() {
    let mut client = Client::new();
    let ctx = BasicContext::new();
    let (mut m, act) = SyncResolution::start(
        &client,
        &ctx,
        7,
        vec![Value::Plain(1)],
        vec![],
    );
    match act {
        SyncAction::NeedMetadata { callback, evaluate } => {
            assert_eq!(callback, 7);
            assert!(!evaluate);
        },
        _ => panic!("expected an introspection request"),
    }
    let act = m.on_metadata(&mut client, &ctx, &SignatureData::Parameters(vec![]));
    match act {
        SyncAction::Invoke { callback, args, kwargs } => {
            assert_eq!(callback, 7);
            assert_eq!(args, vec![Value::Plain(1)]);
            assert!(kwargs.is_empty());
        },
        _ => panic!("expected an invocation request"),
    }
    let act = m.on_invoked(Value::Plain(33));
    match act {
        SyncAction::Finished { value } => assert_eq!(value, Value::Plain(33)),
        _ => panic!("expected the final value"),
    }
    assert_eq!(m.phase, Phase::Done);
}

#[test]
fn type_tiebreak_takes_first_registered_candidate() {
    // candidates [A, B], only B registered: B's value is injected; A's
    // absence is skipped, never reported as a failure
    let mut client = Client::new();
    let ctx = BasicContext::new();
    client.set_type_dependency(2, Value::Plain(22));
    let sig = SignatureData::Parameters(vec![type_param("dep", &[1, 2], "A | B")]);
    let (mut m, _) = SyncResolution::start(&client, &ctx, 8, vec![], vec![]);
    let act = m.on_metadata(&mut client, &ctx, &sig);
    match act {
        SyncAction::Invoke { kwargs, .. } => {
            assert_eq!(kwargs.len(), 1);
            assert_eq!(kwargs[0].name, "dep");
            assert_eq!(kwargs[0].value, Value::Plain(22));
        },
        _ => panic!("expected an invocation request"),
    }
}

#[test]
fn missing_dependency_carries_the_type_label() {
    let mut client = Client::new();
    let ctx = BasicContext::new();
    let sig = SignatureData::Parameters(vec![type_param("dep", &[1], "my.module.Thing")]);
    let (mut m, _) = SyncResolution::start(&client, &ctx, 8, vec![], vec![]);
    let act = m.on_metadata(&mut client, &ctx, &sig);
    match act {
        SyncAction::Failed { error: InjectionError::MissingDependency { label } } => {
            assert_eq!(label, "my.module.Thing");
        },
        _ => panic!("expected a missing-dependency failure"),
    }
    assert_eq!(m.phase, Phase::Failed);
}

#[test]
fn context_override_shadows_client_during_resolution() {
    let mut client = Client::new();
    let mut ctx = BasicContext::new();
    client.set_type_dependency(1, Value::Plain(10));
    ctx.set_type_override(1, Value::Plain(11));
    let sig = SignatureData::Parameters(vec![type_param("dep", &[1], "A")]);
    let (mut m, _) = SyncResolution::start(&client, &ctx, 8, vec![], vec![]);
    match m.on_metadata(&mut client, &ctx, &sig) {
        SyncAction::Invoke { kwargs, .. } => assert_eq!(kwargs[0].value, Value::Plain(11)),
        _ => panic!("expected an invocation request"),
    }
}

#[test]
fn callback_override_redirects_and_removal_reverts() {
    // a callback descriptor wrapping F resolves via the override G while it
    // is registered, and via F again once it is removed
    let mut client = Client::new();
    let ctx = BasicContext::new();
    client.set_callback_override(100, 200);
    let sig = SignatureData::Parameters(vec![callback_param("dep", 100)]);

    let (mut m, _) = SyncResolution::start(&client, &ctx, 8, vec![], vec![]);
    match m.on_metadata(&mut client, &ctx, &sig) {
        SyncAction::ResolveDependency { target } => assert_eq!(target, 200),
        _ => panic!("expected a dependency resolution request"),
    }
    // the dependency resolves to some value and the call completes
    match m.on_resolved(&client, &ctx, Value::Plain(5)) {
        SyncAction::Invoke { kwargs, .. } => {
            assert_eq!(kwargs.len(), 1);
            assert_eq!(kwargs[0].name, "dep");
            assert_eq!(kwargs[0].value, Value::Plain(5));
        },
        _ => panic!("expected an invocation request"),
    }

    assert_eq!(client.remove_callback_override(100), Ok(()));
    // the descriptor list is cached now; the next resolution reverts to F
    let (_m2, act) = SyncResolution::start(&client, &ctx, 8, vec![], vec![]);
    match act {
        SyncAction::ResolveDependency { target } => assert_eq!(target, 100),
        _ => panic!("expected a dependency resolution request"),
    }
}

#[test]
fn awaitable_result_fails_with_async_only_after_executing() {
    // the call has already run exactly once when the protocol mismatch is
    // detected; the awaitable is never driven by the synchronous path
    let mut client = Client::new();
    let ctx = BasicContext::new();
    let (mut m, _) = SyncResolution::start(&client, &ctx, 7, vec![], vec![]);
    let act = m.on_metadata(&mut client, &ctx, &SignatureData::Parameters(vec![]));
    assert!(matches!(act, SyncAction::Invoke { .. }));
    let act = m.on_invoked(Value::Awaitable(40));
    match act {
        SyncAction::Failed { error } => assert_eq!(error, InjectionError::AsyncOnly),
        _ => panic!("expected the protocol-mismatch failure"),
    }
    assert_eq!(m.phase, Phase::Failed);
}

#[test]
fn recursive_dependency_is_resolved_through_the_same_protocol() {
    // callable 8 needs callback 100; callable 100 itself has a type-injected
    // parameter, resolved by a nested machine with empty arguments
    let mut client = Client::new();
    let ctx = BasicContext::new();
    client.set_type_dependency(1, Value::Plain(10));
    let outer_sig = SignatureData::Parameters(vec![callback_param("dep", 100)]);
    let inner_sig = SignatureData::Parameters(vec![type_param("cfg", &[1], "A")]);

    let (mut outer, _) = SyncResolution::start(&client, &ctx, 8, vec![], vec![]);
    let target = match outer.on_metadata(&mut client, &ctx, &outer_sig) {
        SyncAction::ResolveDependency { target } => target,
        _ => panic!("expected a dependency resolution request"),
    };

    let (mut inner, act) = SyncResolution::start(&client, &ctx, target, vec![], vec![]);
    assert!(matches!(act, SyncAction::NeedMetadata { .. }));
    let inner_value = match inner.on_metadata(&mut client, &ctx, &inner_sig) {
        SyncAction::Invoke { callback, args, kwargs } => {
            assert_eq!(callback, 100);
            assert!(args.is_empty());
            assert_eq!(kwargs[0].value, Value::Plain(10));
            // the host runs callable 100 and hands its result back
            Value::Plain(1000)
        },
        _ => panic!("expected an invocation request"),
    };
    match inner.on_invoked(inner_value) {
        SyncAction::Finished { value } => {
            match outer.on_resolved(&client, &ctx, value) {
                SyncAction::Invoke { kwargs, .. } => {
                    assert_eq!(kwargs[0].name, "dep");
                    assert_eq!(kwargs[0].value, Value::Plain(1000));
                },
                _ => panic!("expected an invocation request"),
            }
        },
        _ => panic!("expected the inner resolution to finish"),
    }
}

#[test]
fn deferred_annotation_upgrades_introspection_once() {
    let mut client = Client::new();
    let ctx = BasicContext::new();
    let deferred = SignatureData::Parameters(vec![ParameterMetadata {
        name: String::from("dep"),
        annotation: Some(ParamAnnotation::Deferred),
        default: Some(ParamDefault::Marker(InjectionMarker {
            callback: None,
            injected_type: None,
            default: None,
        })),
    }]);
    let evaluated = SignatureData::Parameters(vec![ParameterMetadata {
        name: String::from("dep"),
        annotation: Some(ParamAnnotation::Resolved {
            expr: TypeExpr { shape: TypeShape::Single(1), label: String::from("A") },
            marker: None,
        }),
        default: Some(ParamDefault::Marker(InjectionMarker {
            callback: None,
            injected_type: None,
            default: None,
        })),
    }]);
    client.set_type_dependency(1, Value::Plain(10));

    let (mut m, _) = SyncResolution::start(&client, &ctx, 8, vec![], vec![]);
    match m.on_metadata(&mut client, &ctx, &deferred) {
        SyncAction::NeedMetadata { callback, evaluate } => {
            assert_eq!(callback, 8);
            assert!(evaluate);
        },
        _ => panic!("expected an evaluated-introspection request"),
    }
    match m.on_metadata(&mut client, &ctx, &evaluated) {
        SyncAction::Invoke { kwargs, .. } => assert_eq!(kwargs[0].value, Value::Plain(10)),
        _ => panic!("expected an invocation request"),
    }
}

#[test]
fn caller_kwargs_are_kept_and_injected_values_appended() {
    let mut client = Client::new();
    let ctx = BasicContext::new();
    client.set_type_dependency(1, Value::Plain(10));
    let sig = SignatureData::Parameters(vec![type_param("dep", &[1], "A")]);
    let caller_kwargs = vec![alluka_rust::resolve::KwargEntry {
        name: String::from("given"),
        value: Value::Plain(2),
    }];
    let (mut m, _) = SyncResolution::start(&client, &ctx, 8, vec![], caller_kwargs);
    match m.on_metadata(&mut client, &ctx, &sig) {
        SyncAction::Invoke { kwargs, .. } => {
            assert_eq!(kwargs.len(), 2);
            assert_eq!(kwargs[0].name, "given");
            assert_eq!(kwargs[0].value, Value::Plain(2));
            assert_eq!(kwargs[1].name, "dep");
            assert_eq!(kwargs[1].value, Value::Plain(10));
        },
        _ => panic!("expected an invocation request"),
    }
}
