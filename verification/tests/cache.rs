use alluka_rust::client::{BuildOutcome, Client};
use alluka_rust::visitor::{
    InjectionMarker, ParamDefault, ParameterMetadata, SignatureData, TypeExpr, TypeShape,
};

fn one_type_param(name: &str, key: i64) -> ParameterMetadata {
    ParameterMetadata {
        name: String::from(name),
        annotation: None,
        default: Some(ParamDefault::Marker(InjectionMarker {
            callback: None,
            injected_type: Some(TypeExpr {
                shape: TypeShape::Single(key),
                label: String::from("T"),
            }),
            default: None,
        })),
    }
}

#[test]
fn parser_runs_exactly_once_per_callable() {
    let mut client = Client::new();
    assert_eq!(client.descriptors.parses, 0);

    let sig = SignatureData::Parameters(vec![one_type_param("dep", 1)]);
    let first = match client.build_descriptors(42, &sig, false) {
        BuildOutcome::Built(list) => list,
        _ => panic!("expected a descriptor list"),
    };
    assert_eq!(client.descriptors.parses, 1);
    assert_eq!(first.len(), 1);

    // a second fetch is answered from the cache: the signature handed in is
    // not even looked at, and the parser does not run again
    let second = match client.build_descriptors(42, &SignatureData::Unavailable, false) {
        BuildOutcome::Built(list) => list,
        _ => panic!("expected the cached descriptor list"),
    };
    assert_eq!(client.descriptors.parses, 1);
    assert_eq!(second.len(), 1);
    assert_eq!(second[0].name, first[0].name);
}

#[test]
fn distinct_callables_parse_independently() {
    let mut client = Client::new();
    let sig_a = SignatureData::Parameters(vec![one_type_param("a", 1)]);
    let sig_b = SignatureData::Parameters(vec![one_type_param("b", 2)]);
    assert!(matches!(client.build_descriptors(1, &sig_a, false), BuildOutcome::Built(_)));
    assert!(matches!(client.build_descriptors(2, &sig_b, false), BuildOutcome::Built(_)));
    assert_eq!(client.descriptors.parses, 2);
}

#[test]
fn failed_parse_is_not_cached_and_fails_deterministically() {
    let mut client = Client::new();
    let bad = SignatureData::Parameters(vec![ParameterMetadata {
        name: String::from("mystery"),
        annotation: None,
        default: Some(ParamDefault::Marker(InjectionMarker {
            callback: None,
            injected_type: None,
            default: None,
        })),
    }]);
    assert!(matches!(client.build_descriptors(7, &bad, false), BuildOutcome::Rejected(_)));
    assert!(client.lookup_descriptors(7).is_none());
    // every attempt fails the same way, re-running the parser
    assert!(matches!(client.build_descriptors(7, &bad, false), BuildOutcome::Rejected(_)));
    assert_eq!(client.descriptors.parses, 2);
}

#[test]
fn empty_signature_caches_empty_list() {
    let mut client = Client::new();
    let built = client.build_descriptors(9, &SignatureData::Parameters(vec![]), false);
    match built {
        BuildOutcome::Built(list) => assert!(list.is_empty()),
        _ => panic!("expected an empty descriptor list"),
    }
    assert!(client.lookup_descriptors(9).is_some());
}
