//! The descriptor parser: classifies one callable's parameter metadata, as
//! handed over by the host's signature introspector, into an ordered
//! descriptor list.
//!
//! Per parameter, in priority order: a default value that is an injection
//! marker classifies the parameter by the marker's payload; else a type-level
//! injection marker on the declared type does; else the parameter is plain
//! and excluded. A declared type that is still deferred (stringified) when it
//! is needed asks for one irreversible upgrade to fully evaluated
//! introspection.

use vstd::prelude::*;

use crate::client::{lookup_type, ResolveEnv};
use crate::types::{clone_string, first_match, list_model, resolve_type_model, DescriptorEntry, DescriptorList, EntryModel, Injected, InjectedModel, TypeModel};
use crate::values::{CallableKey, ErrorModel, InjectionError, TypeKey, Value};

verus! {

/// One member of a declared union type: a concrete type, or the host's
/// absent-value type (the "optional" member).
#[derive(Clone, Copy, PartialEq, Eq, Structural, Debug)]
pub enum TypeMember {
    Concrete(TypeKey),
    Absent,
}

/// The shape of a declared type: a plain type or a union of members in
/// declaration order.
pub enum TypeShape {
    Single(TypeKey),
    Union(Vec<TypeMember>),
}

/// A declared type expression with its human-readable label.
pub struct TypeExpr {
    pub shape: TypeShape,
    pub label: String,
}

/// An explicit injection marker: carries a replacement callable, or an
/// explicit type, or neither (fall through to the declared type), and
/// optionally a stated default.
pub struct InjectionMarker {
    pub callback: Option<CallableKey>,
    pub injected_type: Option<TypeExpr>,
    pub default: Option<Value>,
}

/// A parameter's declared type as introspection reports it: fully resolved,
/// possibly together with a type-level injection marker, or still deferred
/// (expressed as text the host has not evaluated yet).
pub enum ParamAnnotation {
    Deferred,
    Resolved { expr: TypeExpr, marker: Option<InjectionMarker> },
}

/// A parameter's default: an injection marker posing as the default value,
/// or an ordinary value.
pub enum ParamDefault {
    Marker(InjectionMarker),
    Value(Value),
}

/// One parameter's metadata, in signature order.
pub struct ParameterMetadata {
    pub name: String,
    pub annotation: Option<ParamAnnotation>,
    pub default: Option<ParamDefault>,
}

/// What the introspector produced for a callable: its ordered parameters, or
/// nothing (an opaque callable is treated as having no injectable
/// parameters).
pub enum SignatureData {
    Unavailable,
    Parameters(Vec<ParameterMetadata>),
}

// ---------------------------------------------------------------------------
// Ghost models of the metadata.
// ---------------------------------------------------------------------------

pub ghost enum ShapeModel {
    Single(TypeKey),
    Union(Seq<TypeMember>),
}

pub ghost struct TypeExprModel {
    pub shape: ShapeModel,
    pub label: Seq<char>,
}

pub ghost struct MarkerModel {
    pub callback: Option<CallableKey>,
    pub injected_type: Option<TypeExprModel>,
    pub default: Option<Value>,
}

pub ghost enum AnnotationModel {
    Deferred,
    Resolved { expr: TypeExprModel, marker: Option<MarkerModel> },
}

pub ghost enum DefaultModel {
    Marker(MarkerModel),
    Value(Value),
}

pub ghost struct ParamModel {
    pub name: Seq<char>,
    pub annotation: Option<AnnotationModel>,
    pub default: Option<DefaultModel>,
}

impl View for TypeExpr {
    type V = TypeExprModel;

    open spec fn view(&self) -> TypeExprModel {
        TypeExprModel {
            shape: match self.shape {
                TypeShape::Single(k) => ShapeModel::Single(k),
                TypeShape::Union(ms) => ShapeModel::Union(ms@),
            },
            label: self.label@,
        }
    }
}

impl View for InjectionMarker {
    type V = MarkerModel;

    open spec fn view(&self) -> MarkerModel {
        MarkerModel {
            callback: self.callback,
            injected_type: match self.injected_type {
                Some(te) => Some(te@),
                None => None,
            },
            default: self.default,
        }
    }
}

impl View for ParamAnnotation {
    type V = AnnotationModel;

    open spec fn view(&self) -> AnnotationModel {
        match self {
            ParamAnnotation::Deferred => AnnotationModel::Deferred,
            ParamAnnotation::Resolved { expr, marker } => (AnnotationModel::Resolved {
                expr: expr@,
                marker: match marker {
                    Some(m) => Some(m@),
                    None => None,
                },
            }),
        }
    }
}

impl View for ParamDefault {
    type V = DefaultModel;

    open spec fn view(&self) -> DefaultModel {
        match self {
            ParamDefault::Marker(m) => DefaultModel::Marker(m@),
            ParamDefault::Value(v) => DefaultModel::Value(*v),
        }
    }
}

impl View for ParameterMetadata {
    type V = ParamModel;

    open spec fn view(&self) -> ParamModel {
        ParamModel {
            name: self.name@,
            annotation: match &self.annotation {
                Some(a) => Some(a@),
                None => None,
            },
            default: match &self.default {
                Some(d) => Some(d@),
                None => None,
            },
        }
    }
}

/// Ghost rendering of a parameter sequence.
pub open spec fn params_model(ps: Seq<ParameterMetadata>) -> Seq<ParamModel> {
    ps.map(|i: int, p: ParameterMetadata| p@)
}

impl View for SignatureData {
    type V = Option<Seq<ParamModel>>;

    open spec fn view(&self) -> Option<Seq<ParamModel>> {
        match self {
            SignatureData::Unavailable => None,
            SignatureData::Parameters(ps) => Some(params_model(ps@)),
        }
    }
}

// ---------------------------------------------------------------------------
// Specification of the classification.
// ---------------------------------------------------------------------------

/// How one parameter classifies.
pub ghost enum ClassModel {
    /// Caller-supplied; excluded from the descriptor list.
    Plain,
    /// Injected, with its descriptor.
    Inject(InjectedModel),
    /// A deferred declared type is needed: upgrade introspection first.
    NeedsEvaluation,
    /// The parameter is explicitly injected but no type can be resolved.
    Fail(ErrorModel),
}

/// The union's concrete member keys, in declaration order; the absent-value
/// member is removed.
pub open spec fn concrete_members(ms: Seq<TypeMember>) -> Seq<TypeKey>
    decreases ms.len(),
{
    if ms.len() <= 0 {
        Seq::empty()
    } else {
        let rest = concrete_members(ms.drop_last());
        match ms.last() {
            TypeMember::Concrete(k) => rest.push(k),
            TypeMember::Absent => rest,
        }
    }
}

/// Whether the absent-value type is among the union's members.
pub open spec fn has_absent(ms: Seq<TypeMember>) -> bool {
    exists|i: int| 0 <= i < ms.len() && ms[i] is Absent
}

/// Type-set derivation ("annotation to type set"): a plain type gives that
/// one candidate; a union gives its members in declaration order, except
/// that an absent-value member is removed and instead becomes the default —
/// unless an explicit default was already supplied.
pub open spec fn parse_type_model(e: TypeExprModel, other_default: Option<Value>) -> TypeModel {
    match e.shape {
        ShapeModel::Single(k) => TypeModel { type_ids: seq![k], default: other_default, label: e.label },
        ShapeModel::Union(ms) => TypeModel {
            type_ids: concrete_members(ms),
            default: if has_absent(ms) && other_default is None {
                Some(Value::Absent)
            } else {
                other_default
            },
            label: e.label,
        },
    }
}

/// The three-way dispatch on a marker's payload: a wrapped callable gives a
/// callback descriptor; an explicit type gives a type descriptor parsed with
/// `payload_default`; neither falls through to the parameter's declared type
/// parsed with `fall_default`, asking for evaluation if that type is still
/// deferred and failing if there is none.
pub open spec fn dispatch_marker_model(
    m: MarkerModel,
    payload_default: Option<Value>,
    fall_default: Option<Value>,
    annotation: Option<AnnotationModel>,
    evaluated: bool,
    name: Seq<char>,
) -> ClassModel {
    match m.callback {
        Some(cb) => ClassModel::Inject(InjectedModel::Callback { callback: cb }),
        None => match m.injected_type {
            Some(te) => ClassModel::Inject(InjectedModel::Type { t: parse_type_model(te, payload_default) }),
            None => match annotation {
                Some(AnnotationModel::Resolved { expr, marker: _ }) => ClassModel::Inject(
                    InjectedModel::Type { t: parse_type_model(expr, fall_default) },
                ),
                Some(AnnotationModel::Deferred) => if evaluated {
                    ClassModel::Fail(ErrorModel::UnresolvedType { parameter: name })
                } else {
                    ClassModel::NeedsEvaluation
                },
                None => ClassModel::Fail(ErrorModel::UnresolvedType { parameter: name }),
            },
        },
    }
}

/// The parameter's ordinary default value, when it has one that is not an
/// injection marker.
pub open spec fn param_value_default(p: ParamModel) -> Option<Value> {
    match p.default {
        Some(DefaultModel::Value(v)) => Some(v),
        _ => None,
    }
}

/// Per-parameter classification, in priority order: a default-value marker
/// dispatches with no payload default and the marker's stated default as the
/// fall-through default; else a type-level marker dispatches with the
/// parameter's own default for both; else the parameter is plain. A deferred
/// declared type asks for evaluated introspection wherever it would be read
/// (after the upgrade a still-deferred type is plain, or, for an explicitly
/// marked parameter, unresolvable).
pub open spec fn classify_model(p: ParamModel, evaluated: bool) -> ClassModel {
    match p.default {
        Some(DefaultModel::Marker(m)) => dispatch_marker_model(
            m,
            None,
            m.default,
            p.annotation,
            evaluated,
            p.name,
        ),
        _ => match p.annotation {
            Some(AnnotationModel::Resolved { expr: _, marker: Some(m) }) => dispatch_marker_model(
                m,
                param_value_default(p),
                param_value_default(p),
                p.annotation,
                evaluated,
                p.name,
            ),
            Some(AnnotationModel::Resolved { expr: _, marker: None }) => ClassModel::Plain,
            Some(AnnotationModel::Deferred) => if evaluated {
                ClassModel::Plain
            } else {
                ClassModel::NeedsEvaluation
            },
            None => ClassModel::Plain,
        },
    }
}

/// The outcome of parsing a whole signature.
pub ghost enum ParseModel {
    Done(Seq<EntryModel>),
    NeedsEvaluation,
    Fail(ErrorModel),
}

/// Parsing a parameter sequence: classify each parameter in order; plain
/// ones are excluded, injected ones contribute one descriptor-list entry
/// under the parameter's name, and the first evaluation request or failure
/// aborts the parse.
pub open spec fn parse_params_model(ps: Seq<ParamModel>, evaluated: bool) -> ParseModel
    decreases ps.len(),
{
    if ps.len() <= 0 {
        ParseModel::Done(Seq::empty())
    } else {
        match classify_model(ps[0], evaluated) {
            ClassModel::Fail(e) => ParseModel::Fail(e),
            ClassModel::NeedsEvaluation => ParseModel::NeedsEvaluation,
            ClassModel::Plain => parse_params_model(ps.skip(1), evaluated),
            ClassModel::Inject(inj) => match parse_params_model(ps.skip(1), evaluated) {
                ParseModel::Done(rest) => ParseModel::Done(
                    seq![EntryModel { name: ps[0].name, injected: inj }] + rest,
                ),
                other => other,
            },
        }
    }
}

/// Parsing a signature: no metadata means no injectable parameters.
pub open spec fn parse_signature_model(sig: Option<Seq<ParamModel>>, evaluated: bool) -> ParseModel {
    match sig {
        None => ParseModel::Done(Seq::empty()),
        Some(ps) => parse_params_model(ps, evaluated),
    }
}

// ---------------------------------------------------------------------------
// The executable parser.
// ---------------------------------------------------------------------------

/// How one parameter classified, executably.
pub enum ParamClass {
    Plain,
    Inject(Injected),
    NeedsEvaluation,
    Fail(InjectionError),
}

/// Ghost rendering of a classification.
pub open spec fn class_model(c: ParamClass) -> ClassModel {
    match c {
        ParamClass::Plain => ClassModel::Plain,
        ParamClass::Inject(inj) => ClassModel::Inject(inj@),
        ParamClass::NeedsEvaluation => ClassModel::NeedsEvaluation,
        ParamClass::Fail(e) => ClassModel::Fail(e@),
    }
}

/// The outcome of one parse run, executably.
pub enum ParseOutcome {
    Parsed(DescriptorList),
    NeedsEvaluation,
    Rejected(InjectionError),
}

/// Ghost rendering of a parse outcome.
pub open spec fn parse_outcome_model(r: ParseOutcome) -> ParseModel {
    match r {
        ParseOutcome::Parsed(l) => ParseModel::Done(list_model(l@)),
        ParseOutcome::NeedsEvaluation => ParseModel::NeedsEvaluation,
        ParseOutcome::Rejected(e) => ParseModel::Fail(e@),
    }
}

/// Prefixing already-built entries onto a parse outcome.
pub open spec fn prepend_model(prefix: Seq<EntryModel>, pm: ParseModel) -> ParseModel {
    match pm {
        ParseModel::Done(s) => ParseModel::Done(prefix + s),
        other => other,
    }
}

/// The descriptor parser.
pub struct ParameterVisitor {}

impl ParameterVisitor {
    /// Derives a type-injected descriptor from a declared type expression and
    /// the default to fall back on.
    pub fn parse_type(expr: &TypeExpr, other_default: Option<Value>) -> (r: Injected)
        ensures
            r@ == (InjectedModel::Type { t: parse_type_model(expr@, other_default) }),
    {
        match &expr.shape {
            TypeShape::Single(k) => {
                let mut ids: Vec<TypeKey> = Vec::new();
                ids.push(*k);
                proof {
                    assert(ids@ =~= seq![*k]);
                }
                Injected::new_type(other_default, clone_string(&expr.label), ids)
            },
            TypeShape::Union(ms) => {
                let n: usize = ms.len();
                let mut ids: Vec<TypeKey> = Vec::new();
                let mut saw_absent = false;
                let mut i: usize = 0;
                proof {
                    assert(ms@.take(0) =~= Seq::<TypeMember>::empty());
                }
                while i < n
                    invariant
                        n == ms@.len(),
                        i <= n,
                        ids@ == concrete_members(ms@.take(i as int)),
                        saw_absent == has_absent(ms@.take(i as int)),
                    decreases n - i,
                {
                    proof {
                        assert(ms@.take(i as int + 1).drop_last() =~= ms@.take(i as int));
                        assert(ms@.take(i as int + 1).last() == ms@[i as int]);
                    }
                    match ms[i] {
                        TypeMember::Concrete(k) => {
                            ids.push(k);
                        },
                        TypeMember::Absent => {
                            saw_absent = true;
                        },
                    }
                    proof {
                        if saw_absent {
                            assert(has_absent(ms@.take(i as int + 1)));
                        }
                    }
                    i = i + 1;
                }
                proof {
                    assert(ms@.take(n as int) =~= ms@);
                }
                let default = if saw_absent && other_default.is_none() {
                    Some(Value::Absent)
                } else {
                    other_default
                };
                Injected::new_type(default, clone_string(&expr.label), ids)
            },
        }
    }

    /// The three-way dispatch on a marker's payload (see
    /// [`dispatch_marker_model`]).
    fn dispatch_marker(
        m: &InjectionMarker,
        payload_default: Option<Value>,
        fall_default: Option<Value>,
        annotation: &Option<ParamAnnotation>,
        evaluated: bool,
        name: &String,
    ) -> (r: ParamClass)
        ensures
            class_model(r) == dispatch_marker_model(
                m@,
                payload_default,
                fall_default,
                match annotation {
                    Some(a) => Some(a@),
                    None => None,
                },
                evaluated,
                name@,
            ),
    {
        match m.callback {
            Some(cb) => ParamClass::Inject(Injected::new_callback(cb)),
            None => match &m.injected_type {
                Some(te) => ParamClass::Inject(Self::parse_type(te, payload_default)),
                None => match annotation {
                    Some(ParamAnnotation::Resolved { expr, marker: _ }) => ParamClass::Inject(
                        Self::parse_type(expr, fall_default),
                    ),
                    Some(ParamAnnotation::Deferred) => if evaluated {
                        ParamClass::Fail(
                            InjectionError::UnresolvedType { parameter: clone_string(name) },
                        )
                    } else {
                        ParamClass::NeedsEvaluation
                    },
                    None => ParamClass::Fail(
                        InjectionError::UnresolvedType { parameter: clone_string(name) },
                    ),
                },
            },
        }
    }

    /// Classification by the parameter's default value: when the default is
    /// an injection marker, the marker's payload decides; otherwise this
    /// visitor does not classify the parameter.
    pub fn visit_default(p: &ParameterMetadata, evaluated: bool) -> (r: Option<ParamClass>)
        ensures
            match p@.default {
                Some(DefaultModel::Marker(m)) => r matches Some(c) && class_model(c)
                    == dispatch_marker_model(m, None, m.default, p@.annotation, evaluated, p@.name),
                _ => r is None,
            },
    {
        match &p.default {
            Some(ParamDefault::Marker(m)) => Some(
                Self::dispatch_marker(m, None, m.default, &p.annotation, evaluated, &p.name),
            ),
            _ => None,
        }
    }

    /// Classification by the declared type: a type-level injection marker
    /// decides by its payload with the parameter's own default as fallback;
    /// a deferred declared type asks for evaluated introspection; anything
    /// else is plain.
    pub fn visit_annotation(p: &ParameterMetadata, evaluated: bool) -> (r: ParamClass)
        ensures
            class_model(r) == (match p@.annotation {
                Some(AnnotationModel::Resolved { expr: _, marker: Some(m) }) => dispatch_marker_model(
                    m,
                    param_value_default(p@),
                    param_value_default(p@),
                    p@.annotation,
                    evaluated,
                    p@.name,
                ),
                Some(AnnotationModel::Resolved { expr: _, marker: None }) => ClassModel::Plain,
                Some(AnnotationModel::Deferred) => if evaluated {
                    ClassModel::Plain
                } else {
                    ClassModel::NeedsEvaluation
                },
                None => ClassModel::Plain,
            }),
    {
        let own_default = match &p.default {
            Some(ParamDefault::Value(v)) => Some(*v),
            _ => None,
        };
        match &p.annotation {
            Some(ParamAnnotation::Resolved { expr: _, marker: Some(m) }) => Self::dispatch_marker(
                m,
                own_default,
                own_default,
                &p.annotation,
                evaluated,
                &p.name,
            ),
            Some(ParamAnnotation::Resolved { expr: _, marker: None }) => ParamClass::Plain,
            Some(ParamAnnotation::Deferred) => if evaluated {
                ParamClass::Plain
            } else {
                ParamClass::NeedsEvaluation
            },
            None => ParamClass::Plain,
        }
    }

    /// Classifies one parameter: the default-value marker has priority, then
    /// the declared type.
    pub fn classify(p: &ParameterMetadata, evaluated: bool) -> (r: ParamClass)
        ensures
            class_model(r) == classify_model(p@, evaluated),
    {
        match Self::visit_default(p, evaluated) {
            Some(c) => c,
            None => Self::visit_annotation(p, evaluated),
        }
    }

    /// Parses a whole signature into the callable's descriptor list. A
    /// callable without metadata has no injectable parameters; the first
    /// parameter that needs evaluated introspection or cannot be resolved
    /// aborts the parse.
    pub fn visit_callback(signature: &SignatureData, evaluated: bool) -> (r: ParseOutcome)
        ensures
            parse_outcome_model(r) == parse_signature_model(signature@, evaluated),
    {
        let ps = match signature {
            SignatureData::Unavailable => {
                let empty: DescriptorList = Vec::new();
                proof {
                    assert(list_model(empty@) =~= Seq::<EntryModel>::empty());
                }
                return ParseOutcome::Parsed(empty);
            },
            SignatureData::Parameters(ps) => ps,
        };
        let ghost psm = params_model(ps@);
        proof {
            assert(signature@ == Some(psm));
        }
        let n: usize = ps.len();
        let mut out: DescriptorList = Vec::new();
        let mut i: usize = 0;
        proof {
            assert(psm.skip(0) =~= psm);
            assert(list_model(out@) =~= Seq::<EntryModel>::empty());
        }
        while i < n
            invariant
                n == ps@.len(),
                psm == params_model(ps@),
                signature@ == Some(psm),
                i <= n,
                parse_params_model(psm, evaluated) == prepend_model(
                    list_model(out@),
                    parse_params_model(psm.skip(i as int), evaluated),
                ),
            decreases n - i,
        {
            proof {
                assert(psm[i as int] == ps@[i as int]@);
                assert(psm.skip(i as int)[0] == psm[i as int]);
                assert(psm.skip(i as int).skip(1) =~= psm.skip(i as int + 1));
            }
            match Self::classify(&ps[i], evaluated) {
                ParamClass::Plain => {},
                ParamClass::Inject(inj) => {
                    let ghost out0 = list_model(out@);
                    let ghost entry = EntryModel { name: psm[i as int].name, injected: inj@ };
                    out.push(DescriptorEntry { name: clone_string(&ps[i].name), injected: inj });
                    proof {
                        assert(list_model(out@) =~= out0.push(entry));
                        match parse_params_model(psm.skip(i as int + 1), evaluated) {
                            ParseModel::Done(rest) => {
                                assert(out0 + (seq![entry] + rest) =~= out0.push(entry) + rest);
                            },
                            _ => {},
                        }
                    }
                },
                ParamClass::NeedsEvaluation => {
                    proof {
                        assert(parse_params_model(psm.skip(i as int), evaluated)
                            == ParseModel::NeedsEvaluation);
                    }
                    return ParseOutcome::NeedsEvaluation;
                },
                ParamClass::Fail(e) => {
                    proof {
                        assert(parse_params_model(psm.skip(i as int), evaluated)
                            == ParseModel::Fail(e@));
                    }
                    return ParseOutcome::Rejected(e);
                },
            }
            i = i + 1;
        }
        proof {
            assert(psm.skip(n as int) =~= Seq::<ParamModel>::empty());
            assert(list_model(out@) + Seq::<EntryModel>::empty() =~= list_model(out@));
        }
        ParseOutcome::Parsed(out)
    }
}

/// One-shot upgrade law: classification against fully evaluated metadata
/// never asks for evaluation again — the upgrade from deferred to evaluated
/// introspection is irreversible and happens at most once per callable.
pub proof fn lemma_upgrade_is_one_shot(ps: Seq<ParamModel>)
    ensures
        !(parse_params_model(ps, true) is NeedsEvaluation),
    decreases ps.len(),
{
    if ps.len() > 0 {
        lemma_upgrade_is_one_shot(ps.skip(1));
    }
}

/// Optional-type defaulting law: a declared union of one concrete type and
/// the absent-value type, with no explicit default, parses to a type
/// descriptor whose candidate set is exactly the concrete type and whose
/// default is the absent value; resolving it with nothing registered for
/// that type then returns the absent value rather than failing.
pub proof fn lemma_optional_defaulting(a: TypeKey, label: Seq<char>, env: ResolveEnv)
    requires
        lookup_type(env, a) is None,
    ensures
        ({
            let e = TypeExprModel {
                shape: ShapeModel::Union(seq![TypeMember::Concrete(a), TypeMember::Absent]),
                label,
            };
            let t = parse_type_model(e, None);
            &&& t.type_ids == seq![a]
            &&& t.default == Some(Value::Absent)
            &&& resolve_type_model(env, t) == Ok::<Value, ErrorModel>(Value::Absent)
        }),
{
    let ms = seq![TypeMember::Concrete(a), TypeMember::Absent];
    assert(ms.drop_last() =~= seq![TypeMember::Concrete(a)]);
    assert(seq![TypeMember::Concrete(a)].drop_last() =~= Seq::<TypeMember>::empty());
    assert(concrete_members(Seq::<TypeMember>::empty()) =~= Seq::<TypeKey>::empty());
    assert(seq![TypeMember::Concrete(a)].last() == TypeMember::Concrete(a));
    assert(concrete_members(seq![TypeMember::Concrete(a)]) =~= seq![a]);
    assert(ms.last() == TypeMember::Absent);
    assert(concrete_members(ms) =~= seq![a]);
    assert(ms[1] is Absent);
    assert(has_absent(ms));
    assert(seq![a].skip(1) =~= Seq::<TypeKey>::empty());
    assert(first_match(env, Seq::<TypeKey>::empty()) is None);
    assert(seq![a][0] == a);
    assert(first_match(env, seq![a]) is None);
}

} // verus!
