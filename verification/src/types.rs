//! Injection descriptors: the parsed instruction for how to obtain one
//! parameter's injected value, either by looking a type up in the registries
//! (type-injected) or by resolving another callable through the same
//! protocol (callback-injected).

use vstd::prelude::*;

use crate::client::{lookup_type, resolve_env, select_override, BasicContext, Client, ResolveEnv};
use crate::values::{result_model, CallableKey, ErrorModel, InjectionError, TypeKey, Value};

verus! {

/// A callback-injected parameter: the value comes from resolving the wrapped
/// callable (or its registered override) through the resolution protocol.
#[derive(Clone, Copy, PartialEq, Eq, Structural, Debug)]
pub struct InjectedCallback {
    pub callback: CallableKey,
}

/// A type-injected parameter: candidate types are looked up in declaration
/// order; the first registered one wins, else the default, else resolution
/// fails with the descriptor's label.
pub struct InjectedType {
    /// Candidate type keys, in declaration order.
    pub type_ids: Vec<TypeKey>,
    /// Value used when no candidate type is registered.
    pub default: Option<Value>,
    /// Human-readable label of the declared type, for diagnostics.
    pub repr_type: String,
}

/// One parameter's injection instruction.
pub enum Injected {
    Callback(InjectedCallback),
    Type(InjectedType),
}

/// One (parameter name, descriptor) pair of a callable's descriptor list.
pub struct DescriptorEntry {
    pub name: String,
    pub injected: Injected,
}

/// The ordered descriptor list of one callable. An empty list is the common
/// case: no injectable parameters.
pub type DescriptorList = Vec<DescriptorEntry>;

/// Ghost rendering of a type-injected descriptor.
pub ghost struct TypeModel {
    pub type_ids: Seq<TypeKey>,
    pub default: Option<Value>,
    pub label: Seq<char>,
}

/// Ghost rendering of a descriptor.
pub ghost enum InjectedModel {
    Callback { callback: CallableKey },
    Type { t: TypeModel },
}

/// Ghost rendering of one descriptor-list entry.
pub ghost struct EntryModel {
    pub name: Seq<char>,
    pub injected: InjectedModel,
}

impl View for InjectedType {
    type V = TypeModel;

    open spec fn view(&self) -> TypeModel {
        TypeModel { type_ids: self.type_ids@, default: self.default, label: self.repr_type@ }
    }
}

impl View for Injected {
    type V = InjectedModel;

    open spec fn view(&self) -> InjectedModel {
        match self {
            Injected::Callback(c) => (InjectedModel::Callback { callback: c.callback }),
            Injected::Type(t) => (InjectedModel::Type { t: t@ }),
        }
    }
}

impl View for DescriptorEntry {
    type V = EntryModel;

    open spec fn view(&self) -> EntryModel {
        EntryModel { name: self.name@, injected: self.injected@ }
    }
}

/// Ghost rendering of a whole descriptor list.
pub open spec fn list_model(l: Seq<DescriptorEntry>) -> Seq<EntryModel> {
    l.map(|i: int, e: DescriptorEntry| e@)
}

impl Injected {
    /// Wraps a callable for callback injection.
    pub fn new_callback(callback: CallableKey) -> (r: Self)
        ensures
            r@ == (InjectedModel::Callback { callback }),
    {
        Injected::Callback(InjectedCallback { callback })
    }

    /// Builds a type-injected descriptor from its candidate keys, default and
    /// label.
    pub fn new_type(default: Option<Value>, repr_type: String, type_ids: Vec<TypeKey>) -> (r: Self)
        ensures
            r@ == (InjectedModel::Type {
                t: TypeModel { type_ids: type_ids@, default, label: repr_type@ },
            }),
    {
        Injected::Type(InjectedType { type_ids, default, repr_type })
    }
}

/// The first candidate's value under the layered lookup, in declaration
/// order; `None` when no candidate type is registered anywhere.
pub open spec fn first_match(env: ResolveEnv, ids: Seq<TypeKey>) -> Option<Value>
    decreases ids.len(),
{
    if ids.len() <= 0 {
        None
    } else {
        match lookup_type(env, ids[0]) {
            Some(v) => Some(v),
            None => first_match(env, ids.skip(1)),
        }
    }
}

/// What resolving a type-injected descriptor returns: the first registered
/// candidate, else the default, else a missing-dependency error carrying the
/// descriptor's label.
pub open spec fn resolve_type_model(env: ResolveEnv, t: TypeModel) -> Result<Value, ErrorModel> {
    match first_match(env, t.type_ids) {
        Some(v) => Ok(v),
        None => match t.default {
            Some(d) => Ok(d),
            None => Err(ErrorModel::MissingDependency { label: t.label }),
        },
    }
}

impl InjectedType {
    /// Resolves this descriptor against the context's override layer and the
    /// client's registry: candidate types are tried strictly left to right
    /// and the first registered one wins; else the stored default; else the
    /// resolution fails with this descriptor's type label.
    pub fn resolve(&self, client: &Client, ctx: &BasicContext) -> (r: Result<Value, InjectionError>)
        ensures
            result_model(r) == resolve_type_model(resolve_env(*client, *ctx), self@),
    {
        let ghost env = resolve_env(*client, *ctx);
        proof {
            assert(self.type_ids@.skip(0) =~= self.type_ids@);
        }
        let n: usize = self.type_ids.len();
        let mut i: usize = 0;
        while i < n
            invariant
                n == self.type_ids@.len(),
                i <= n,
                first_match(env, self.type_ids@) == first_match(env, self.type_ids@.skip(i as int)),
                env == resolve_env(*client, *ctx),
            decreases n - i,
        {
            let key: TypeKey = self.type_ids[i];
            match ctx.get_type_dependency_rust(client, key) {
                Some(v) => {
                    proof {
                        assert(first_match(env, self.type_ids@.skip(i as int)) == Some(v));
                    }
                    return Ok(v);
                },
                None => {
                    proof {
                        assert(self.type_ids@.skip(i as int).skip(1) =~= self.type_ids@.skip(
                            i as int + 1,
                        ));
                    }
                    i = i + 1;
                },
            }
        }
        proof {
            assert(first_match(env, self.type_ids@.skip(i as int)) is None);
        }
        match self.default {
            Some(d) => Ok(d),
            None => Err(InjectionError::MissingDependency { label: clone_string(&self.repr_type) }),
        }
    }
}

impl InjectedCallback {
    /// The callable that a resolution of this descriptor must actually
    /// invoke: the registered override of the wrapped callable if the client
    /// has one, else the wrapped callable itself.
    pub fn resolve_target(&self, client: &Client) -> (r: CallableKey)
        ensures
            r == select_override(client.callback_overrides@, self.callback),
    {
        match client.get_callback_override(self.callback) {
            Some(replacement) => replacement,
            None => self.callback,
        }
    }
}

/// An owned copy of a string, equal to the one given.
pub fn clone_string(s: &String) -> (r: String)
    ensures
        r == s,
{
    s.clone()
}

/// An owned copy of a type-injected descriptor, with the same model.
pub fn clone_injected_type(t: &InjectedType) -> (r: InjectedType)
    ensures
        r@ == t@,
{
    let n: usize = t.type_ids.len();
    let mut ids: Vec<TypeKey> = Vec::new();
    let mut i: usize = 0;
    while i < n
        invariant
            n == t.type_ids@.len(),
            i <= n,
            ids@ == t.type_ids@.take(i as int),
        decreases n - i,
    {
        ids.push(t.type_ids[i]);
        proof {
            assert(ids@ =~= t.type_ids@.take(i as int + 1));
        }
        i = i + 1;
    }
    proof {
        assert(ids@ =~= t.type_ids@);
    }
    InjectedType { type_ids: ids, default: t.default, repr_type: clone_string(&t.repr_type) }
}

/// An owned copy of a descriptor, with the same model.
pub fn clone_injected(inj: &Injected) -> (r: Injected)
    ensures
        r@ == inj@,
{
    match inj {
        Injected::Callback(c) => Injected::Callback(*c),
        Injected::Type(t) => Injected::Type(clone_injected_type(t)),
    }
}

/// An owned copy of a descriptor-list entry, with the same model.
pub fn clone_entry(e: &DescriptorEntry) -> (r: DescriptorEntry)
    ensures
        r@ == e@,
{
    DescriptorEntry { name: clone_string(&e.name), injected: clone_injected(&e.injected) }
}

/// An owned copy of a descriptor list, with the same model.
pub fn clone_list(l: &DescriptorList) -> (r: DescriptorList)
    ensures
        list_model(r@) == list_model(l@),
{
    let n: usize = l.len();
    let mut out: DescriptorList = Vec::new();
    let mut i: usize = 0;
    while i < n
        invariant
            n == l@.len(),
            i <= n,
            out@.len() == i,
            list_model(out@) == list_model(l@).take(i as int),
        decreases n - i,
    {
        out.push(clone_entry(&l[i]));
        proof {
            assert(list_model(out@) =~= list_model(l@).take(i as int + 1));
        }
        i = i + 1;
    }
    proof {
        assert(list_model(out@) =~= list_model(l@));
    }
    out
}

/// Type tie-break law: with candidate types `[a, b]` and a value registered
/// for `b` only, resolution yields `b`'s value; `a`'s absence is skipped,
/// never reported as failure.
pub proof fn lemma_type_tiebreak(env: ResolveEnv, a: TypeKey, b: TypeKey, v: Value)
    requires
        lookup_type(env, a) is None,
        lookup_type(env, b) == Some(v),
    ensures
        first_match(env, seq![a, b]) == Some(v),
{
    assert(seq![a, b].skip(1) =~= seq![b]);
    assert(first_match(env, seq![b]) == Some(v));
}

/// Missing dependency law: when no candidate type is registered and the
/// descriptor has no default, resolution fails with a missing-dependency
/// error that carries the descriptor's label.
pub proof fn lemma_missing_dependency(env: ResolveEnv, t: TypeModel)
    requires
        forall|i: int| 0 <= i < t.type_ids.len() ==> lookup_type(env, #[trigger] t.type_ids[i]) is None,
        t.default is None,
    ensures
        resolve_type_model(env, t) == Err::<Value, ErrorModel>(ErrorModel::MissingDependency {
            label: t.label,
        }),
{
    lemma_first_match_none(env, t.type_ids);
}

/// When every candidate's lookup misses, `first_match` is `None`.
pub proof fn lemma_first_match_none(env: ResolveEnv, ids: Seq<TypeKey>)
    requires
        forall|i: int| 0 <= i < ids.len() ==> lookup_type(env, #[trigger] ids[i]) is None,
    ensures
        first_match(env, ids) is None,
    decreases ids.len(),
{
    if ids.len() > 0 {
        assert(lookup_type(env, ids[0]) is None);
        lemma_first_match_none(env, ids.skip(1));
    }
}

} // verus!
