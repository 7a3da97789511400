//! The client registry, the per-call-tree context, and the descriptor cache.
//!
//! The client is the process-scoped fallback root for every resolution: it
//! owns the type-dependency and callback-override registries and the
//! write-once descriptor cache. The context layers a call-tree-local override
//! map and a result-memoization cache on top of one client.
//!
//! These structures are shared across concurrent call trees in an embedding;
//! admitting many readers and one writer at a time is the embedding's
//! obligation. The contracts here give each operation's whole meaning, so
//! any serialization of the operations respects them; the cache's
//! fetch-or-insert step is the one that must be taken atomically for the
//! at-most-once parse guarantee to carry over.

use std::collections::HashMap;

use vstd::prelude::*;

use crate::types::{clone_list, list_model, DescriptorList, EntryModel};
use crate::values::{CallableKey, ErrorModel, InjectionError, TypeKey, Value};
use crate::visitor::{parse_signature_model, ParameterVisitor, ParseModel, ParseOutcome, SignatureData};

verus! {

broadcast use vstd::std_specs::hash::group_hash_axioms;

/// The registry state a resolution reads: the client's override and
/// dependency maps and the context's local type-override layer.
pub ghost struct ResolveEnv {
    pub overrides: Map<CallableKey, CallableKey>,
    pub deps: Map<TypeKey, Value>,
    pub special: Map<TypeKey, Value>,
}

/// The environment of one client/context pair.
pub open spec fn resolve_env(client: Client, ctx: BasicContext) -> ResolveEnv {
    ResolveEnv {
        overrides: client.callback_overrides@,
        deps: client.type_dependencies@,
        special: ctx.type_overrides@,
    }
}

/// Layered type lookup: the context's local overrides shadow the client's
/// registry; `None` when neither has the key.
pub open spec fn lookup_type(env: ResolveEnv, k: TypeKey) -> Option<Value> {
    if env.special.contains_key(k) {
        Some(env.special[k])
    } else if env.deps.contains_key(k) {
        Some(env.deps[k])
    } else {
        None
    }
}

/// The callable a callback-injected resolution must invoke: the registered
/// override when there is one, else the wrapped callable itself.
pub open spec fn select_override(ov: Map<CallableKey, CallableKey>, cb: CallableKey) -> CallableKey {
    if ov.contains_key(cb) {
        ov[cb]
    } else {
        cb
    }
}

/// What a direct registry query returns: the registered value, else the
/// caller's default, else the `Undefined` sentinel. Queries never fail.
pub open spec fn registry_query(m: Map<i64, Value>, k: i64, default: Option<Value>) -> Value {
    if m.contains_key(k) {
        m[k]
    } else {
        match default {
            Some(d) => d,
            None => Value::Undefined,
        }
    }
}

/// Ghost rendering of the descriptor cache: the cached lists and how many
/// times the descriptor parser has run.
pub ghost struct CacheModel {
    pub lists: Map<CallableKey, Seq<EntryModel>>,
    pub parses: nat,
}

/// One fetch-or-insert step of the write-once cache discipline: a present
/// key is answered from the cache without a parse; an absent key stores the
/// parser's result and counts the one parse.
pub open spec fn cache_step(c: CacheModel, k: CallableKey, parsed: Seq<EntryModel>) -> (
    CacheModel,
    Seq<EntryModel>,
) {
    if c.lists.contains_key(k) {
        (c, c.lists[k])
    } else {
        (CacheModel { lists: c.lists.insert(k, parsed), parses: c.parses + 1 }, parsed)
    }
}

/// The entries of a completed parse; irrelevant (and unused) otherwise.
pub open spec fn done_entries(pm: ParseModel) -> Seq<EntryModel> {
    match pm {
        ParseModel::Done(e) => e,
        _ => Seq::empty(),
    }
}

/// The write-once descriptor cache: callable identity to descriptor list.
/// Once a list is stored it is never replaced, so every resolution of one
/// callable shares the same list and the parser runs at most once for it.
pub struct DescriptorCache {
    pub entries: HashMap<CallableKey, DescriptorList>,
    /// How many times the descriptor parser has run on behalf of this cache;
    /// diagnostic counterpart of the at-most-once guarantee.
    pub parses: u64,
}

impl View for DescriptorCache {
    type V = CacheModel;

    open spec fn view(&self) -> CacheModel {
        CacheModel {
            lists: self.entries@.map_values(|l: DescriptorList| list_model(l@)),
            parses: self.parses as nat,
        }
    }
}

impl DescriptorCache {
    /// An empty cache that has never run the parser.
    pub fn new() -> (r: Self)
        ensures
            r@.lists == Map::<CallableKey, Seq<EntryModel>>::empty(),
            r@.parses == 0,
    {
        let r = DescriptorCache { entries: HashMap::new(), parses: 0 };
        proof {
            assert(r@.lists =~= Map::<CallableKey, Seq<EntryModel>>::empty());
        }
        r
    }
}

/// What fetching a callable's descriptors produced: the (possibly cached)
/// list, a request for evaluated introspection, or a parse failure.
pub enum BuildOutcome {
    Built(DescriptorList),
    NeedsEvaluation,
    Rejected(InjectionError),
}

/// The process-scoped registry: type dependencies, callback overrides, and
/// the descriptor cache, each mutable only through explicit operations.
pub struct Client {
    pub type_dependencies: HashMap<TypeKey, Value>,
    pub callback_overrides: HashMap<CallableKey, CallableKey>,
    pub descriptors: DescriptorCache,
}

impl Client {
    /// A client with empty registries and an empty descriptor cache.
    pub fn new() -> (r: Self)
        ensures
            r.type_dependencies@ == Map::<TypeKey, Value>::empty(),
            r.callback_overrides@ == Map::<CallableKey, CallableKey>::empty(),
            r.descriptors@.lists == Map::<CallableKey, Seq<EntryModel>>::empty(),
            r.descriptors@.parses == 0,
    {
        Client {
            type_dependencies: HashMap::new(),
            callback_overrides: HashMap::new(),
            descriptors: DescriptorCache::new(),
        }
    }

    /// Registers (or replaces) the value injected for a type.
    pub fn set_type_dependency(&mut self, type_: TypeKey, value: Value)
        ensures
            final(self).type_dependencies@ == old(self).type_dependencies@.insert(type_, value),
            final(self).callback_overrides@ == old(self).callback_overrides@,
            final(self).descriptors@ == old(self).descriptors@,
    {
        self.type_dependencies.insert(type_, value);
    }

    /// The value registered for a type, without the context layer; `None`
    /// when nothing is registered.
    pub fn get_type_dependency_rust(&self, type_: TypeKey) -> (r: Option<Value>)
        ensures
            r == (if self.type_dependencies@.contains_key(type_) {
                Some(self.type_dependencies@[type_])
            } else {
                None::<Value>
            }),
    {
        match self.type_dependencies.get(&type_) {
            Some(v) => Some(*v),
            None => None,
        }
    }

    /// Direct registry query: the registered value, else the default, else
    /// the `Undefined` sentinel; never an error.
    pub fn get_type_dependency(&self, type_: TypeKey, default: Option<Value>) -> (r: Value)
        ensures
            r == registry_query(self.type_dependencies@, type_, default),
    {
        match self.get_type_dependency_rust(type_) {
            Some(v) => v,
            None => match default {
                Some(d) => d,
                None => Value::Undefined,
            },
        }
    }

    /// Unregisters a type dependency; fails with `NotFound` when the type
    /// has no registered value.
    pub fn remove_type_dependency(&mut self, type_: TypeKey) -> (r: Result<(), InjectionError>)
        ensures
            final(self).type_dependencies@ == old(self).type_dependencies@.remove(type_),
            final(self).callback_overrides@ == old(self).callback_overrides@,
            final(self).descriptors@ == old(self).descriptors@,
            r is Ok <==> old(self).type_dependencies@.contains_key(type_),
            r matches Err(e) ==> e@ == ErrorModel::NotFound,
    {
        match self.type_dependencies.remove(&type_) {
            Some(_) => Ok(()),
            None => {
                proof {
                    assert(final(self).type_dependencies@ =~= old(
                        self,
                    ).type_dependencies@.remove(type_));
                }
                Err(InjectionError::NotFound)
            },
        }
    }

    /// Registers (or replaces) the override invoked in place of a callable.
    pub fn set_callback_override(&mut self, callback: CallableKey, replacement: CallableKey)
        ensures
            final(self).callback_overrides@ == old(self).callback_overrides@.insert(
                callback,
                replacement,
            ),
            final(self).type_dependencies@ == old(self).type_dependencies@,
            final(self).descriptors@ == old(self).descriptors@,
    {
        self.callback_overrides.insert(callback, replacement);
    }

    /// The registered override for a callable, if any.
    pub fn get_callback_override(&self, callback: CallableKey) -> (r: Option<CallableKey>)
        ensures
            r == (if self.callback_overrides@.contains_key(callback) {
                Some(self.callback_overrides@[callback])
            } else {
                None::<CallableKey>
            }),
    {
        match self.callback_overrides.get(&callback) {
            Some(v) => Some(*v),
            None => None,
        }
    }

    /// The cached descriptor list for a callable, if present; never runs
    /// the parser.
    pub fn lookup_descriptors(&self, callback: CallableKey) -> (r: Option<DescriptorList>)
        ensures
            match r {
                Some(l) => self.descriptors@.lists.contains_key(callback) && list_model(l@)
                    == self.descriptors@.lists[callback],
                None => !self.descriptors@.lists.contains_key(callback),
            },
    {
        match self.descriptors.entries.get(&callback) {
            Some(stored) => Some(clone_list(stored)),
            None => None,
        }
    }

    /// Fetches the descriptor list for a callable, computing it at most
    /// once: a cached list is answered as it stands, without running the
    /// parser and without looking at the given signature. Otherwise the
    /// parser runs on the signature and, on success, its result is stored by
    /// one fetch-or-insert step and shared by every later resolution of the
    /// callable. A parse that asks for evaluated introspection or fails is
    /// not cached: every resolution attempt fails the same way rather than
    /// silently succeeding with partial injection.
    pub fn build_descriptors(
        &mut self,
        callback: CallableKey,
        signature: &SignatureData,
        evaluated: bool,
    ) -> (r: BuildOutcome)
        requires
            old(self).descriptors.parses < u64::MAX,
        ensures
            final(self).type_dependencies@ == old(self).type_dependencies@,
            final(self).callback_overrides@ == old(self).callback_overrides@,
            ({
                let pm = parse_signature_model(signature@, evaluated);
                let hit = old(self).descriptors@.lists.contains_key(callback);
                &&& (hit || pm is Done) ==> ({
                    let stepped = cache_step(old(self).descriptors@, callback, done_entries(pm));
                    &&& final(self).descriptors@ == stepped.0
                    &&& r matches BuildOutcome::Built(b) && list_model(b@) == stepped.1
                })
                &&& (!hit && pm is NeedsEvaluation) ==> ({
                    &&& final(self).descriptors@.lists == old(self).descriptors@.lists
                    &&& final(self).descriptors@.parses == old(self).descriptors@.parses + 1
                    &&& r is NeedsEvaluation
                })
                &&& (!hit ==> (pm matches ParseModel::Fail(err) ==> ({
                    &&& final(self).descriptors@.lists == old(self).descriptors@.lists
                    &&& final(self).descriptors@.parses == old(self).descriptors@.parses + 1
                    &&& r matches BuildOutcome::Rejected(e) && e@ == err
                })))
            }),
    {
        if let Some(stored) = self.descriptors.entries.get(&callback) {
            let copy = clone_list(stored);
            return BuildOutcome::Built(copy);
        }
        match ParameterVisitor::visit_callback(signature, evaluated) {
            ParseOutcome::Parsed(list) => {
                let copy = clone_list(&list);
                self.descriptors.parses = self.descriptors.parses + 1;
                let ghost lists0 = self.descriptors@.lists;
                self.descriptors.entries.insert(callback, list);
                proof {
                    assert(final(self).descriptors@.lists =~= lists0.insert(
                        callback,
                        parse_signature_model(signature@, evaluated)->Done_0,
                    ));
                }
                BuildOutcome::Built(copy)
            },
            ParseOutcome::NeedsEvaluation => {
                self.descriptors.parses = self.descriptors.parses + 1;
                BuildOutcome::NeedsEvaluation
            },
            ParseOutcome::Rejected(e) => {
                self.descriptors.parses = self.descriptors.parses + 1;
                BuildOutcome::Rejected(e)
            },
        }
    }

    /// Unregisters a callback override; fails with `NotFound` when the
    /// callable has none.
    pub fn remove_callback_override(&mut self, callback: CallableKey) -> (r: Result<
        (),
        InjectionError,
    >)
        ensures
            final(self).callback_overrides@ == old(self).callback_overrides@.remove(callback),
            final(self).type_dependencies@ == old(self).type_dependencies@,
            final(self).descriptors@ == old(self).descriptors@,
            r is Ok <==> old(self).callback_overrides@.contains_key(callback),
            r matches Err(e) ==> e@ == ErrorModel::NotFound,
    {
        match self.callback_overrides.remove(&callback) {
            Some(_) => Ok(()),
            None => {
                proof {
                    assert(final(self).callback_overrides@ =~= old(
                        self,
                    ).callback_overrides@.remove(callback));
                }
                Err(InjectionError::NotFound)
            },
        }
    }
}

/// The per-call-tree scope: a local type-override layer that shadows the
/// client, and a local result-memoization cache for callback-injected
/// values. A context is created per outer resolution and discarded with it.
pub struct BasicContext {
    pub result_cache: HashMap<CallableKey, Value>,
    pub type_overrides: HashMap<TypeKey, Value>,
}

impl BasicContext {
    /// A fresh context with no local overrides and no memoized results.
    pub fn new() -> (r: Self)
        ensures
            r.result_cache@ == Map::<CallableKey, Value>::empty(),
            r.type_overrides@ == Map::<TypeKey, Value>::empty(),
    {
        BasicContext { result_cache: HashMap::new(), type_overrides: HashMap::new() }
    }

    /// Layered type lookup: this context's overrides first, then the owning
    /// client's registry; `None` when neither has the key.
    pub fn get_type_dependency_rust(&self, client: &Client, type_: TypeKey) -> (r: Option<Value>)
        ensures
            r == lookup_type(resolve_env(*client, *self), type_),
    {
        match self.type_overrides.get(&type_) {
            Some(v) => Some(*v),
            None => client.get_type_dependency_rust(type_),
        }
    }

    /// Direct layered query: the override or registered value, else the
    /// default, else the `Undefined` sentinel; never an error.
    pub fn get_type_dependency(&self, client: &Client, type_: TypeKey, default: Option<Value>) -> (r:
        Value)
        ensures
            r == (match lookup_type(resolve_env(*client, *self), type_) {
                Some(v) => v,
                None => match default {
                    Some(d) => d,
                    None => Value::Undefined,
                },
            }),
    {
        match self.get_type_dependency_rust(client, type_) {
            Some(v) => v,
            None => match default {
                Some(d) => d,
                None => Value::Undefined,
            },
        }
    }

    /// Memoizes a resolved value for a callable within this call tree.
    pub fn cache_result(&mut self, callback: CallableKey, value: Value)
        ensures
            final(self).result_cache@ == old(self).result_cache@.insert(callback, value),
            final(self).type_overrides@ == old(self).type_overrides@,
    {
        self.result_cache.insert(callback, value);
    }

    /// The memoized result for a callable, else the default, else the
    /// `Undefined` sentinel.
    pub fn get_cached_result(&self, callback: CallableKey, default: Option<Value>) -> (r: Value)
        ensures
            r == registry_query(self.result_cache@, callback, default),
    {
        match self.result_cache.get(&callback) {
            Some(v) => *v,
            None => match default {
                Some(d) => d,
                None => Value::Undefined,
            },
        }
    }

    /// Pins a type to a value for this call tree, shadowing the client.
    pub fn set_type_override(&mut self, type_: TypeKey, value: Value)
        ensures
            final(self).type_overrides@ == old(self).type_overrides@.insert(type_, value),
            final(self).result_cache@ == old(self).result_cache@,
    {
        self.type_overrides.insert(type_, value);
    }

    /// Removes a local type override; fails with `NotFound` when the type
    /// has none.
    pub fn remove_type_override(&mut self, type_: TypeKey) -> (r: Result<(), InjectionError>)
        ensures
            final(self).type_overrides@ == old(self).type_overrides@.remove(type_),
            final(self).result_cache@ == old(self).result_cache@,
            r is Ok <==> old(self).type_overrides@.contains_key(type_),
            r matches Err(e) ==> e@ == ErrorModel::NotFound,
    {
        match self.type_overrides.remove(&type_) {
            Some(_) => Ok(()),
            None => {
                proof {
                    assert(final(self).type_overrides@ =~= old(self).type_overrides@.remove(type_));
                }
                Err(InjectionError::NotFound)
            },
        }
    }
}

/// Cache idempotence law: however many resolutions race to be first, the
/// write-once discipline hands each of them the same descriptor list and
/// runs the parser at most once per callable — after one fetch-or-insert
/// step the key is present, so any further step returns the list the first
/// one produced, changes nothing, and counts no further parse, whatever a
/// speculative second parse would have produced.
pub proof fn lemma_cache_idempotence(
    c: CacheModel,
    k: CallableKey,
    parsed1: Seq<EntryModel>,
    parsed2: Seq<EntryModel>,
)
    ensures
        ({
            let first = cache_step(c, k, parsed1);
            let second = cache_step(first.0, k, parsed2);
            &&& second == first
            &&& first.0.parses <= c.parses + 1
        }),
{
}

/// Override precedence law: after registering `g` as the override for `f`,
/// a callback descriptor wrapping `f` resolves through `g`; removing the
/// override reverts resolution to `f` itself.
pub proof fn lemma_override_precedence(
    ov: Map<CallableKey, CallableKey>,
    f: CallableKey,
    g: CallableKey,
)
    ensures
        select_override(ov.insert(f, g), f) == g,
        select_override(ov.insert(f, g).remove(f), f) == f,
{
}

} // verus!
