//! The resolver: the synchronous and the asynchronous resolution protocol,
//! each as an explicit per-call state machine.
//!
//! The engine decides; the driver acts. A machine hands the driver one
//! action at a time — introspect this callable, resolve that dependency,
//! invoke the target — and the driver hands back what the host returned.
//! Everything between two actions (descriptor fetching, type lookups,
//! override substitution, keyword merging, protocol errors) is computed here
//! and verified; the host work itself happens outside.

use vstd::prelude::*;

use crate::client::{
    cache_step, done_entries, resolve_env, select_override, BasicContext, BuildOutcome, Client,
    ResolveEnv,
};
use crate::types::{
    clone_string, list_model, resolve_type_model, DescriptorList, EntryModel, Injected,
    InjectedModel,
};
use crate::values::{CallableKey, ErrorModel, InjectionError, Value};
use crate::visitor::{parse_signature_model, ParseModel, SignatureData};

verus! {

/// One named value to merge into the call's keyword arguments. Injected
/// values are merged by appending; a later entry for the same name takes
/// precedence at the host's keyword table, which is the engine's one
/// deterministic merge policy (injection targets only parameter names the
/// caller did not supply).
pub struct KwargEntry {
    pub name: String,
    pub value: Value,
}

/// Ghost rendering of one keyword argument.
pub ghost struct KwargModel {
    pub name: Seq<char>,
    pub value: Value,
}

impl View for KwargEntry {
    type V = KwargModel;

    open spec fn view(&self) -> KwargModel {
        KwargModel { name: self.name@, value: self.value }
    }
}

/// Ghost rendering of a keyword-argument list.
pub open spec fn kwargs_model(ks: Seq<KwargEntry>) -> Seq<KwargModel> {
    ks.map(|i: int, k: KwargEntry| k@)
}

/// An owned copy of a positional-argument list.
fn copy_values(v: &Vec<Value>) -> (r: Vec<Value>)
    ensures
        r@ == v@,
{
    let n: usize = v.len();
    let mut out: Vec<Value> = Vec::new();
    let mut i: usize = 0;
    while i < n
        invariant
            n == v@.len(),
            i <= n,
            out@ == v@.take(i as int),
        decreases n - i,
    {
        out.push(v[i]);
        proof {
            assert(out@ =~= v@.take(i as int + 1));
        }
        i = i + 1;
    }
    proof {
        assert(out@ =~= v@);
    }
    out
}

/// An owned copy of a keyword-argument list, with the same model.
fn clone_kwargs(v: &Vec<KwargEntry>) -> (r: Vec<KwargEntry>)
    ensures
        kwargs_model(r@) == kwargs_model(v@),
{
    let n: usize = v.len();
    let mut out: Vec<KwargEntry> = Vec::new();
    let mut i: usize = 0;
    while i < n
        invariant
            n == v@.len(),
            i <= n,
            out@.len() == i,
            kwargs_model(out@) == kwargs_model(v@).take(i as int),
        decreases n - i,
    {
        out.push(KwargEntry { name: clone_string(&v[i].name), value: v[i].value });
        proof {
            assert(kwargs_model(out@) =~= kwargs_model(v@).take(i as int + 1));
        }
        i = i + 1;
    }
    proof {
        assert(kwargs_model(out@) =~= kwargs_model(v@));
    }
    out
}

/// Protocol phase of one resolution.
#[derive(Clone, Copy, PartialEq, Eq, Structural, Debug)]
pub enum Phase {
    /// The descriptor list is not cached yet; introspection was requested.
    DescriptorsComputing,
    /// Waiting for one or more callback-injected dependencies.
    ValuesResolving,
    /// All values are merged; the invocation was requested.
    Invoking,
    /// Asynchronous protocol only: the invocation returned an awaitable,
    /// which is being awaited.
    AwaitingResult,
    /// Terminal: the resolved value is available.
    Done,
    /// Terminal: the resolution failed.
    Failed,
}

/// What the driver of a synchronous resolution must do next.
pub enum SyncAction {
    /// Introspect the callable's signature — fully evaluating deferred
    /// declared types when `evaluate` is set — and hand the outcome back
    /// through `on_metadata`.
    NeedMetadata { callback: CallableKey, evaluate: bool },
    /// Resolve `target` through a recursive synchronous resolution with no
    /// positional and no keyword arguments, and hand the value back through
    /// `on_resolved`.
    ResolveDependency { target: CallableKey },
    /// Invoke the callable with the caller's positional arguments and these
    /// keyword arguments, and hand the result back through `on_invoked`.
    Invoke { callback: CallableKey, args: Vec<Value>, kwargs: Vec<KwargEntry> },
    /// Terminal: the resolution produced this value.
    Finished { value: Value },
    /// Terminal: the resolution failed.
    Failed { error: InjectionError },
}

/// The outcome of walking a descriptor list from a position in the
/// synchronous protocol: blocked on a callback-injected dependency, ready to
/// invoke with the merged keyword arguments, or stopped by an error.
pub ghost enum SyncStepModel {
    Await { at: int, kwargs: Seq<KwargModel>, target: CallableKey },
    Ready { kwargs: Seq<KwargModel> },
    Stopped { error: ErrorModel },
}

/// The synchronous walk: descriptors are processed strictly in list order.
/// A type-injected entry resolves at once against the current environment
/// and is merged under its parameter name; the first failure stops the walk
/// and no invocation happens; a callback-injected entry blocks the walk
/// until its (possibly overridden) target has been resolved recursively.
pub open spec fn sync_walk(
    entries: Seq<EntryModel>,
    i: int,
    kwargs: Seq<KwargModel>,
    env: ResolveEnv,
) -> SyncStepModel
    decreases entries.len() - i,
{
    if i < 0 || i >= entries.len() {
        SyncStepModel::Ready { kwargs }
    } else {
        match entries[i].injected {
            InjectedModel::Type { t } => match resolve_type_model(env, t) {
                Ok(v) => sync_walk(
                    entries,
                    i + 1,
                    kwargs.push(KwargModel { name: entries[i].name, value: v }),
                    env,
                ),
                Err(e) => SyncStepModel::Stopped { error: e },
            },
            InjectedModel::Callback { callback } => SyncStepModel::Await {
                at: i,
                kwargs,
                target: select_override(env.overrides, callback),
            },
        }
    }
}

/// How a machine and the action it handed out realize a walk outcome.
pub open spec fn sync_step_post(m: SyncResolution, act: SyncAction, w: SyncStepModel) -> bool {
    match w {
        SyncStepModel::Await { at, kwargs, target } => {
            &&& m.phase is ValuesResolving
            &&& m.idx == at
            &&& kwargs_model(m.kwargs@) == kwargs
            &&& act matches SyncAction::ResolveDependency { target: t } && t == target
        },
        SyncStepModel::Ready { kwargs } => {
            &&& m.phase is Invoking
            &&& act matches SyncAction::Invoke { callback, args, kwargs: ks } && callback
                == m.callback && args@ == m.args@ && kwargs_model(ks@) == kwargs
        },
        SyncStepModel::Stopped { error } => {
            &&& m.phase is Failed
            &&& act matches SyncAction::Failed { error: e } && e@ == error
        },
    }
}

/// One synchronous resolution of one callable, driven action by action.
/// Recursive resolutions of callback-injected dependencies are separate
/// machines run by the driver while this one is blocked.
pub struct SyncResolution {
    /// The callable being resolved.
    pub callback: CallableKey,
    /// The caller's positional arguments, passed through to the invocation.
    pub args: Vec<Value>,
    /// The caller's keyword arguments plus every injected value merged so
    /// far.
    pub kwargs: Vec<KwargEntry>,
    /// The callable's descriptor list, once fetched from the cache.
    pub entries: DescriptorList,
    /// The next descriptor to process.
    pub idx: usize,
    /// Whether fully evaluated introspection has been requested.
    pub evaluated: bool,
    pub phase: Phase,
}

impl SyncResolution {
    /// Well-formedness between steps: the cursor stays on the list, and a
    /// blocked machine points at the callback-injected entry it waits for.
    pub open spec fn inv(self) -> bool {
        &&& self.idx <= self.entries@.len()
        &&& (self.phase is ValuesResolving ==> self.idx < self.entries@.len() && list_model(
            self.entries@,
        )[self.idx as int].injected is Callback)
    }

    /// Walks descriptors from the cursor until the walk blocks, completes or
    /// fails, and hands out the corresponding action.
    fn advance(&mut self, client: &Client, ctx: &BasicContext) -> (act: SyncAction)
        requires
            old(self).idx <= old(self).entries@.len(),
        ensures
            final(self).inv(),
            final(self).callback == old(self).callback,
            final(self).args@ == old(self).args@,
            final(self).entries@ == old(self).entries@,
            final(self).evaluated == old(self).evaluated,
            sync_step_post(
                *final(self),
                act,
                sync_walk(
                    list_model(old(self).entries@),
                    old(self).idx as int,
                    kwargs_model(old(self).kwargs@),
                    resolve_env(*client, *ctx),
                ),
            ),
    {
        let ghost env = resolve_env(*client, *ctx);
        let ghost entries_m = list_model(self.entries@);
        let n: usize = self.entries.len();
        while self.idx < n
            invariant
                n == self.entries@.len(),
                entries_m == list_model(self.entries@),
                self.idx <= n,
                self.callback == old(self).callback,
                self.args@ == old(self).args@,
                self.entries@ == old(self).entries@,
                self.evaluated == old(self).evaluated,
                env == resolve_env(*client, *ctx),
                sync_walk(entries_m, old(self).idx as int, kwargs_model(old(self).kwargs@), env)
                    == sync_walk(entries_m, self.idx as int, kwargs_model(self.kwargs@), env),
            decreases n - self.idx,
        {
            let i: usize = self.idx;
            proof {
                assert(entries_m[i as int] == self.entries@[i as int]@);
            }
            match &self.entries[i].injected {
                Injected::Type(t) => {
                    match t.resolve(client, ctx) {
                        Ok(v) => {
                            let ghost kw0 = kwargs_model(self.kwargs@);
                            let name = clone_string(&self.entries[i].name);
                            self.kwargs.push(KwargEntry { name, value: v });
                            proof {
                                assert(kwargs_model(self.kwargs@) =~= kw0.push(
                                    KwargModel { name: entries_m[i as int].name, value: v },
                                ));
                            }
                            self.idx = i + 1;
                        },
                        Err(e) => {
                            self.phase = Phase::Failed;
                            return SyncAction::Failed { error: e };
                        },
                    }
                },
                Injected::Callback(c) => {
                    let target: CallableKey = c.resolve_target(client);
                    self.phase = Phase::ValuesResolving;
                    return SyncAction::ResolveDependency { target };
                },
            }
        }
        self.phase = Phase::Invoking;
        SyncAction::Invoke {
            callback: self.callback,
            args: copy_values(&self.args),
            kwargs: clone_kwargs(&self.kwargs),
        }
    }

    /// Begins a synchronous resolution of `callback` with the caller's
    /// arguments. On a descriptor-cache hit the walk starts at once; on a
    /// miss the driver is asked to introspect the callable first.
    pub fn start(
        client: &Client,
        ctx: &BasicContext,
        callback: CallableKey,
        args: Vec<Value>,
        kwargs: Vec<KwargEntry>,
    ) -> (r: (SyncResolution, SyncAction))
        ensures
            r.0.inv(),
            r.0.callback == callback,
            r.0.args@ == args@,
            r.0.evaluated == false,
            ({
                if client.descriptors@.lists.contains_key(callback) {
                    &&& list_model(r.0.entries@) == client.descriptors@.lists[callback]
                    &&& sync_step_post(
                        r.0,
                        r.1,
                        sync_walk(
                            client.descriptors@.lists[callback],
                            0,
                            kwargs_model(kwargs@),
                            resolve_env(*client, *ctx),
                        ),
                    )
                } else {
                    &&& r.0.phase is DescriptorsComputing
                    &&& kwargs_model(r.0.kwargs@) == kwargs_model(kwargs@)
                    &&& r.1 matches SyncAction::NeedMetadata { callback: cb, evaluate } && cb
                        == callback && evaluate == false
                }
            }),
    {
        match client.lookup_descriptors(callback) {
            Some(entries) => {
                let mut m = SyncResolution {
                    callback,
                    args,
                    kwargs,
                    entries,
                    idx: 0,
                    evaluated: false,
                    phase: Phase::ValuesResolving,
                };
                let act = m.advance(client, ctx);
                (m, act)
            },
            None => {
                let m = SyncResolution {
                    callback,
                    args,
                    kwargs,
                    entries: Vec::new(),
                    idx: 0,
                    evaluated: false,
                    phase: Phase::DescriptorsComputing,
                };
                (m, SyncAction::NeedMetadata { callback, evaluate: false })
            },
        }
    }

    /// Hands back the introspected signature after a cache miss. The
    /// descriptor list is fetched through the write-once cache (parsed at
    /// most once) and the walk starts; a parse that meets a deferred
    /// declared type asks once for fully evaluated introspection; a parse
    /// failure fails the resolution and is not cached, so every attempt
    /// fails the same way.
    pub fn on_metadata(
        &mut self,
        client: &mut Client,
        ctx: &BasicContext,
        signature: &SignatureData,
    ) -> (act: SyncAction)
        requires
            old(self).phase is DescriptorsComputing,
            old(self).inv(),
            old(client).descriptors.parses < u64::MAX,
        ensures
            final(self).inv(),
            final(self).callback == old(self).callback,
            final(self).args@ == old(self).args@,
            final(client).type_dependencies@ == old(client).type_dependencies@,
            final(client).callback_overrides@ == old(client).callback_overrides@,
            ({
                let pm = parse_signature_model(signature@, old(self).evaluated);
                let hit = old(client).descriptors@.lists.contains_key(old(self).callback);
                &&& (hit || pm is Done) ==> ({
                    let stepped = cache_step(
                        old(client).descriptors@,
                        old(self).callback,
                        done_entries(pm),
                    );
                    &&& final(client).descriptors@ == stepped.0
                    &&& list_model(final(self).entries@) == stepped.1
                    &&& sync_step_post(
                        *final(self),
                        act,
                        sync_walk(
                            stepped.1,
                            0,
                            kwargs_model(old(self).kwargs@),
                            resolve_env(*old(client), *ctx),
                        ),
                    )
                })
                &&& (!hit && pm is NeedsEvaluation) ==> ({
                    &&& final(self).phase is DescriptorsComputing
                    &&& final(self).evaluated == true
                    &&& kwargs_model(final(self).kwargs@) == kwargs_model(old(self).kwargs@)
                    &&& final(client).descriptors@.lists == old(client).descriptors@.lists
                    &&& act matches SyncAction::NeedMetadata { callback: cb, evaluate } && cb
                        == old(self).callback && evaluate == true
                })
                &&& (!hit ==> (pm matches ParseModel::Fail(err) ==> ({
                    &&& final(self).phase is Failed
                    &&& final(client).descriptors@.lists == old(client).descriptors@.lists
                    &&& act matches SyncAction::Failed { error: e } && e@ == err
                })))
            }),
    {
        match client.build_descriptors(self.callback, signature, self.evaluated) {
            BuildOutcome::Built(list) => {
                self.entries = list;
                self.idx = 0;
                self.advance(client, ctx)
            },
            BuildOutcome::NeedsEvaluation => {
                self.evaluated = true;
                SyncAction::NeedMetadata { callback: self.callback, evaluate: true }
            },
            BuildOutcome::Rejected(e) => {
                self.phase = Phase::Failed;
                SyncAction::Failed { error: e }
            },
        }
    }

    /// Hands back the value of the callback-injected dependency this machine
    /// is blocked on; the value is merged under the parameter's name and the
    /// walk continues against the current registries.
    pub fn on_resolved(&mut self, client: &Client, ctx: &BasicContext, value: Value) -> (act:
        SyncAction)
        requires
            old(self).phase is ValuesResolving,
            old(self).inv(),
        ensures
            final(self).inv(),
            final(self).callback == old(self).callback,
            final(self).args@ == old(self).args@,
            final(self).entries@ == old(self).entries@,
            sync_step_post(
                *final(self),
                act,
                sync_walk(
                    list_model(old(self).entries@),
                    old(self).idx + 1,
                    kwargs_model(old(self).kwargs@).push(
                        KwargModel {
                            name: list_model(old(self).entries@)[old(self).idx as int].name,
                            value,
                        },
                    ),
                    resolve_env(*client, *ctx),
                ),
            ),
    {
        let i: usize = self.idx;
        let n: usize = self.entries.len();
        proof {
            assert(i < n);
        }
        let ghost kw0 = kwargs_model(self.kwargs@);
        let name = clone_string(&self.entries[i].name);
        self.kwargs.push(KwargEntry { name, value });
        proof {
            assert(kwargs_model(self.kwargs@) =~= kw0.push(
                KwargModel { name: list_model(self.entries@)[i as int].name, value },
            ));
        }
        self.idx = i + 1;
        self.advance(client, ctx)
    }

    /// Hands back the result of the invocation. The synchronous protocol
    /// accepts only a plain value: an awaitable result fails with
    /// `AsyncOnly` — the target has already executed exactly once and the
    /// call cannot be un-done; the awaitable is never driven by this path.
    pub fn on_invoked(&mut self, value: Value) -> (act: SyncAction)
        requires
            old(self).phase is Invoking,
            old(self).inv(),
        ensures
            final(self).inv(),
            final(self).callback == old(self).callback,
            final(self).args@ == old(self).args@,
            final(self).entries@ == old(self).entries@,
            final(self).phase == (if value.is_awaitable() {
                Phase::Failed
            } else {
                Phase::Done
            }),
            (if value.is_awaitable() {
                act matches SyncAction::Failed { error } && error@ == ErrorModel::AsyncOnly
            } else {
                act matches SyncAction::Finished { value: v } && v == value
            }),
    {
        match value {
            Value::Awaitable(_) => {
                self.phase = Phase::Failed;
                SyncAction::Failed { error: InjectionError::AsyncOnly }
            },
            _ => {
                self.phase = Phase::Done;
                SyncAction::Finished { value }
            },
        }
    }
}

/// What the driver of an asynchronous resolution must do next.
pub enum AsyncAction {
    /// As in the synchronous protocol.
    NeedMetadata { callback: CallableKey, evaluate: bool },
    /// Launch one concurrent resolution task per target — all of them
    /// before any one is awaited; each hands its value back through
    /// `on_task_done` under its index in this list, in any order.
    Launch { targets: Vec<CallableKey> },
    /// More launched tasks are still outstanding.
    Waiting,
    /// Invoke the callable with the caller's positional arguments and these
    /// keyword arguments, and hand the result back through `on_invoked`.
    Invoke { callback: CallableKey, args: Vec<Value>, kwargs: Vec<KwargEntry> },
    /// The invocation returned an awaitable: await it and hand the final
    /// value back through `on_awaited`.
    AwaitResult,
    /// Terminal: the resolution produced this value.
    Finished { value: Value },
    /// Terminal: the resolution failed.
    Failed { error: InjectionError },
}

/// One launched callback-injected resolution task.
pub struct PendingTask {
    /// The parameter the task's value is merged under.
    pub name: String,
    /// The callable the task resolves, override already substituted.
    pub target: CallableKey,
}

/// Ghost rendering of one task.
pub ghost struct TaskModel {
    pub name: Seq<char>,
    pub target: CallableKey,
}

impl View for PendingTask {
    type V = TaskModel;

    open spec fn view(&self) -> TaskModel {
        TaskModel { name: self.name@, target: self.target }
    }
}

/// Ghost rendering of a task list.
pub open spec fn tasks_model(ts: Seq<PendingTask>) -> Seq<TaskModel> {
    ts.map(|i: int, t: PendingTask| t@)
}

/// How many launched tasks have not delivered their value yet.
pub open spec fn count_false(s: Seq<bool>) -> int
    decreases s.len(),
{
    if s.len() <= 0 {
        0
    } else {
        count_false(s.drop_last()) + if s.last() {
            0int
        } else {
            1int
        }
    }
}

/// Delivering one outstanding task lowers the outstanding count by one.
proof fn lemma_count_false_update(s: Seq<bool>, i: int)
    requires
        0 <= i < s.len(),
        !s[i],
    ensures
        count_false(s.update(i, true)) == count_false(s) - 1,
    decreases s.len(),
{
    if i == s.len() - 1 {
        assert(s.update(i, true).drop_last() =~= s.drop_last());
        assert(s.update(i, true).last());
    } else {
        lemma_count_false_update(s.drop_last(), i);
        assert(s.update(i, true).drop_last() =~= s.drop_last().update(i, true));
        assert(s.update(i, true).last() == s.last());
    }
}

/// The outcome of partitioning a descriptor list in the asynchronous
/// protocol: the immediately merged keyword arguments and the tasks to
/// launch, or the error that stopped the partition.
pub ghost enum AsyncPlanModel {
    Planned { kwargs: Seq<KwargModel>, tasks: Seq<TaskModel> },
    Stopped { error: ErrorModel },
}

/// The asynchronous partition: walking the descriptor list in order,
/// type-injected entries resolve immediately (pure lookups, never
/// suspending) and merge under their parameter names, while callback-injected
/// entries become concurrent tasks with their overrides substituted; the
/// first type failure stops the partition before anything is launched or
/// invoked.
pub open spec fn async_plan(
    entries: Seq<EntryModel>,
    i: int,
    kwargs: Seq<KwargModel>,
    tasks: Seq<TaskModel>,
    env: ResolveEnv,
) -> AsyncPlanModel
    decreases entries.len() - i,
{
    if i < 0 || i >= entries.len() {
        AsyncPlanModel::Planned { kwargs, tasks }
    } else {
        match entries[i].injected {
            InjectedModel::Type { t } => match resolve_type_model(env, t) {
                Ok(v) => async_plan(
                    entries,
                    i + 1,
                    kwargs.push(KwargModel { name: entries[i].name, value: v }),
                    tasks,
                    env,
                ),
                Err(e) => AsyncPlanModel::Stopped { error: e },
            },
            InjectedModel::Callback { callback } => async_plan(
                entries,
                i + 1,
                kwargs,
                tasks.push(
                    TaskModel { name: entries[i].name, target: select_override(env.overrides, callback) },
                ),
                env,
            ),
        }
    }
}

/// How a machine and the action it handed out realize a partition outcome.
pub open spec fn async_step_post(m: AsyncResolution, act: AsyncAction, p: AsyncPlanModel) -> bool {
    match p {
        AsyncPlanModel::Planned { kwargs, tasks } => {
            if tasks.len() == 0 {
                &&& m.phase is Invoking
                &&& act matches AsyncAction::Invoke { callback, args, kwargs: ks } && callback
                    == m.callback && args@ == m.args@ && kwargs_model(ks@) == kwargs
            } else {
                &&& m.phase is ValuesResolving
                &&& kwargs_model(m.kwargs@) == kwargs
                &&& tasks_model(m.tasks@) == tasks
                &&& m.remaining == tasks.len()
                &&& (forall|j: int| 0 <= j < m.delivered@.len() ==> !m.delivered@[j])
                &&& act matches AsyncAction::Launch { targets } && targets@.len() == tasks.len()
                    && (forall|j: int| 0 <= j < tasks.len() ==> targets@[j] == tasks[j].target)
            }
        },
        AsyncPlanModel::Stopped { error } => {
            &&& m.phase is Failed
            &&& act matches AsyncAction::Failed { error: e } && e@ == error
        },
    }
}

/// One asynchronous resolution of one callable, driven action by action.
/// Each launched task is a separate (asynchronous) resolution run
/// concurrently by the driver while this machine waits for all of them.
pub struct AsyncResolution {
    /// The callable being resolved.
    pub callback: CallableKey,
    /// The caller's positional arguments, passed through to the invocation.
    pub args: Vec<Value>,
    /// The caller's keyword arguments plus every value merged so far.
    pub kwargs: Vec<KwargEntry>,
    /// The launched tasks, in descriptor-list order.
    pub tasks: Vec<PendingTask>,
    /// Which launched tasks have delivered their value.
    pub delivered: Vec<bool>,
    /// How many launched tasks are still outstanding.
    pub remaining: usize,
    /// Whether fully evaluated introspection has been requested.
    pub evaluated: bool,
    pub phase: Phase,
}

impl AsyncResolution {
    /// Well-formedness while tasks are outstanding: one delivery flag per
    /// task, the outstanding count matches the flags, and at least one task
    /// has not delivered.
    pub open spec fn inv(self) -> bool {
        self.phase is ValuesResolving ==> {
            &&& self.delivered@.len() == self.tasks@.len()
            &&& self.remaining == count_false(self.delivered@)
            &&& self.remaining >= 1
        }
    }

    /// Partitions a descriptor list: resolves and merges the type-injected
    /// entries, collects the tasks to launch, and hands out the launch (or
    /// immediate invocation, or failure) action.
    fn plan_from(&mut self, entries: &DescriptorList, client: &Client, ctx: &BasicContext) -> (act:
        AsyncAction)
        requires
            old(self).tasks@.len() == 0,
            old(self).delivered@.len() == 0,
            old(self).remaining == 0,
        ensures
            final(self).inv(),
            final(self).callback == old(self).callback,
            final(self).args@ == old(self).args@,
            final(self).evaluated == old(self).evaluated,
            async_step_post(
                *final(self),
                act,
                async_plan(
                    list_model(entries@),
                    0,
                    kwargs_model(old(self).kwargs@),
                    Seq::empty(),
                    resolve_env(*client, *ctx),
                ),
            ),
    {
        let ghost env = resolve_env(*client, *ctx);
        let ghost entries_m = list_model(entries@);
        let n: usize = entries.len();
        let mut i: usize = 0;
        proof {
            assert(tasks_model(self.tasks@) =~= Seq::<TaskModel>::empty());
        }
        while i < n
            invariant
                n == entries@.len(),
                entries_m == list_model(entries@),
                i <= n,
                self.callback == old(self).callback,
                self.args@ == old(self).args@,
                self.evaluated == old(self).evaluated,
                self.delivered@.len() == 0,
                self.remaining == 0,
                env == resolve_env(*client, *ctx),
                async_plan(entries_m, 0, kwargs_model(old(self).kwargs@), Seq::empty(), env)
                    == async_plan(
                    entries_m,
                    i as int,
                    kwargs_model(self.kwargs@),
                    tasks_model(self.tasks@),
                    env,
                ),
            decreases n - i,
        {
            proof {
                assert(entries_m[i as int] == entries@[i as int]@);
            }
            match &entries[i].injected {
                Injected::Type(t) => {
                    match t.resolve(client, ctx) {
                        Ok(v) => {
                            let ghost kw0 = kwargs_model(self.kwargs@);
                            let name = clone_string(&entries[i].name);
                            self.kwargs.push(KwargEntry { name, value: v });
                            proof {
                                assert(kwargs_model(self.kwargs@) =~= kw0.push(
                                    KwargModel { name: entries_m[i as int].name, value: v },
                                ));
                            }
                        },
                        Err(e) => {
                            self.phase = Phase::Failed;
                            return AsyncAction::Failed { error: e };
                        },
                    }
                },
                Injected::Callback(c) => {
                    let ghost ts0 = tasks_model(self.tasks@);
                    let target: CallableKey = c.resolve_target(client);
                    let name = clone_string(&entries[i].name);
                    self.tasks.push(PendingTask { name, target });
                    proof {
                        assert(tasks_model(self.tasks@) =~= ts0.push(
                            TaskModel { name: entries_m[i as int].name, target },
                        ));
                    }
                },
            }
            i = i + 1;
        }
        let launched: usize = self.tasks.len();
        if launched == 0 {
            self.phase = Phase::Invoking;
            AsyncAction::Invoke {
                callback: self.callback,
                args: copy_values(&self.args),
                kwargs: clone_kwargs(&self.kwargs),
            }
        } else {
            let mut targets: Vec<CallableKey> = Vec::new();
            let mut flags: Vec<bool> = Vec::new();
            let mut j: usize = 0;
            while j < launched
                invariant
                    launched == self.tasks@.len(),
                    j <= launched,
                    targets@.len() == j,
                    flags@.len() == j,
                    forall|k: int| 0 <= k < j ==> targets@[k] == self.tasks@[k].target,
                    forall|k: int| 0 <= k < j ==> !flags@[k],
                    count_false(flags@) == j,
                decreases launched - j,
            {
                let ghost flags0 = flags@;
                targets.push(self.tasks[j].target);
                flags.push(false);
                proof {
                    assert(flags@.drop_last() =~= flags0);
                    assert(!flags@.last());
                }
                j = j + 1;
            }
            self.delivered = flags;
            self.remaining = launched;
            self.phase = Phase::ValuesResolving;
            proof {
                assert(forall|k: int|
                    0 <= k < tasks_model(self.tasks@).len() ==> tasks_model(self.tasks@)[k].target
                        == self.tasks@[k].target);
            }
            AsyncAction::Launch { targets }
        }
    }

    /// Begins an asynchronous resolution of `callback` with the caller's
    /// arguments. On a descriptor-cache hit the partition happens at once;
    /// on a miss the driver is asked to introspect the callable first.
    pub fn start(
        client: &Client,
        ctx: &BasicContext,
        callback: CallableKey,
        args: Vec<Value>,
        kwargs: Vec<KwargEntry>,
    ) -> (r: (AsyncResolution, AsyncAction))
        ensures
            r.0.inv(),
            r.0.callback == callback,
            r.0.args@ == args@,
            r.0.evaluated == false,
            ({
                if client.descriptors@.lists.contains_key(callback) {
                    async_step_post(
                        r.0,
                        r.1,
                        async_plan(
                            client.descriptors@.lists[callback],
                            0,
                            kwargs_model(kwargs@),
                            Seq::empty(),
                            resolve_env(*client, *ctx),
                        ),
                    )
                } else {
                    &&& r.0.phase is DescriptorsComputing
                    &&& kwargs_model(r.0.kwargs@) == kwargs_model(kwargs@)
                    &&& r.1 matches AsyncAction::NeedMetadata { callback: cb, evaluate } && cb
                        == callback && evaluate == false
                }
            }),
    {
        let mut m = AsyncResolution {
            callback,
            args,
            kwargs,
            tasks: Vec::new(),
            delivered: Vec::new(),
            remaining: 0,
            evaluated: false,
            phase: Phase::DescriptorsComputing,
        };
        match client.lookup_descriptors(callback) {
            Some(entries) => {
                let act = m.plan_from(&entries, client, ctx);
                (m, act)
            },
            None => (m, AsyncAction::NeedMetadata { callback, evaluate: false }),
        }
    }

    /// Hands back the introspected signature after a cache miss; the same
    /// write-once cache serves both protocols, so concurrent fetches for the
    /// same callable are safe and parse at most once.
    pub fn on_metadata(
        &mut self,
        client: &mut Client,
        ctx: &BasicContext,
        signature: &SignatureData,
    ) -> (act: AsyncAction)
        requires
            old(self).phase is DescriptorsComputing,
            old(self).inv(),
            old(self).tasks@.len() == 0,
            old(self).delivered@.len() == 0,
            old(self).remaining == 0,
            old(client).descriptors.parses < u64::MAX,
        ensures
            final(self).inv(),
            final(self).callback == old(self).callback,
            final(self).args@ == old(self).args@,
            final(client).type_dependencies@ == old(client).type_dependencies@,
            final(client).callback_overrides@ == old(client).callback_overrides@,
            ({
                let pm = parse_signature_model(signature@, old(self).evaluated);
                let hit = old(client).descriptors@.lists.contains_key(old(self).callback);
                &&& (hit || pm is Done) ==> ({
                    let stepped = cache_step(
                        old(client).descriptors@,
                        old(self).callback,
                        done_entries(pm),
                    );
                    &&& final(client).descriptors@ == stepped.0
                    &&& async_step_post(
                        *final(self),
                        act,
                        async_plan(
                            stepped.1,
                            0,
                            kwargs_model(old(self).kwargs@),
                            Seq::empty(),
                            resolve_env(*old(client), *ctx),
                        ),
                    )
                })
                &&& (!hit && pm is NeedsEvaluation) ==> ({
                    &&& final(self).phase is DescriptorsComputing
                    &&& final(self).evaluated == true
                    &&& kwargs_model(final(self).kwargs@) == kwargs_model(old(self).kwargs@)
                    &&& final(client).descriptors@.lists == old(client).descriptors@.lists
                    &&& act matches AsyncAction::NeedMetadata { callback: cb, evaluate } && cb
                        == old(self).callback && evaluate == true
                })
                &&& (!hit ==> (pm matches ParseModel::Fail(err) ==> ({
                    &&& final(self).phase is Failed
                    &&& final(client).descriptors@.lists == old(client).descriptors@.lists
                    &&& act matches AsyncAction::Failed { error: e } && e@ == err
                })))
            }),
    {
        match client.build_descriptors(self.callback, signature, self.evaluated) {
            BuildOutcome::Built(list) => self.plan_from(&list, client, ctx),
            BuildOutcome::NeedsEvaluation => {
                self.evaluated = true;
                AsyncAction::NeedMetadata { callback: self.callback, evaluate: true }
            },
            BuildOutcome::Rejected(e) => {
                self.phase = Phase::Failed;
                AsyncAction::Failed { error: e }
            },
        }
    }

    /// Hands back one launched task's value, in any completion order. The
    /// value is merged under the task's parameter name; once every task has
    /// delivered, the invocation is requested — all insertions complete
    /// before the call.
    pub fn on_task_done(&mut self, index: usize, value: Value) -> (act: AsyncAction)
        requires
            old(self).phase is ValuesResolving,
            old(self).inv(),
            index < old(self).tasks@.len(),
            !old(self).delivered@[index as int],
        ensures
            final(self).inv(),
            final(self).callback == old(self).callback,
            final(self).args@ == old(self).args@,
            final(self).tasks@ == old(self).tasks@,
            final(self).delivered@ == old(self).delivered@.update(index as int, true),
            final(self).remaining == old(self).remaining - 1,
            kwargs_model(final(self).kwargs@) == kwargs_model(old(self).kwargs@).push(
                KwargModel { name: tasks_model(old(self).tasks@)[index as int].name, value },
            ),
            ({
                if old(self).remaining == 1 {
                    &&& final(self).phase is Invoking
                    &&& act matches AsyncAction::Invoke { callback, args, kwargs: ks } && callback
                        == old(self).callback && args@ == old(self).args@ && kwargs_model(ks@)
                        == kwargs_model(final(self).kwargs@)
                } else {
                    &&& final(self).phase is ValuesResolving
                    &&& act is Waiting
                }
            }),
    {
        let ghost kw0 = kwargs_model(self.kwargs@);
        let name = clone_string(&self.tasks[index].name);
        self.kwargs.push(KwargEntry { name, value });
        self.delivered.set(index, true);
        proof {
            assert(kwargs_model(self.kwargs@) =~= kw0.push(
                KwargModel { name: tasks_model(self.tasks@)[index as int].name, value },
            ));
            lemma_count_false_update(old(self).delivered@, index as int);
        }
        self.remaining = self.remaining - 1;
        if self.remaining == 0 {
            self.phase = Phase::Invoking;
            AsyncAction::Invoke {
                callback: self.callback,
                args: copy_values(&self.args),
                kwargs: clone_kwargs(&self.kwargs),
            }
        } else {
            AsyncAction::Waiting
        }
    }

    /// Hands back the result of the invocation. Unlike the synchronous
    /// protocol, both kinds of result are accepted: an awaitable is awaited,
    /// a plain value is final as it stands.
    pub fn on_invoked(&mut self, value: Value) -> (act: AsyncAction)
        requires
            old(self).phase is Invoking,
            old(self).inv(),
        ensures
            final(self).inv(),
            final(self).callback == old(self).callback,
            final(self).args@ == old(self).args@,
            (if value.is_awaitable() {
                final(self).phase is AwaitingResult && act is AwaitResult
            } else {
                final(self).phase is Done && (act matches AsyncAction::Finished { value: v } && v
                    == value)
            }),
    {
        match value {
            Value::Awaitable(_) => {
                self.phase = Phase::AwaitingResult;
                AsyncAction::AwaitResult
            },
            _ => {
                self.phase = Phase::Done;
                AsyncAction::Finished { value }
            },
        }
    }

    /// Hands back the awaited final value of an awaitable invocation result.
    pub fn on_awaited(&mut self, value: Value) -> (act: AsyncAction)
        requires
            old(self).phase is AwaitingResult,
            old(self).inv(),
        ensures
            final(self).inv(),
            final(self).callback == old(self).callback,
            final(self).args@ == old(self).args@,
            final(self).phase is Done,
            act matches AsyncAction::Finished { value: v } && v == value,
    {
        self.phase = Phase::Done;
        AsyncAction::Finished { value }
    }
}

/// The callback-injected projection of a descriptor list from a position:
/// one task per callback-injected entry, in order, override substituted.
pub open spec fn callback_tasks_from(entries: Seq<EntryModel>, i: int, env: ResolveEnv) -> Seq<
    TaskModel,
>
    decreases entries.len() - i,
{
    if i < 0 || i >= entries.len() {
        Seq::empty()
    } else {
        let rest = callback_tasks_from(entries, i + 1, env);
        match entries[i].injected {
            InjectedModel::Callback { callback } => seq![
                TaskModel { name: entries[i].name, target: select_override(env.overrides, callback) },
            ] + rest,
            InjectedModel::Type { .. } => rest,
        }
    }
}

/// A successful partition's task list is the already-collected tasks plus
/// the callback-injected projection of the remaining entries.
proof fn lemma_async_plan_tasks(
    entries: Seq<EntryModel>,
    i: int,
    kwargs: Seq<KwargModel>,
    tasks: Seq<TaskModel>,
    env: ResolveEnv,
)
    ensures
        async_plan(entries, i, kwargs, tasks, env) matches AsyncPlanModel::Planned {
            tasks: planned,
            ..
        } ==> planned == tasks + callback_tasks_from(entries, i, env),
    decreases entries.len() - i,
{
    if i < 0 || i >= entries.len() {
        assert(tasks + Seq::<TaskModel>::empty() =~= tasks);
    } else {
        match entries[i].injected {
            InjectedModel::Type { t } => {
                match resolve_type_model(env, t) {
                    Ok(v) => {
                        lemma_async_plan_tasks(
                            entries,
                            i + 1,
                            kwargs.push(KwargModel { name: entries[i].name, value: v }),
                            tasks,
                            env,
                        );
                    },
                    Err(_) => {},
                }
            },
            InjectedModel::Callback { callback } => {
                let task = TaskModel {
                    name: entries[i].name,
                    target: select_override(env.overrides, callback),
                };
                lemma_async_plan_tasks(entries, i + 1, kwargs, tasks.push(task), env);
                assert(tasks.push(task) + callback_tasks_from(entries, i + 1, env) =~= tasks + (
                seq![task] + callback_tasks_from(entries, i + 1, env)));
            },
        }
    }
}

/// Async fan-out law: when the partition succeeds, the launched task list
/// is exactly the callback-injected projection of the descriptor list —
/// every callback-injected dependency is launched, in one step and in
/// descriptor order, before any one of them is awaited.
pub proof fn lemma_async_fanout(entries: Seq<EntryModel>, kwargs: Seq<KwargModel>, env: ResolveEnv)
    ensures
        async_plan(entries, 0, kwargs, Seq::empty(), env) matches AsyncPlanModel::Planned {
            tasks,
            ..
        } ==> tasks == callback_tasks_from(entries, 0, env),
{
    lemma_async_plan_tasks(entries, 0, kwargs, Seq::empty(), env);
    assert(Seq::<TaskModel>::empty() + callback_tasks_from(entries, 0, env) =~= callback_tasks_from(
        entries,
        0,
        env,
    ));
}

} // verus!
