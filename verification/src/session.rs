//! Session contexts: fresh construction from resolved options, the
//! process-wide cache of the two default contexts, and per-execution task
//! contexts.

use vstd::prelude::*;

use std::sync::Arc;
use datafusion::execution::context::SessionContext;
use datafusion::execution::TaskContext;

use crate::engine::build_session_context_plain;
use crate::engine::build_session_context_spilling;
use crate::engine::clone_session_context;
use crate::engine::derive_task_context;
use crate::engine::derive_task_context_with_batch_size;
use crate::engine::session_id_of;
use crate::engine::task_batch_size;
use crate::options::DEFAULT_LANCE_MEM_POOL_SIZE;
use crate::options::EnvOverrides;
use crate::options::LanceExecutionOptions;

verus! {

/// An engine execution context together with the resolved configuration it
/// was built from and its engine identifier, both captured at construction.
/// Handles are shallow: clones share the same underlying context. The
/// recorded flag and budget are this library's model of the context: the
/// engine context itself is opaque and internally mutable, so what pool it
/// actually carries cannot be stated over the value; the fields record what
/// was requested and handed to the trusted builders.
pub struct SessionHandle {
    pub inner: SessionContext,
    pub spilling: bool,
    pub pool_size: u64,
    pub id: String,
}

impl SessionHandle {
    /// The handle records the configuration these options resolve to.
    pub open spec fn configured_as(
        &self,
        options: LanceExecutionOptions,
        env: EnvOverrides,
    ) -> bool {
        &&& self.spilling == options.spec_use_spilling(env)
        &&& self.pool_size == options.spec_mem_pool_size(env)
    }

    /// A shallow copy sharing the same engine context.
    pub fn clone_handle(&self) -> (r: SessionHandle)
        ensures
            r.inner == self.inner,
            r.spilling == self.spilling,
            r.pool_size == self.pool_size,
            r.id@ == self.id@,
    {
        SessionHandle {
            inner: clone_session_context(&self.inner),
            spilling: self.spilling,
            pool_size: self.pool_size,
            id: self.id.clone(),
        }
    }

    /// The engine identifier captured at construction; clones share it.
    pub fn session_id(&self) -> (r: String)
        ensures
            r@ == self.id@,
    {
        self.id.clone()
    }
}

/// Always constructs a fresh context. When the resolved spilling flag is on,
/// its memory pool is a bounded fair pool sized to the resolved budget that
/// spills overflow to a disk manager; otherwise neither is attached.
pub fn new_session_context(options: &LanceExecutionOptions, env: &EnvOverrides) -> (r:
    SessionHandle)
    ensures
        r.configured_as(*options, *env),
{
    let spilling = options.use_spilling(env);
    let pool_size = options.mem_pool_size(env);
    let inner = if spilling {
        build_session_context_spilling(pool_size)
    } else {
        build_session_context_plain()
    };
    let id = session_id_of(&inner);
    SessionHandle { inner, spilling, pool_size, id }
}

/// Up to two lazily-built default contexts — spilling off and spilling on,
/// both with the default memory budget — built once and reused for the rest
/// of the process. The host application owns one such cache behind a lock
/// with a process lifetime.
pub struct ContextCache {
    pub no_spill: Option<SessionHandle>,
    pub spill: Option<SessionHandle>,
}

/// Each filled slot holds a context of exactly the configuration the slot
/// stands for: the matching spilling flag and the default budget.
pub open spec fn cache_wf(c: ContextCache) -> bool {
    &&& c.no_spill matches Some(h) ==> !h.spilling && h.pool_size == DEFAULT_LANCE_MEM_POOL_SIZE
    &&& c.spill matches Some(h) ==> h.spilling && h.pool_size == DEFAULT_LANCE_MEM_POOL_SIZE
}

/// The slot serving a resolved spilling flag.
pub open spec fn cache_slot(c: ContextCache, spilling: bool) -> Option<SessionHandle> {
    if spilling {
        c.spill
    } else {
        c.no_spill
    }
}

/// Options qualify for the cache exactly when their resolved budget is the
/// hard-coded default.
pub open spec fn is_default_pool(options: LanceExecutionOptions, env: EnvOverrides) -> bool {
    options.spec_mem_pool_size(env) == DEFAULT_LANCE_MEM_POOL_SIZE
}

impl ContextCache {
    /// A cache with both contexts still unbuilt.
    pub fn new() -> (r: ContextCache)
        ensures
            r.no_spill is None,
            r.spill is None,
            cache_wf(r),
    {
        ContextCache { no_spill: None, spill: None }
    }
}

/// How one cache lookup changes the cache: a default-budget request fills
/// its slot at most once and touches nothing else; any other request leaves
/// the cache exactly as it was.
pub open spec fn cache_evolves(
    c0: ContextCache,
    c1: ContextCache,
    options: LanceExecutionOptions,
    env: EnvOverrides,
) -> bool {
    let spilling = options.spec_use_spilling(env);
    &&& cache_wf(c1)
    &&& if is_default_pool(options, env) {
        &&& cache_slot(c1, spilling) is Some
        &&& (cache_slot(c0, spilling) is Some ==> c1 == c0)
        &&& cache_slot(c1, !spilling) == cache_slot(c0, !spilling)
    } else {
        c1 == c0
    }
}

/// Everything one `get_session_context` call guarantees: the cache evolves
/// as above, the returned handle matches the resolved configuration, and a
/// default-budget request returns the very context now held in the slot.
pub open spec fn get_session_context_post(
    c0: ContextCache,
    c1: ContextCache,
    r: SessionHandle,
    options: LanceExecutionOptions,
    env: EnvOverrides,
) -> bool {
    let spilling = options.spec_use_spilling(env);
    &&& cache_evolves(c0, c1, options, env)
    &&& r.configured_as(options, env)
    &&& is_default_pool(options, env) ==> {
        &&& r.inner == cache_slot(c1, spilling)->0.inner
        &&& r.id@ == cache_slot(c1, spilling)->0.id@
    }
}

/// The caching entry point: a request whose resolved budget is the default
/// is served from the slot matching its resolved spilling flag, building
/// that slot's context on first use; any other request gets a fresh,
/// non-cached context.
pub fn get_session_context(
    options: &LanceExecutionOptions,
    env: &EnvOverrides,
    cache: &mut ContextCache,
) -> (r: SessionHandle)
    requires
        cache_wf(*old(cache)),
    ensures
        get_session_context_post(*old(cache), *final(cache), r, *options, *env),
{
    let pool_size = options.mem_pool_size(env);
    if pool_size == DEFAULT_LANCE_MEM_POOL_SIZE {
        let spilling = options.use_spilling(env);
        if spilling {
            match &cache.spill {
                Some(h) => h.clone_handle(),
                None => {
                    let built = new_session_context(options, env);
                    let r = built.clone_handle();
                    cache.spill = Some(built);
                    r
                },
            }
        } else {
            match &cache.no_spill {
                Some(h) => h.clone_handle(),
                None => {
                    let built = new_session_context(options, env);
                    let r = built.clone_handle();
                    cache.no_spill = Some(built);
                    r
                },
            }
        }
    } else {
        new_session_context(options, env)
    }
}

/// Repeated cache lookups with default-budget options that resolve to the
/// same spilling flag hand back the identical shared context, and the
/// second lookup changes nothing.
pub proof fn lemma_default_context_reused(
    c0: ContextCache,
    c1: ContextCache,
    c2: ContextCache,
    r1: SessionHandle,
    r2: SessionHandle,
    o1: LanceExecutionOptions,
    o2: LanceExecutionOptions,
    e1: EnvOverrides,
    e2: EnvOverrides,
)
    requires
        get_session_context_post(c0, c1, r1, o1, e1),
        get_session_context_post(c1, c2, r2, o2, e2),
        is_default_pool(o1, e1),
        is_default_pool(o2, e2),
        o1.spec_use_spilling(e1) == o2.spec_use_spilling(e2),
    ensures
        r2.inner == r1.inner,
        r2.id@ == r1.id@,
        c2 == c1,
{
}

/// Derives a task-scoped context for one execution. A batch-size override
/// applies only to this call's own copy of the configuration; the shared
/// session visible to concurrent users of the same context is untouched.
pub fn get_task_context(session: &SessionHandle, options: &LanceExecutionOptions) -> (r: Arc<
    TaskContext,
>)
    requires
        options.valid_batch_size(),
    ensures
        options.batch_size matches Some(bs) ==> task_batch_size(*r) == bs,
{
    match options.batch_size {
        Some(bs) => derive_task_context_with_batch_size(&session.inner, bs),
        None => derive_task_context(&session.inner),
    }
}

} // verus!
