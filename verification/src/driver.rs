//! Orchestrates execution of a completed plan against a resolved context:
//! run to a single stream, or run to completion with profiling.

use vstd::prelude::*;

use vstd::string::StringExecFns;

use crate::engine::BatchStream;
use crate::engine::PhysicalPlan;
use crate::engine::df_error_message;
use crate::engine::pull_profiled;
use crate::engine::run_items;
use crate::engine::start_profiled_run;
use crate::engine::execute_partition;
use crate::engine::make_analyze_plan;
use crate::engine::partition_count;
use crate::engine::plan_partition_count;
use crate::engine::render_plan_metrics;
use crate::error::ExecError;
use crate::options::EnvOverrides;
use crate::options::LanceExecutionOptions;
use crate::session::ContextCache;
use crate::session::cache_evolves;
use crate::session::cache_wf;
use crate::session::get_session_context;
use crate::session::get_task_context;

verus! {

/// Executes a plan using a context resolved from the options and returns
/// the stream of its only partition. The single-partition-only contract is
/// a precondition here: a plan reporting any other partition count is a
/// caller bug, and the host application turns it into a fatal failure
/// before reaching this function (see [`try_execute_plan`] for the checked
/// companion). Failures reported by the engine while starting execution
/// come back as [`ExecError::Execution`].
pub fn execute_plan(
    plan: &PhysicalPlan,
    options: &LanceExecutionOptions,
    env: &EnvOverrides,
    cache: &mut ContextCache,
) -> (r: Result<BatchStream, ExecError>)
    requires
        plan_partition_count(*plan) == 1,
        options.valid_batch_size(),
        cache_wf(*old(cache)),
    ensures
        cache_evolves(*old(cache), *final(cache), *options, *env),
        r is Err ==> r->Err_0 is Execution,
{
    let session = get_session_context(options, env, cache);
    let task_ctx = get_task_context(&session, options);
    match execute_partition(plan, 0, task_ctx) {
        Ok(s) => Ok(s),
        Err(e) => Err(ExecError::Execution(df_error_message(&e))),
    }
}

/// The checked companion of [`execute_plan`]: tests the driver's
/// preconditions at run time and reports a violation as a typed error
/// instead of assuming the caller got them right.
pub fn try_execute_plan(
    plan: &PhysicalPlan,
    options: &LanceExecutionOptions,
    env: &EnvOverrides,
    cache: &mut ContextCache,
) -> (r: Result<BatchStream, ExecError>)
    requires
        cache_wf(*old(cache)),
    ensures
        !(plan_partition_count(*plan) == 1 && options.valid_batch_size()) ==> r is Err
            && r->Err_0 is PreconditionViolation && *final(cache) == *old(cache),
        plan_partition_count(*plan) == 1 && options.valid_batch_size() ==> cache_evolves(
            *old(cache),
            *final(cache),
            *options,
            *env,
        ) && (r is Err ==> r->Err_0 is Execution),
{
    if partition_count(plan) != 1 {
        return Err(ExecError::PreconditionViolation);
    }
    let batch_size_ok = match options.batch_size {
        Some(bs) => bs > 0,
        None => true,
    };
    if !batch_size_ok {
        return Err(ExecError::PreconditionViolation);
    }
    execute_plan(plan, options, env, cache)
}

/// Wraps the plan in the engine's profiling node, executes it to stream
/// exhaustion — profiling data is complete only once every batch has been
/// pulled — and then renders the collected metrics as a multi-line report.
/// The profiling node always reports one partition, so the driver's
/// single-partition obligation holds by construction here. A failure to
/// start execution comes back as [`ExecError::Io`].
pub fn analyze_plan(
    plan: &PhysicalPlan,
    options: &LanceExecutionOptions,
    env: &EnvOverrides,
    cache: &mut ContextCache,
) -> (r: Result<String, ExecError>)
    requires
        options.valid_batch_size(),
        cache_wf(*old(cache)),
    ensures
        cache_evolves(*old(cache), *final(cache), *options, *env),
        r is Err ==> r->Err_0 is Io,
        r matches Err(e) ==> e->Io_0@.take("Failed to execute analyze plan: "@.len() as int)
            == "Failed to execute analyze plan: "@,
{
    let analyze = make_analyze_plan(plan);
    let session = get_session_context(options, env, cache);
    let task_ctx = get_task_context(&session, options);
    match start_profiled_run(&analyze, task_ctx) {
        Ok(mut run) => {
            while pull_profiled(&mut run)
                decreases run_items(run),
            {
            }
            Ok(render_plan_metrics(&analyze))
        },
        Err(e) => {
            let mut msg = String::new();
            msg.append("Failed to execute analyze plan: ");
            let detail = df_error_message(&e);
            msg.append(detail.as_str());
            proof {
                let prefix = "Failed to execute analyze plan: "@;
                assert(msg@.take(prefix.len() as int) =~= prefix);
            }
            Err(ExecError::Io(msg))
        },
    }
}

} // verus!
