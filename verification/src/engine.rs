//! Trusted bindings to the host query engine (datafusion) and its columnar
//! format (arrow). Everything in this module is believed, not verified:
//! each item's doc comment names the outside function it relies on. The
//! rest of the crate reasons about these values only through the contracts
//! stated here.

use vstd::prelude::*;

use datafusion::arrow::array::RecordBatch;
use datafusion::arrow::datatypes::Schema;
use datafusion::error::DataFusionError;
use datafusion::execution::context::SessionContext;
use datafusion::execution::TaskContext;
use datafusion::physical_plan::PlanProperties;
use datafusion::common::Statistics;
use std::sync::Arc;

verus! {

#[verifier::external_type_specification]
#[verifier::external_body]
pub struct ExSchema(Schema);

/// A single record batch. The engine's batch type carries trait-object
/// columns the verifier refuses to declare, so it is held opaquely; the one
/// property the contracts read is modeled by [`batch_schema`].
#[verifier::external_body]
pub struct Batch {
    pub inner: RecordBatch,
}

#[verifier::external_type_specification]
#[verifier::external_body]
pub struct ExDataFusionError(DataFusionError);

#[verifier::external_type_specification]
#[verifier::external_body]
pub struct ExSessionContext(SessionContext);

#[verifier::external_type_specification]
#[verifier::external_body]
pub struct ExTaskContext(TaskContext);

#[verifier::external_type_specification]
#[verifier::external_body]
pub struct ExPlanProperties(PlanProperties);

#[verifier::external_type_specification]
#[verifier::external_body]
pub struct ExStatistics(Statistics);

/// An engine stream of record batches. The underlying value is a pinned,
/// lazily-produced sequence whose type the verifier cannot express, so it is
/// held opaquely; its remaining contents and its schema are modeled by
/// [`stream_batches`] and [`stream_schema`].
#[verifier::external_body]
pub struct BatchStream {
    pub inner: datafusion::physical_plan::SendableRecordBatchStream,
}

/// The batches the stream will still yield, in order.
pub uninterp spec fn stream_batches(s: BatchStream) -> Seq<Batch>;

/// The schema the stream reports, fixed for its whole lifetime.
pub uninterp spec fn stream_schema(s: BatchStream) -> Schema;

/// The schema a record batch carries.
pub uninterp spec fn batch_schema(b: Batch) -> Schema;

/// A schema's column names, in order.
pub uninterp spec fn schema_columns(s: Schema) -> Seq<Seq<char>>;

/// A physical execution plan. The engine hands plans around as trait
/// objects, which the verifier cannot express, so the value is held
/// opaquely; the one property the driver relies on is modeled by
/// [`plan_partition_count`].
#[verifier::external_body]
pub struct PhysicalPlan {
    pub inner: Arc<dyn datafusion::physical_plan::ExecutionPlan>,
}

/// The number of output partitions the plan reports.
pub uninterp spec fn plan_partition_count(p: PhysicalPlan) -> usize;

/// The partition count a plan-properties value reports.
pub uninterp spec fn props_partition_count(p: PlanProperties) -> usize;

/// Whether a plan-properties value declares bounded (finite) output.
pub uninterp spec fn props_bounded(p: PlanProperties) -> bool;

/// Whether a plan-properties value declares incremental emission.
pub uninterp spec fn props_incremental(p: PlanProperties) -> bool;

/// The schema a plan-properties value's equivalences are keyed to.
pub uninterp spec fn props_schema(p: PlanProperties) -> Schema;

/// The batch size in the configuration snapshot a task context carries;
/// the snapshot is owned by the task context and immutable, so this is a
/// function of the value alone.
pub uninterp spec fn task_batch_size(t: TaskContext) -> usize;

/// What `Statistics::new_unknown` returns for a schema: statistics that
/// promise nothing, a function of the schema alone.
pub uninterp spec fn unknown_stats_of(s: Schema) -> Statistics;

/// Relies on `RecordBatchStreamAdapter::new` and `futures::stream::iter`:
/// the resulting stream yields exactly the one given batch and reports that
/// batch's schema.
#[verifier::external_body]
pub fn singleton_stream(batch: Batch) -> (r: BatchStream)
    ensures
        stream_batches(r) =~= seq![batch],
        stream_schema(r) == batch_schema(batch),
{
    let schema = batch.inner.schema();
    BatchStream {
        inner: Box::pin(datafusion::physical_plan::stream::RecordBatchStreamAdapter::new(
            schema,
            futures::stream::iter(vec![Ok(batch.inner)]),
        )),
    }
}

/// Relies on `RecordBatchStream::schema`: the schema the stream reports,
/// available without consuming it.
#[verifier::external_body]
pub fn schema_of_stream(s: &BatchStream) -> (r: Arc<Schema>)
    ensures
        *r == stream_schema(*s),
{
    s.inner.schema()
}

/// Relies on `RecordBatch::schema`: the schema the batch carries.
#[verifier::external_body]
pub fn batch_schema_of(b: &Batch) -> (r: Arc<Schema>)
    ensures
        *r == batch_schema(*b),
{
    b.inner.schema()
}

/// Relies on `Arc::clone`: the clone is the same shared schema.
#[verifier::external_body]
pub fn clone_arc_schema(s: &Arc<Schema>) -> (r: Arc<Schema>)
    ensures
        *r == **s,
{
    s.clone()
}

/// Relies on `Schema::fields` and `Field::name`: the schema's column names,
/// in declaration order.
#[verifier::external_body]
pub fn schema_field_names(schema: &Arc<Schema>) -> (r: Vec<String>)
    ensures
        r.deep_view() =~= schema_columns(**schema),
{
    schema.fields().iter().map(|f| f.name().to_string()).collect()
}

/// Relies on `futures::StreamExt::next`, polled to completion on the calling
/// thread: the stream yields its remaining batches in order, or an engine
/// error, and its reported schema never changes.
#[verifier::external_body]
pub fn next_batch(s: &mut BatchStream) -> (r: Result<Option<Batch>, DataFusionError>)
    ensures
        r matches Ok(Some(b)) ==> stream_batches(*old(s)).len() > 0 && b == stream_batches(
            *old(s),
        )[0] && stream_batches(*final(s)) =~= stream_batches(*old(s)).skip(1),
        r matches Ok(None) ==> stream_batches(*old(s)).len() == 0 && stream_batches(*final(s))
            =~= stream_batches(*old(s)),
        stream_schema(*final(s)) == stream_schema(*old(s)),
{
    let item = futures::executor::block_on(futures::StreamExt::next(&mut s.inner));
    item.transpose().map(|o| o.map(|b| Batch { inner: b }))
}

/// A profiling run in flight: the engine's stream together with the
/// dedicated current-thread runtime that drives the tasks the profiling
/// node spawned. Both must live and be polled together, so they are held
/// as one opaque value.
#[verifier::external_body]
pub struct ProfiledRun {
    pub runtime: tokio::runtime::Runtime,
    pub stream: datafusion::physical_plan::SendableRecordBatchStream,
}

/// The number of items the run's stream will still yield. The profiling
/// node emits one final batch after consuming its input, which this
/// library's sources require to be finite.
pub uninterp spec fn run_items(r: ProfiledRun) -> nat;

/// Relies on `ExecutionPlan::execute`, entered inside a dedicated
/// current-thread tokio runtime: the profiling node spawns tasks at this
/// point that only the same runtime can drive, so the runtime is created
/// here and handed back with the stream. `Err` is returned exactly when
/// execution fails to start.
#[verifier::external_body]
pub fn start_profiled_run(
    plan: &PhysicalPlan,
    ctx: Arc<TaskContext>,
) -> Result<ProfiledRun, DataFusionError> {
    let runtime = tokio::runtime::Builder::new_current_thread().build().unwrap();
    let guard = runtime.enter();
    let stream = plan.inner.execute(0, ctx);
    drop(guard);
    Ok(ProfiledRun { runtime, stream: stream? })
}

/// Relies on `futures::StreamExt::next` driven by the run's own runtime:
/// pulls one item and drops it, batches and engine errors alike. `true`
/// exactly while something was left to pull, and each pull shortens what
/// remains.
#[verifier::external_body]
pub fn pull_profiled(run: &mut ProfiledRun) -> (r: bool)
    ensures
        r ==> run_items(*old(run)) > 0 && run_items(*final(run)) < run_items(*old(run)),
        !r ==> run_items(*final(run)) == 0,
{
    run.runtime.block_on(futures::StreamExt::next(&mut run.stream)).is_some()
}

/// Relies on `EquivalenceProperties::new`, `Partitioning::RoundRobinBatch`
/// and `PlanProperties::new`: the plan properties of a bounded,
/// incrementally-emitting, single-partition leaf, with equivalences keyed
/// to the given schema; the constructor stores these choices unchanged.
#[verifier::external_body]
pub fn one_shot_plan_properties(schema: &Arc<Schema>) -> (r: PlanProperties)
    ensures
        props_partition_count(r) == 1,
        props_bounded(r),
        props_incremental(r),
        props_schema(r) == **schema,
{
    PlanProperties::new(
        datafusion::physical_expr::EquivalenceProperties::new(schema.clone()),
        datafusion::physical_plan::Partitioning::RoundRobinBatch(1),
        datafusion::physical_plan::execution_plan::EmissionType::Incremental,
        datafusion::physical_plan::execution_plan::Boundedness::Bounded,
    )
}

/// Relies on `Statistics::new_unknown`: statistics that promise nothing,
/// computed from the given schema alone.
#[verifier::external_body]
pub fn unknown_statistics(schema: &Arc<Schema>) -> (r: Statistics)
    ensures
        r == unknown_stats_of(**schema),
{
    Statistics::new_unknown(schema)
}

/// Relies on `SessionConfig::new`, `RuntimeEnvBuilder::new` and
/// `SessionContext::new_with_config_rt`: a fresh context with default
/// configuration, no disk manager and no bounded memory pool.
#[verifier::external_body]
pub fn build_session_context_plain() -> SessionContext {
    let runtime_env = datafusion::execution::runtime_env::RuntimeEnvBuilder::new()
        .build_arc()
        .unwrap();
    SessionContext::new_with_config_rt(
        datafusion::execution::context::SessionConfig::new(),
        runtime_env,
    )
}

/// Relies on `RuntimeEnvBuilder::with_disk_manager_builder` and
/// `FairSpillPool::new`: a fresh context whose memory pool is a fair,
/// bounded pool of the given byte size that spills overflow through a
/// disk manager with default (temporary-directory) configuration.
#[verifier::external_body]
pub fn build_session_context_spilling(pool_size: u64) -> SessionContext {
    let runtime_env = datafusion::execution::runtime_env::RuntimeEnvBuilder::new()
        .with_disk_manager_builder(datafusion::execution::disk_manager::DiskManagerBuilder::default())
        .with_memory_pool(Arc::new(datafusion::execution::memory_pool::FairSpillPool::new(
            pool_size as usize,
        )))
        .build_arc()
        .unwrap();
    SessionContext::new_with_config_rt(
        datafusion::execution::context::SessionConfig::new(),
        runtime_env,
    )
}

/// Relies on `SessionContext::session_id`: the context's identifier, fixed
/// at construction and shared by its clones.
#[verifier::external_body]
pub fn session_id_of(ctx: &SessionContext) -> String {
    ctx.session_id()
}

/// Relies on `SessionContext`'s derived `Clone`: the clone is a shallow
/// handle sharing the same session state, identifier and runtime.
#[verifier::external_body]
pub fn clone_session_context(ctx: &SessionContext) -> (r: SessionContext)
    ensures
        r == *ctx,
{
    ctx.clone()
}

/// Relies on `SessionContext::state` and `SessionState::task_ctx`: a
/// task-scoped context derived from a copy of the session state.
#[verifier::external_body]
pub fn derive_task_context(ctx: &SessionContext) -> Arc<TaskContext> {
    ctx.state().task_ctx()
}

/// Relies on `SessionState::config_mut` and `SessionState::task_ctx`: the
/// batch size is set on this call's own copy of the session state before
/// derivation, so the task context's configuration snapshot carries it,
/// and the shared session is untouched. The engine rejects a batch size of
/// zero, so that input is excluded.
#[verifier::external_body]
pub fn derive_task_context_with_batch_size(ctx: &SessionContext, batch_size: usize) -> (r: Arc<
    TaskContext,
>)
    requires
        batch_size > 0,
    ensures
        task_batch_size(*r) == batch_size,
{
    let mut state = ctx.state();
    state.config_mut().options_mut().execution.batch_size =
        datafusion::common::config::ConfigNonZeroUsize::try_new(batch_size).unwrap();
    state.task_ctx()
}

/// Relies on `ExecutionPlan::properties` and
/// `Partitioning::partition_count`: the number of output partitions the
/// plan reports.
#[verifier::external_body]
pub fn partition_count(plan: &PhysicalPlan) -> (r: usize)
    ensures
        r == plan_partition_count(*plan),
{
    plan.inner.properties().partitioning.partition_count()
}

/// Relies on `ExecutionPlan::execute`: starts execution of one partition,
/// returning its batch stream without pulling from it. What the stream will
/// yield depends on the plan's own state, so nothing is claimed of it.
#[verifier::external_body]
pub fn execute_partition(
    plan: &PhysicalPlan,
    partition: usize,
    ctx: Arc<TaskContext>,
) -> Result<BatchStream, DataFusionError> {
    match plan.inner.execute(partition, ctx) {
        Ok(s) => Ok(BatchStream { inner: s }),
        Err(e) => Err(e),
    }
}

/// Relies on `AnalyzeExec`: wraps a plan in the engine's profiling node
/// with the fixed two-column explain output schema, requesting both verbose
/// output and statistics; the analyze node always reports exactly one
/// output partition.
#[verifier::external_body]
pub fn make_analyze_plan(plan: &PhysicalPlan) -> (r: PhysicalPlan)
    ensures
        plan_partition_count(r) == 1,
{
    let schema = datafusion::logical_expr::LogicalPlan::explain_schema();
    let analyze = datafusion::physical_plan::analyze::AnalyzeExec::builder(
        true,
        true,
        plan.inner.clone(),
        schema,
    ).build();
    PhysicalPlan { inner: Arc::new(analyze) }
}

/// Relies on `DisplayableExecutionPlan::with_metrics` and `indent`: renders
/// the plan tree with its collected metrics as an indented, multi-line
/// report.
#[verifier::external_body]
pub fn render_plan_metrics(plan: &PhysicalPlan) -> String {
    let display = datafusion::physical_plan::display::DisplayableExecutionPlan::with_metrics(
        plan.inner.as_ref(),
    );
    format!("{}", display.indent(true))
}

/// Relies on `DataFusionError`'s `Display` impl: the engine error's message.
#[verifier::external_body]
pub fn df_error_message(e: &DataFusionError) -> String {
    format!("{}", e)
}

} // verus!
