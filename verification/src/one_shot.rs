//! One-shot sources: a plan-graph leaf node and a partition-stream adapter,
//! each exposing a single-use stream holder behind the engine's repeatable
//! execution contracts.

use vstd::prelude::*;

use std::sync::Arc;
use datafusion::arrow::datatypes::Schema;
use datafusion::common::Statistics;
use datafusion::physical_plan::PlanProperties;
use vstd::string::StringExecFns;

use crate::engine::Batch;
use crate::engine::BatchStream;
use crate::engine::PhysicalPlan;
use crate::engine::batch_schema;
use crate::engine::batch_schema_of;
use crate::engine::clone_arc_schema;
use crate::engine::one_shot_plan_properties;
use crate::engine::props_bounded;
use crate::engine::props_incremental;
use crate::engine::props_partition_count;
use crate::engine::props_schema;
use crate::engine::schema_columns;
use crate::engine::schema_field_names;
use crate::engine::schema_of_stream;
use crate::engine::singleton_stream;
use crate::engine::stream_batches;
use crate::engine::stream_schema;
use crate::engine::unknown_statistics;
use crate::engine::unknown_stats_of;
use crate::error::ExecError;
use crate::stream::SingleUseStreamHolder;

verus! {

/// A leaf node of an execution plan graph created from an existing stream.
/// It can be executed only once; afterwards the node is exhausted, though
/// schema queries and display keep working. The stream must be finite, or
/// the boundedness this node reports to the engine would be wrong.
pub struct OneShotExec {
    pub holder: SingleUseStreamHolder,
    pub schema: Arc<Schema>,
    pub properties: PlanProperties,
}

/// The plan properties a one-shot node advertises, fixed at construction:
/// exactly one partition, bounded (finite) output, incremental emission,
/// keyed to the retained schema.
pub open spec fn one_shot_props(n: OneShotExec) -> bool {
    &&& props_partition_count(n.properties) == 1
    &&& props_bounded(n.properties)
    &&& props_incremental(n.properties)
    &&& props_schema(n.properties) == *n.schema
}

/// What construction from a single batch guarantees: a full holder whose
/// stream will yield exactly that batch, and the batch's schema retained.
pub open spec fn from_batch_post(batch: Batch, n: OneShotExec) -> bool {
    &&& n.holder.stream is Some
    &&& stream_batches(n.holder.stream->0) =~= seq![batch]
    &&& stream_schema(n.holder.stream->0) == batch_schema(batch)
    &&& *n.schema == batch_schema(batch)
}

/// How one `execute` call changes the node: the first call receives the
/// held stream, a later call receives the consumption error, and the
/// retained schema and plan properties survive either way.
pub open spec fn execute_post(
    pre: OneShotExec,
    post: OneShotExec,
    r: Result<BatchStream, ExecError>,
) -> bool {
    &&& pre.holder.stream is Some ==> r is Ok && r->Ok_0 == pre.holder.stream->0
    &&& pre.holder.stream is None ==> r is Err && r->Err_0 is AlreadyConsumed
    &&& post.holder.stream is None
    &&& post.schema == pre.schema
    &&& post.properties == pre.properties
}

impl OneShotExec {
    /// Wraps an existing stream, retaining an independent copy of its
    /// schema so schema queries remain valid after exhaustion.
    pub fn new(stream: BatchStream) -> (r: Self)
        ensures
            r.holder.stream == Some(stream),
            *r.schema == stream_schema(stream),
            one_shot_props(r),
    {
        let schema = schema_of_stream(&stream);
        let properties = one_shot_plan_properties(&schema);
        OneShotExec { holder: SingleUseStreamHolder::new(stream), schema, properties }
    }

    /// Wraps a single pre-built batch as a trivial one-element stream.
    pub fn from_batch(batch: Batch) -> (r: Self)
        ensures
            from_batch_post(batch, r),
            one_shot_props(r),
    {
        let schema = batch_schema_of(&batch);
        let stream = singleton_stream(batch);
        let properties = one_shot_plan_properties(&schema);
        OneShotExec { holder: SingleUseStreamHolder::new(stream), schema, properties }
    }

    /// The node's name in engine displays.
    pub fn name(&self) -> (r: &'static str)
        ensures
            r@ == "OneShotExec"@,
    {
        "OneShotExec"
    }

    /// The retained schema, regardless of exhaustion state.
    pub fn schema(&self) -> (r: Arc<Schema>)
        ensures
            *r == *self.schema,
    {
        clone_arc_schema(&self.schema)
    }

    /// This node is always a leaf.
    pub fn children(&self) -> (r: Vec<PhysicalPlan>)
        ensures
            r@ =~= Seq::<PhysicalPlan>::empty(),
    {
        Vec::new()
    }

    /// A leaf has no children to replace, so reattachment is refused.
    pub fn with_new_children(&self, children: Vec<PhysicalPlan>) -> (r: Result<
        OneShotExec,
        ExecError,
    >)
        ensures
            r is Err && r->Err_0 is Unsupported,
    {
        let _ = children;
        Err(ExecError::Unsupported)
    }

    /// The node always exposes exactly one partition.
    pub fn partition_count(&self) -> (r: usize)
        ensures
            r == 1,
    {
        1
    }

    /// Non-destructive observer of the one-shot state.
    pub fn is_exhausted(&self) -> (r: bool)
        ensures
            r == self.holder.is_exhausted_spec(),
    {
        self.holder.is_exhausted()
    }

    /// Executes the node's single partition: the held stream, exactly once;
    /// afterwards the consumption error.
    pub fn execute(&mut self, partition: usize) -> (r: Result<BatchStream, ExecError>)
        requires
            partition == 0,
        ensures
            execute_post(*old(self), *final(self), r),
    {
        let _ = partition;
        match self.holder.take() {
            Some(s) => Ok(s),
            None => Err(ExecError::AlreadyConsumed),
        }
    }

    /// Unknown statistics for the retained schema: the engine must not
    /// assume row counts or distributions for this node. Usable before and
    /// after exhaustion alike, and unchanged by it.
    pub fn statistics(&self) -> (r: Statistics)
        ensures
            r == unknown_stats_of(*self.schema),
    {
        unknown_statistics(&self.schema)
    }

    /// The plan properties fixed at construction.
    pub fn properties(&self) -> (r: &PlanProperties)
        ensures
            *r == self.properties,
    {
        &self.properties
    }

    /// The display line: exhaustion state and column names, without
    /// consuming or requiring the stream.
    pub fn display_string(&self) -> (r: String)
        ensures
            r@ == spec_display_string(
                self.holder.is_exhausted_spec(),
                schema_columns(*self.schema),
            ),
    {
        let names = schema_field_names(&self.schema);
        let ghost cols = names.deep_view();
        let mut out = String::new();
        out.append("OneShotStream: ");
        if self.holder.is_exhausted() {
            out.append("EXHAUSTED");
        }
        out.append("columns=[");
        let mut i: usize = 0;
        while i < names.len()
            invariant
                i <= names.len(),
                cols == names.deep_view(),
                out@ == display_header(self.holder.is_exhausted_spec()) + join_columns(
                    cols.take(i as int),
                ),
            decreases names.len() - i,
        {
            if i > 0 {
                out.append(",");
            }
            out.append(names[i].as_str());
            proof {
                assert(cols.take(i + 1).drop_last() =~= cols.take(i as int));
                assert(cols.take(i + 1).last() == cols[i as int]);
                assert(names[i as int]@ == cols[i as int]);
            }
            i = i + 1;
        }
        out.append("]");
        proof {
            assert(cols.take(names.len() as int) =~= cols);
            assert(cols =~= schema_columns(*self.schema));
        }
        out
    }
}

/// The prefix of the display line before the column list.
pub open spec fn display_header(exhausted: bool) -> Seq<char> {
    "OneShotStream: "@ + (if exhausted {
        "EXHAUSTED"@
    } else {
        Seq::<char>::empty()
    }) + "columns=["@
}

/// Column names joined by commas.
pub open spec fn join_columns(cols: Seq<Seq<char>>) -> Seq<char>
    decreases cols.len(),
{
    if cols.len() == 0 {
        Seq::empty()
    } else if cols.len() == 1 {
        cols[0]
    } else {
        join_columns(cols.drop_last()) + ","@ + cols.last()
    }
}

/// The whole display line.
pub open spec fn spec_display_string(exhausted: bool, cols: Seq<Seq<char>>) -> Seq<char> {
    display_header(exhausted) + join_columns(cols) + "]"@
}

/// Schema queries on a one-shot node return the schema captured at
/// construction both before and after exhaustion: executing the node, in
/// either outcome, leaves the retained schema untouched, and with it the
/// node's unknown-statistics value and its advertised plan properties.
pub proof fn lemma_schema_stable_under_execute(
    pre: OneShotExec,
    post: OneShotExec,
    r: Result<BatchStream, ExecError>,
)
    requires
        execute_post(pre, post, r),
    ensures
        post.schema == pre.schema,
        unknown_stats_of(*post.schema) == unknown_stats_of(*pre.schema),
        post.properties == pre.properties,
        one_shot_props(pre) ==> one_shot_props(post),
{
}

/// A node built from a single batch, when executed, hands back a stream
/// that will yield exactly that batch, carrying the batch's schema; the
/// node keeps answering schema queries with that same schema afterwards.
pub proof fn lemma_from_batch_executes_to_single_batch(
    batch: Batch,
    n0: OneShotExec,
    n1: OneShotExec,
    r: Result<BatchStream, ExecError>,
)
    requires
        from_batch_post(batch, n0),
        execute_post(n0, n1, r),
    ensures
        r is Ok,
        stream_batches(r->Ok_0) =~= seq![batch],
        stream_schema(r->Ok_0) == batch_schema(batch),
        *n1.schema == batch_schema(batch),
{
}

/// A partition-stream adapter over the same single-use holder, used when
/// the one-shot stream is registered as a one-partition streaming table
/// rather than spliced into a plan graph. The host framework promises to
/// execute each registered instance at most once, so here a second
/// execution is excluded outright instead of surfaced as an error.
pub struct OneShotPartitionStream {
    pub holder: SingleUseStreamHolder,
    pub schema: Arc<Schema>,
}

impl OneShotPartitionStream {
    /// Wraps an existing stream, retaining its schema.
    pub fn new(data: BatchStream) -> (r: Self)
        ensures
            r.holder.stream == Some(data),
            *r.schema == stream_schema(data),
    {
        let schema = schema_of_stream(&data);
        OneShotPartitionStream { holder: SingleUseStreamHolder::new(data), schema }
    }

    /// The retained schema, non-destructively.
    pub fn schema(&self) -> (r: Arc<Schema>)
        ensures
            *r == *self.schema,
    {
        clone_arc_schema(&self.schema)
    }

    /// Non-destructive observer of the one-shot state.
    pub fn is_exhausted(&self) -> (r: bool)
        ensures
            r == self.holder.is_exhausted_spec(),
    {
        self.holder.is_exhausted()
    }

    /// The held stream, exactly once. Calling this on an exhausted source
    /// is a contract violation of the host framework and is excluded here;
    /// the host application turns that violation into a fatal failure.
    pub fn execute(&mut self) -> (r: BatchStream)
        requires
            old(self).holder.stream is Some,
        ensures
            Some(r) == old(self).holder.stream,
            final(self).holder.stream is None,
            final(self).schema == old(self).schema,
    {
        let taken = self.holder.take();
        taken.unwrap()
    }
}

} // verus!
