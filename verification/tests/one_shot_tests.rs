use std::sync::Arc;

use datafusion::arrow::array::Int32Array;
use datafusion::arrow::array::RecordBatch;
use datafusion::arrow::datatypes::DataType;
use datafusion::arrow::datatypes::Field;
use datafusion::arrow::datatypes::Schema;
use datafusion::error::DataFusionError;
use datafusion::common::Statistics;
use datafusion::physical_plan::stream::RecordBatchStreamAdapter;

use lance_datafusion::engine::Batch;
use lance_datafusion::engine::BatchStream;
use lance_datafusion::engine::next_batch;
use lance_datafusion::engine::singleton_stream;
use lance_datafusion::error::ExecError;
use lance_datafusion::one_shot::OneShotExec;
use lance_datafusion::one_shot::OneShotPartitionStream;
use lance_datafusion::stream::SingleUseStreamHolder;
use lance_datafusion::stream::collect_batches;

fn make_batch(vals: Vec<i32>) -> RecordBatch {
    let schema = Arc::new(Schema::new(vec![Field::new("a", DataType::Int32, false)]));
    RecordBatch::try_new(schema, vec![Arc::new(Int32Array::from(vals))]).unwrap()
}

fn make_stream(batches: Vec<RecordBatch>) -> BatchStream {
    let schema = Arc::new(Schema::new(vec![Field::new("a", DataType::Int32, false)]));
    let items: Vec<Result<RecordBatch, DataFusionError>> = batches.into_iter().map(Ok).collect();
    BatchStream {
        inner: Box::pin(RecordBatchStreamAdapter::new(schema, futures::stream::iter(items))),
    }
}

#[test]
fn holder_hands_out_the_stream_exactly_once() {
    let mut holder = SingleUseStreamHolder::new(make_stream(vec![make_batch(vec![1])]));
    assert!(!holder.is_exhausted());
    let first = holder.take();
    assert!(first.is_some());
    assert!(holder.is_exhausted());
    let second = holder.take();
    assert!(second.is_none());
    let third = holder.take();
    assert!(third.is_none());
    assert!(holder.is_exhausted());
}

#[test]
fn node_schema_survives_exhaustion() {
    let b = make_batch(vec![1, 2]);
    let expected = b.schema();
    let mut node = OneShotExec::new(singleton_stream(Batch { inner: b }));
    let before = node.schema();
    assert_eq!(before.as_ref(), expected.as_ref());
    node.execute(0).unwrap();
    let after = node.schema();
    assert_eq!(after.as_ref(), expected.as_ref());
    assert!(node.is_exhausted());
}

#[test]
fn from_batch_yields_exactly_that_batch() {
    let b = make_batch(vec![7, 8, 9]);
    let mut node = OneShotExec::from_batch(Batch { inner: b.clone() });
    assert_eq!(node.schema().as_ref(), b.schema().as_ref());
    let mut stream = node.execute(0).unwrap();
    let first = next_batch(&mut stream).unwrap();
    let got = first.expect("one batch expected");
    assert_eq!(got.inner, b);
    assert_eq!(got.inner.schema().as_ref(), b.schema().as_ref());
    let rest = next_batch(&mut stream).unwrap();
    assert!(rest.is_none());
}

#[test]
fn second_execute_reports_already_consumed() {
    let mut node = OneShotExec::from_batch(Batch { inner: make_batch(vec![1]) });
    assert!(node.execute(0).is_ok());
    let again = node.execute(0);
    assert!(matches!(again, Err(ExecError::AlreadyConsumed)));
    let once_more = node.execute(0);
    assert!(matches!(once_more, Err(ExecError::AlreadyConsumed)));
}

#[test]
fn node_is_a_leaf_and_refuses_new_children() {
    let node = OneShotExec::from_batch(Batch { inner: make_batch(vec![1]) });
    assert!(node.children().is_empty());
    assert_eq!(node.partition_count(), 1);
    assert_eq!(node.name(), "OneShotExec");
    let r = node.with_new_children(Vec::new());
    assert!(matches!(r, Err(ExecError::Unsupported)));
}

#[test]
fn display_shows_columns_and_exhaustion() {
    let schema = Arc::new(Schema::new(vec![
        Field::new("a", DataType::Int32, false),
        Field::new("b", DataType::Int32, false),
    ]));
    let b = RecordBatch::try_new(
        schema,
        vec![Arc::new(Int32Array::from(vec![1])), Arc::new(Int32Array::from(vec![2]))],
    )
    .unwrap();
    let mut node = OneShotExec::from_batch(Batch { inner: b });
    assert_eq!(node.display_string(), "OneShotStream: columns=[a,b]");
    node.execute(0).unwrap();
    assert_eq!(node.display_string(), "OneShotStream: EXHAUSTEDcolumns=[a,b]");
}

#[test]
fn statistics_stay_unknown_before_and_after_exhaustion() {
    let b = make_batch(vec![1, 2]);
    let expected = Statistics::new_unknown(&b.schema());
    let mut node = OneShotExec::from_batch(Batch { inner: b });
    assert_eq!(node.statistics(), expected);
    node.execute(0).unwrap();
    assert_eq!(node.statistics(), expected);
}

#[test]
fn multi_batch_stream_is_returned_whole() {
    let b1 = make_batch(vec![1]);
    let b2 = make_batch(vec![2, 3]);
    let mut node = OneShotExec::new(make_stream(vec![b1.clone(), b2.clone()]));
    let mut stream = node.execute(0).unwrap();
    let got1 = next_batch(&mut stream).unwrap().expect("first batch");
    let got2 = next_batch(&mut stream).unwrap().expect("second batch");
    assert_eq!(got1.inner, b1);
    assert_eq!(got2.inner, b2);
    assert!(next_batch(&mut stream).unwrap().is_none());
}

#[test]
fn collect_batches_drains_the_stream() {
    let b1 = make_batch(vec![1]);
    let b2 = make_batch(vec![2]);
    let mut stream = make_stream(vec![b1.clone(), b2.clone()]);
    let got = collect_batches(&mut stream).unwrap();
    assert_eq!(got.len(), 2);
    assert_eq!(got[0].inner, b1);
    assert_eq!(got[1].inner, b2);
    assert!(collect_batches(&mut stream).unwrap().is_empty());
}

#[test]
fn partition_stream_schema_and_single_execute() {
    let b = make_batch(vec![4]);
    let expected = b.schema();
    let mut src = OneShotPartitionStream::new(singleton_stream(Batch { inner: b.clone() }));
    assert_eq!(src.schema().as_ref(), expected.as_ref());
    assert!(!src.is_exhausted());
    let mut stream = src.execute();
    assert!(src.is_exhausted());
    assert_eq!(src.schema().as_ref(), expected.as_ref());
    let got = next_batch(&mut stream).unwrap().expect("one batch");
    assert_eq!(got.inner, b);
    assert!(next_batch(&mut stream).unwrap().is_none());
}
