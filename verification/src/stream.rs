//! The take-once primitive the one-shot sources are built on.

use vstd::prelude::*;

use datafusion::error::DataFusionError;

use crate::engine::Batch;
use crate::engine::BatchStream;
use crate::engine::next_batch;
use crate::engine::stream_batches;

verus! {

/// Owns at most one batch stream. Once the stream is taken the holder is
/// permanently empty: exhaustion is a terminal, irreversible state. In this
/// verified core exclusive access is expressed through `&mut`; the host
/// application wraps the holder in a mutual-exclusion lock, held only for
/// the duration of the take itself.
pub struct SingleUseStreamHolder {
    pub stream: Option<BatchStream>,
}

/// How one `take` changes a holder: the caller receives whatever was held,
/// and the holder is empty afterwards.
pub open spec fn take_post(
    pre: SingleUseStreamHolder,
    post: SingleUseStreamHolder,
    r: Option<BatchStream>,
) -> bool {
    &&& r == pre.stream
    &&& post.stream is None
}

impl SingleUseStreamHolder {
    pub open spec fn is_exhausted_spec(&self) -> bool {
        self.stream is None
    }

    /// A holder starts its life full.
    pub fn new(stream: BatchStream) -> (r: Self)
        ensures
            r.stream == Some(stream),
    {
        SingleUseStreamHolder { stream: Some(stream) }
    }

    /// The atomic hand-off: the first caller receives the stream, every
    /// later caller receives nothing.
    pub fn take(&mut self) -> (r: Option<BatchStream>)
        ensures
            take_post(*old(self), *final(self), r),
    {
        self.stream.take()
    }

    /// Non-destructive observer, usable at any time.
    pub fn is_exhausted(&self) -> (r: bool)
        ensures
            r == self.is_exhausted_spec(),
    {
        self.stream.is_none()
    }
}

/// Pulls every remaining batch out of a stream on the calling thread: on
/// success, exactly the batches the stream still held, in order, leaving it
/// exhausted. An engine error is handed back as it came.
pub fn collect_batches(s: &mut BatchStream) -> (r: Result<Vec<Batch>, DataFusionError>)
    ensures
        r matches Ok(v) ==> v@ =~= stream_batches(*old(s)) && stream_batches(*final(s))
            =~= Seq::<Batch>::empty(),
{
    let mut out: Vec<Batch> = Vec::new();
    loop
        invariant
            out@ + stream_batches(*s) =~= stream_batches(*old(s)),
        decreases stream_batches(*s).len(),
    {
        let ghost prev = stream_batches(*s);
        match next_batch(s) {
            Ok(Some(b)) => {
                proof {
                    assert(prev =~= seq![b] + stream_batches(*s));
                }
                out.push(b);
            },
            Ok(None) => {
                return Ok(out);
            },
            Err(e) => {
                return Err(e);
            },
        }
    }
}

/// For any holder, the first `take` hands back the held stream, every
/// subsequent `take` hands back nothing, and the holder reports itself
/// exhausted from the first take on, irrevocably.
pub proof fn lemma_take_at_most_once(
    h0: SingleUseStreamHolder,
    h1: SingleUseStreamHolder,
    h2: SingleUseStreamHolder,
    r1: Option<BatchStream>,
    r2: Option<BatchStream>,
)
    requires
        h0.stream is Some,
        take_post(h0, h1, r1),
        take_post(h1, h2, r2),
    ensures
        r1 == h0.stream,
        r1 is Some,
        r2 is None,
        h1.is_exhausted_spec(),
        h2.is_exhausted_spec(),
{
}

} // verus!
