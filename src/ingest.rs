//! The ingestion endpoint: from drained payloads to one ingress batch.
//!
//! The endpoint task drains up to `DRAIN_LIMIT` queued payloads per wake-up,
//! decodes each into zero or more records, and forwards the records of one
//! drain as one batch. A payload that fails to decode contributes no records
//! and is reported with its position and error; it never passes as valid.
//! Records keep the order of their payloads, within a drain and across drains.
use vstd::prelude::*;

verus! {

/// The most payloads one wake-up of an endpoint task drains.
pub const DRAIN_LIMIT: usize = 16;

/// A payload of a drain that could not be decoded.
pub struct DecodeFailure<E> {
    /// Its position within the drain.
    pub index: usize,
    /// What the decoder reported.
    pub error: E,
}

/// What a drain hands on: the records of the payloads that decoded, and the
/// payloads that did not.
pub struct DrainBatch<R, E> {
    pub records: Vec<R>,
    pub failures: Vec<DecodeFailure<E>>,
}

/// The records of a sequence of decoded payloads, in payload order; a payload
/// that failed to decode contributes none.
pub open spec fn decoded_records<R, E>(s: Seq<Result<Vec<R>, E>>) -> Seq<R>
    decreases s.len(),
{
    if s.len() == 0 {
        Seq::empty()
    } else {
        decoded_records(s.drop_last()) + match s.last() {
            Ok(v) => v@,
            Err(_) => Seq::empty(),
        }
    }
}

/// The payloads of a sequence that failed to decode, with their positions.
pub open spec fn decode_failures<R, E>(s: Seq<Result<Vec<R>, E>>) -> Seq<DecodeFailure<E>>
    decreases s.len(),
{
    if s.len() == 0 {
        Seq::empty()
    } else {
        decode_failures(s.drop_last()) + match s.last() {
            Ok(_) => Seq::empty(),
            Err(e) => seq![DecodeFailure { index: (s.len() - 1) as usize, error: e }],
        }
    }
}

/// Every payload of the sequence decoded.
pub open spec fn all_decoded<R, E>(s: Seq<Result<Vec<R>, E>>) -> bool {
    forall|i: int| 0 <= i < s.len() ==> #[trigger] s[i] is Ok
}

proof fn lemma_no_failures_iff_all_decoded<R, E>(s: Seq<Result<Vec<R>, E>>)
    ensures
        decode_failures(s).len() == 0 <==> all_decoded(s),
    decreases s.len(),
{
    if s.len() > 0 {
        lemma_no_failures_iff_all_decoded(s.drop_last());
        assert(forall|i: int| 0 <= i < s.len() - 1 ==> s.drop_last()[i] == s[i]);
    }
}

/// Gathers the decoded payloads of one drain into the batch handed to the
/// ingress: the records of every payload that decoded, in order, and every
/// payload that did not, in order.
pub fn assemble_batch<R, E>(decoded: Vec<Result<Vec<R>, E>>) -> (r: DrainBatch<R, E>)
    ensures
        r.records@ == decoded_records(decoded@),
        r.failures@ == decode_failures(decoded@),
        r.failures@.len() == 0 <==> all_decoded(decoded@),
{
    let ghost all = decoded@;
    let n: usize = decoded.len();
    let mut rest = decoded;
    let mut records: Vec<R> = Vec::new();
    let mut failures: Vec<DecodeFailure<E>> = Vec::new();
    let mut k: usize = 0;
    while rest.len() > 0
        invariant
            all.len() == n,
            k <= all.len(),
            rest@ == all.subrange(k as int, all.len() as int),
            records@ == decoded_records(all.subrange(0, k as int)),
            failures@ == decode_failures(all.subrange(0, k as int)),
        decreases rest@.len(),
    {
        let item = rest.remove(0);
        let ghost done = all.subrange(0, k as int + 1);
        assert(done.drop_last() == all.subrange(0, k as int));
        assert(done.last() == item);
        match item {
            Ok(v) => {
                let mut v = v;
                records.append(&mut v);
            },
            Err(e) => {
                failures.push(DecodeFailure { index: k, error: e });
            },
        }
        k = k + 1;
    }
    assert(all.subrange(0, all.len() as int) == all);
    proof {
        lemma_no_failures_iff_all_decoded(all);
    }
    DrainBatch { records, failures }
}

proof fn lemma_records_of_concat<R, E>(a: Seq<Result<Vec<R>, E>>, b: Seq<Result<Vec<R>, E>>)
    ensures
        decoded_records(a + b) == decoded_records(a) + decoded_records(b),
    decreases b.len(),
{
    if b.len() == 0 {
        assert(a + b == a);
    } else {
        assert((a + b).drop_last() == a + b.drop_last());
        assert((a + b).last() == b.last());
        lemma_records_of_concat(a, b.drop_last());
    }
}

/// The records of each drain, forwarded batch after batch, are the records of
/// all drained payloads in the order the payloads were queued: however the
/// queue is cut into drains, no record overtakes another.
pub proof fn lemma_drains_keep_order<R, E>(drains: Seq<Seq<Result<Vec<R>, E>>>)
    ensures
        drains.map_values(|d: Seq<Result<Vec<R>, E>>| decoded_records(d)).flatten()
            == decoded_records(drains.flatten()),
    decreases drains.len(),
{
    let batches = drains.map_values(|d: Seq<Result<Vec<R>, E>>| decoded_records(d));
    if drains.len() > 0 {
        assert(batches.drop_first() == drains.drop_first().map_values(
            |d: Seq<Result<Vec<R>, E>>| decoded_records(d),
        ));
        lemma_drains_keep_order(drains.drop_first());
        lemma_records_of_concat(drains.first(), drains.drop_first().flatten());
    }
}

/// What an endpoint task does after a wake-up.
#[derive(PartialEq, Eq, Structural, Clone, Copy, Debug)]
pub enum EndpointAction {
    /// Nothing to do yet: wait for the next wake-up.
    Wait,
    /// Decode and forward the payloads just drained.
    Forward,
    /// End the task.
    Finish,
}

/// The state of one endpoint task: whether it still drains, and how many
/// records it has forwarded (saturating at `u64::MAX`).
pub struct EndpointTask {
    pub draining: bool,
    pub processed: u64,
}

impl EndpointTask {
    /// A task that has forwarded nothing yet.
    pub fn new() -> (r: EndpointTask)
        ensures
            r.draining,
            r.processed == 0,
    {
        EndpointTask { draining: true, processed: 0 }
    }

    /// Decides a wake-up. `shutdown` tells whether the shutdown signal has
    /// fired; `received` is the number of payloads a drain took from the
    /// channel, `Some(0)` once the channel is closed, or `None` when no drain
    /// completed. Payloads already drained are forwarded even when shutdown has
    /// fired, so no batch is lost half way; otherwise shutdown ends the task
    /// before another drain starts.
    pub fn step(&mut self, shutdown: bool, received: Option<usize>) -> (r: EndpointAction)
        ensures
            final(self).processed == old(self).processed,
            !old(self).draining ==> r == EndpointAction::Finish,
            old(self).draining ==> r == (match received {
                Some(n) => if n > 0 {
                    EndpointAction::Forward
                } else {
                    EndpointAction::Finish
                },
                None => if shutdown {
                    EndpointAction::Finish
                } else {
                    EndpointAction::Wait
                },
            }),
            final(self).draining == (r != EndpointAction::Finish),
    {
        let action = if !self.draining {
            EndpointAction::Finish
        } else {
            match received {
                Some(n) => if n > 0 {
                    EndpointAction::Forward
                } else {
                    EndpointAction::Finish
                },
                None => if shutdown {
                    EndpointAction::Finish
                } else {
                    EndpointAction::Wait
                },
            }
        };
        self.draining = match action {
            EndpointAction::Finish => false,
            _ => true,
        };
        action
    }

    /// Counts `records` more forwarded records.
    pub fn forwarded(&mut self, records: usize)
        ensures
            final(self).draining == old(self).draining,
            final(self).processed == if old(self).processed + records > u64::MAX {
                u64::MAX as int
            } else {
                old(self).processed + records
            },
    {
        let n = records as u64;
        if records as u128 > u64::MAX as u128 || self.processed > u64::MAX - n {
            self.processed = u64::MAX;
        } else {
            self.processed = self.processed + n;
        }
    }
}

} // verus!
