//! The checkpoint: the newest anchor timestamp processed, its on-disk
//! record, and the poll loop's decisions around it.

use vstd::prelude::*;
use crate::decimal::{
    decimal_digits, decimal_result, lemma_decimal_round_trip, parse_decimal, write_decimal,
    DecimalError,
};
use crate::feed::{feed_request, request_for, timestamps, Anchor, FeedFailure, FeedRequest};

verus! {

/// The checkpoint after examining `ts` in order, each against the value that
/// the checkpoint has when it is examined.
pub open spec fn checkpoint_after(start: u64, ts: Seq<u64>) -> u64
    decreases ts.len(),
{
    if ts.len() == 0 {
        start
    } else {
        let before = checkpoint_after(start, ts.drop_last());
        if ts.last() > before {
            ts.last()
        } else {
            before
        }
    }
}

/// The timestamps among `ts` that advance the checkpoint, in order: each one
/// is a write of the record.
pub open spec fn advances(start: u64, ts: Seq<u64>) -> Seq<u64>
    decreases ts.len(),
{
    if ts.len() == 0 {
        Seq::empty()
    } else {
        let before = checkpoint_after(start, ts.drop_last());
        if ts.last() > before {
            advances(start, ts.drop_last()).push(ts.last())
        } else {
            advances(start, ts.drop_last())
        }
    }
}

/// The newest anchor timestamp that has been applied.
#[derive(Debug, Clone, Copy, PartialEq, Eq, Structural)]
pub struct Checkpoint {
    pub timestamp: u64,
}

impl Checkpoint {
    /// The checkpoint of a fresh store.
    pub fn new() -> (r: Checkpoint)
        ensures
            r.timestamp == 0,
    {
        Checkpoint { timestamp: 0 }
    }

    /// Examines one anchor timestamp: advances to it and returns `true` if it
    /// is newer than the checkpoint, else leaves the checkpoint as it is.
    pub fn observe(&mut self, timestamp: u64) -> (advanced: bool)
        ensures
            advanced == (timestamp > old(self).timestamp),
            final(self).timestamp == (if advanced { timestamp } else { old(self).timestamp }),
    {
        if timestamp > self.timestamp {
            self.timestamp = timestamp;
            true
        } else {
            false
        }
    }

    /// Examines `anchors` in the order given and returns the checkpoint
    /// values to persist, one per advance, in order.
    pub fn apply_anchors(&mut self, anchors: &Vec<Anchor>) -> (written: Vec<u64>)
        ensures
            final(self).timestamp == checkpoint_after(old(self).timestamp, timestamps(anchors@)),
            written@ == advances(old(self).timestamp, timestamps(anchors@)),
    {
        let ghost start = self.timestamp;
        let mut written: Vec<u64> = Vec::new();
        let mut i: usize = 0;
        while i < anchors.len()
            invariant
                i <= anchors.len(),
                self.timestamp == checkpoint_after(start, timestamps(anchors@).subrange(0, i as int)),
                written@ == advances(start, timestamps(anchors@).subrange(0, i as int)),
            decreases anchors.len() - i,
        {
            let ghost ts = timestamps(anchors@);
            assert(ts.subrange(0, i as int + 1).drop_last() =~= ts.subrange(0, i as int));
            let t = anchors[i].timestamp;
            if self.observe(t) {
                written.push(t);
            }
            i = i + 1;
        }
        assert(timestamps(anchors@).subrange(0, i as int) =~= timestamps(anchors@));
        written
    }
}

/// What one poll of the feed did.
#[derive(Debug, Clone)]
pub struct PollReport {
    /// Checkpoint values to persist, in order; a failed write is fatal.
    pub writes: Vec<u64>,
    /// Why the query failed, if it did; the loop goes on either way.
    pub failure: Option<FeedFailure>,
}

/// Default time between polls: about one block of the anchoring chain.
pub const DEFAULT_POLL_INTERVAL_SECS: u64 = 14;

/// The poll loop's state: the checkpoint and the organizations watched
/// (none: every organization).
#[derive(Debug, Clone)]
pub struct Poller {
    pub checkpoint: Checkpoint,
    pub orgs: Vec<String>,
}

impl Poller {
    pub fn new(checkpoint: Checkpoint, orgs: Vec<String>) -> (r: Poller)
        ensures
            r.checkpoint == checkpoint,
            r.orgs == orgs,
    {
        Poller { checkpoint, orgs }
    }

    /// The query to send next: anchors newer than the checkpoint.
    pub fn request(&self) -> (r: FeedRequest)
        ensures
            request_for(self.checkpoint.timestamp, self.orgs@, r),
    {
        feed_request(self.checkpoint.timestamp, &self.orgs)
    }

    /// Takes the outcome of one query. On success the anchors are applied in
    /// order; on failure the checkpoint is left as it was and nothing is
    /// written. Either way the loop then sleeps for its interval.
    pub fn on_poll(&mut self, result: Result<Vec<Anchor>, FeedFailure>) -> (r: PollReport)
        ensures
            final(self).orgs == old(self).orgs,
            match result {
                Ok(anchors) => {
                    &&& final(self).checkpoint.timestamp == checkpoint_after(
                        old(self).checkpoint.timestamp,
                        timestamps(anchors@),
                    )
                    &&& r.writes@ == advances(old(self).checkpoint.timestamp, timestamps(anchors@))
                    &&& r.failure is None
                },
                Err(f) => {
                    &&& final(self).checkpoint == old(self).checkpoint
                    &&& r.writes@.len() == 0
                    &&& r.failure == Some(f)
                },
            },
    {
        match result {
            Ok(anchors) => {
                let writes = self.checkpoint.apply_anchors(&anchors);
                PollReport { writes, failure: None }
            },
            Err(f) => PollReport { writes: Vec::new(), failure: Some(f) },
        }
    }
}

/// The bytes of the record that holds checkpoint `timestamp`: its decimal
/// text and a newline.
pub open spec fn record_bytes(timestamp: u64) -> Seq<u8> {
    decimal_digits(timestamp as nat).push(10)
}

/// Why a stored record could not be read.
#[derive(Debug, Clone, Copy, PartialEq, Eq, Structural)]
pub enum RecordError {
    /// The record does not end in a newline: it was cut short.
    Unterminated,
    /// The text before the newline is not a timestamp.
    Number(DecimalError),
}

/// What reading record `b` gives.
pub open spec fn record_result(b: Seq<u8>) -> Result<u64, RecordError> {
    if b.len() == 0 || b.last() != 10 {
        Err(RecordError::Unterminated)
    } else {
        match decimal_result(b.drop_last()) {
            Ok(v) => Ok(v),
            Err(e) => Err(RecordError::Number(e)),
        }
    }
}

/// The record that stores `checkpoint`.
pub fn encode_record(checkpoint: &Checkpoint) -> (r: Vec<u8>)
    ensures
        r@ == record_bytes(checkpoint.timestamp),
{
    let mut r: Vec<u8> = Vec::new();
    write_decimal(checkpoint.timestamp, &mut r);
    r.push(10u8);
    assert(r@ =~= record_bytes(checkpoint.timestamp));
    r
}

/// Reads a stored record back.
pub fn decode_record(b: &[u8]) -> (r: Result<Checkpoint, RecordError>)
    ensures
        match record_result(b@) {
            Ok(v) => r == Ok::<Checkpoint, RecordError>(Checkpoint { timestamp: v }),
            Err(e) => r == Err::<Checkpoint, RecordError>(e),
        },
{
    let n = b.len();
    if n == 0 || b[n - 1] != 10u8 {
        return Err(RecordError::Unterminated);
    }
    let (text, _) = b.split_at(n - 1);
    assert(text@ =~= b@.drop_last());
    match parse_decimal(text) {
        Ok(v) => Ok(Checkpoint { timestamp: v }),
        Err(e) => Err(RecordError::Number(e)),
    }
}

/// How creating a store at a path went.
#[derive(Debug, Clone, Copy, PartialEq, Eq, Structural)]
pub enum CreateOutcome {
    Created,
    AlreadyExists,
    Failed,
}

/// What to do after trying to create the store.
#[derive(Debug, Clone, Copy, PartialEq, Eq, Structural)]
pub enum StoreStep {
    /// Start from the fresh record, at timestamp zero.
    UseNew,
    /// A store is already there: open it and go on from its record.
    OpenExisting,
    /// Any other failure ends the process.
    Fatal,
}

/// Decides how to go on after trying to create the store.
pub fn after_create(outcome: CreateOutcome) -> (r: StoreStep)
    ensures
        r == match outcome {
            CreateOutcome::Created => StoreStep::UseNew,
            CreateOutcome::AlreadyExists => StoreStep::OpenExisting,
            CreateOutcome::Failed => StoreStep::Fatal,
        },
{
    match outcome {
        CreateOutcome::Created => StoreStep::UseNew,
        CreateOutcome::AlreadyExists => StoreStep::OpenExisting,
        CreateOutcome::Failed => StoreStep::Fatal,
    }
}

/// Each timestamp is smaller than every later one.
pub open spec fn strictly_increasing(ts: Seq<u64>) -> bool {
    forall|i: int, j: int| 0 <= i < j < ts.len() ==> ts[i] < ts[j]
}

/// The checkpoint never goes back: after any batch it is at least where it
/// started, and every value written is newer than the start.
pub proof fn lemma_checkpoint_monotone(start: u64, ts: Seq<u64>)
    ensures
        checkpoint_after(start, ts) >= start,
        forall|k: int| 0 <= k < advances(start, ts).len() ==> #[trigger] advances(start, ts)[k] > start,
    decreases ts.len(),
{
    if ts.len() > 0 {
        let p = ts.drop_last();
        lemma_checkpoint_monotone(start, p);
        let a = advances(start, ts);
        let b = advances(start, p);
        assert forall|k: int| 0 <= k < a.len() implies #[trigger] a[k] > start by {
            if k < b.len() {
                assert(a[k] == b[k]);
            }
        }
    }
}

/// Anchors no newer than the checkpoint are never written and leave it
/// unchanged.
pub proof fn lemma_stale_anchors_ignored(start: u64, ts: Seq<u64>)
    requires
        forall|i: int| 0 <= i < ts.len() ==> #[trigger] ts[i] <= start,
    ensures
        advances(start, ts).len() == 0,
        checkpoint_after(start, ts) == start,
    decreases ts.len(),
{
    if ts.len() > 0 {
        lemma_stale_anchors_ignored(start, ts.drop_last());
    }
}

/// After strictly increasing timestamps whose last is not older than the
/// start, the checkpoint is the last one, and the record written for it
/// reads back as that value after a restart. When the first is already
/// newer than the start, every one of them is written, in order.
pub proof fn lemma_increasing_reaches_last(start: u64, ts: Seq<u64>)
    requires
        strictly_increasing(ts),
        ts.len() > 0,
        ts.last() >= start,
    ensures
        checkpoint_after(start, ts) == ts.last(),
        record_result(record_bytes(checkpoint_after(start, ts))) == Ok::<u64, RecordError>(ts.last()),
        ts[0] > start ==> advances(start, ts) == ts,
    decreases ts.len(),
{
    let p = ts.drop_last();
    if p.len() > 0 {
        assert(strictly_increasing(p));
        if p.last() >= start {
            lemma_increasing_reaches_last(start, p);
            if ts[0] > start {
                assert(p[0] == ts[0]);
                assert(advances(start, ts) =~= ts);
            }
        } else {
            lemma_stale_anchors_ignored(start, p);
            if ts[0] > start {
                assert(p[0] == ts[0]);
                assert(false);
            }
        }
    } else {
        assert(checkpoint_after(start, p) == start);
        assert(advances(start, p).len() == 0);
        if ts[0] > start {
            assert(advances(start, ts) =~= ts);
        }
    }
    lemma_record_round_trip(Checkpoint { timestamp: ts.last() });
}

/// Reading back the record of a checkpoint gives the checkpoint.
pub proof fn lemma_record_round_trip(checkpoint: Checkpoint)
    ensures
        record_result(record_bytes(checkpoint.timestamp)) == Ok::<u64, RecordError>(checkpoint.timestamp),
{
    let b = record_bytes(checkpoint.timestamp);
    assert(b.drop_last() =~= decimal_digits(checkpoint.timestamp as nat));
    lemma_decimal_round_trip(checkpoint.timestamp);
}

} // verus!
