//! The request/reply protocol between callers and the network actor: how one
//! call goes from enqueueing its request to exactly one outcome.

use vstd::prelude::*;

verus! {

/// Why the request queue refused a request.
#[derive(Debug, Clone, Copy, PartialEq, Eq, Structural)]
pub enum SendFailure {
    /// The queue is at capacity; the request was not waited for.
    Full,
    /// The actor has gone away.
    Closed,
}

/// An error returned by a handle call.
#[derive(Debug, Clone, Copy, PartialEq, Eq, Structural)]
#[non_exhaustive]
pub enum Error {
    /// The actor dropped the reply slot without answering.
    ReceiveFailed,
    /// The request could not be enqueued.
    SendFailed(SendFailure),
    /// No reply came before the deadline. Nothing is sent to the actor, which
    /// may still do the work; its reply is then dropped unread.
    Timeout,
}

impl Error {
    pub fn message(&self) -> (r: &'static str)
        ensures
            r@ == match self {
                Error::ReceiveFailed => "receive failed"@,
                Error::SendFailed(SendFailure::Full) => "send failed: queue full"@,
                Error::SendFailed(SendFailure::Closed) => "send failed: queue closed"@,
                Error::Timeout => "request timed out"@,
            },
    {
        match self {
            Error::ReceiveFailed => "receive failed",
            Error::SendFailed(SendFailure::Full) => "send failed: queue full",
            Error::SendFailed(SendFailure::Closed) => "send failed: queue closed",
            Error::Timeout => "request timed out",
        }
    }
}

/// A track request that completed without finding the project.
#[derive(Debug, Clone, Copy, PartialEq, Eq, Structural)]
pub enum TrackProjectError {
    /// No connected peer had the project.
    NotFound,
}

impl TrackProjectError {
    pub fn message(&self) -> (r: &'static str)
        ensures
            r@ == "project not found"@,
    {
        match self {
            TrackProjectError::NotFound => "project not found",
        }
    }
}

/// What the one attempt to enqueue a request gave.
#[derive(Debug, Clone, Copy, PartialEq, Eq, Structural)]
pub enum SendStatus {
    Accepted,
    Full,
    Closed,
}

/// What was seen on the reply slot at a moment of waiting.
#[derive(Debug, Clone)]
pub enum Wait<T> {
    /// The actor answered.
    Reply(T),
    /// The actor dropped the slot unanswered.
    Dropped,
    /// Nothing has come yet.
    Pending,
}

/// Where a call stands.
#[derive(Debug)]
pub enum CallState<T> {
    /// The request is enqueued; a reply is awaited until `deadline_ms`.
    Waiting { deadline_ms: u64 },
    /// The call is over, with this outcome.
    Done(Result<T, Error>),
}

/// The deadline of a call made at `now` with `timeout`, kept within 64 bits.
pub open spec fn deadline(now_ms: u64, timeout_ms: u64) -> u64 {
    if now_ms + timeout_ms > u64::MAX {
        u64::MAX
    } else {
        (now_ms + timeout_ms) as u64
    }
}

/// The state right after the attempt to enqueue.
pub open spec fn begin_spec<T>(send: SendStatus, now_ms: u64, timeout_ms: u64) -> CallState<T> {
    match send {
        SendStatus::Accepted => CallState::Waiting { deadline_ms: deadline(now_ms, timeout_ms) },
        SendStatus::Full => CallState::Done(Err(Error::SendFailed(SendFailure::Full))),
        SendStatus::Closed => CallState::Done(Err(Error::SendFailed(SendFailure::Closed))),
    }
}

/// The state after seeing `event` at time `now`. A finished call stays as
/// it is; a reply counts up to and at the deadline, and from the deadline on
/// a call with nothing in hand has timed out.
pub open spec fn step_spec<T>(state: CallState<T>, event: Wait<T>, now_ms: u64) -> CallState<T> {
    match state {
        CallState::Done(o) => CallState::Done(o),
        CallState::Waiting { deadline_ms } => match event {
            Wait::Reply(v) => if now_ms <= deadline_ms {
                CallState::Done(Ok(v))
            } else {
                CallState::Done(Err(Error::Timeout))
            },
            Wait::Dropped => if now_ms <= deadline_ms {
                CallState::Done(Err(Error::ReceiveFailed))
            } else {
                CallState::Done(Err(Error::Timeout))
            },
            Wait::Pending => if now_ms < deadline_ms {
                CallState::Waiting { deadline_ms }
            } else {
                CallState::Done(Err(Error::Timeout))
            },
        },
    }
}

/// Starts a call at `now_ms` from the result of its one enqueue attempt: a
/// refused request fails at once, without waiting.
pub fn begin_call<T>(send: SendStatus, now_ms: u64, timeout_ms: u64) -> (r: CallState<T>)
    ensures
        r == begin_spec::<T>(send, now_ms, timeout_ms),
{
    match send {
        SendStatus::Accepted => {
            let deadline_ms = if timeout_ms > u64::MAX - now_ms {
                u64::MAX
            } else {
                now_ms + timeout_ms
            };
            CallState::Waiting { deadline_ms }
        },
        SendStatus::Full => CallState::Done(Err(Error::SendFailed(SendFailure::Full))),
        SendStatus::Closed => CallState::Done(Err(Error::SendFailed(SendFailure::Closed))),
    }
}

/// Advances a call by what was seen on its reply slot at `now_ms`.
pub fn step_call<T>(state: CallState<T>, event: Wait<T>, now_ms: u64) -> (r: CallState<T>)
    ensures
        r == step_spec(state, event, now_ms),
{
    match state {
        CallState::Done(o) => CallState::Done(o),
        CallState::Waiting { deadline_ms } => match event {
            Wait::Reply(v) => if now_ms <= deadline_ms {
                CallState::Done(Ok(v))
            } else {
                CallState::Done(Err(Error::Timeout))
            },
            Wait::Dropped => if now_ms <= deadline_ms {
                CallState::Done(Err(Error::ReceiveFailed))
            } else {
                CallState::Done(Err(Error::Timeout))
            },
            Wait::Pending => if now_ms < deadline_ms {
                CallState::Waiting { deadline_ms }
            } else {
                CallState::Done(Err(Error::Timeout))
            },
        },
    }
}

/// The time budget passed to the actor with a track request: half the
/// caller's timeout.
pub fn track_budget_ms(timeout_ms: u64) -> (r: u64)
    ensures
        r == timeout_ms / 2,
{
    timeout_ms / 2
}

/// A call whose request was accepted does not time out before its deadline,
/// times out at the first look at or after it with no reply, and returns a
/// reply that comes by the deadline exactly as the actor sent it.
pub proof fn lemma_call_deadline<T>(start_ms: u64, timeout_ms: u64, now_ms: u64, v: T)
    ensures
        ({
            let s = begin_spec::<T>(SendStatus::Accepted, start_ms, timeout_ms);
            let d = deadline(start_ms, timeout_ms);
            &&& d >= start_ms
            &&& start_ms + timeout_ms <= u64::MAX ==> d == start_ms + timeout_ms
            &&& (now_ms < d ==> step_spec(s, Wait::Pending, now_ms) == s)
            &&& (now_ms >= d ==> step_spec(s, Wait::<T>::Pending, now_ms) == CallState::<T>::Done(
                Err(Error::Timeout),
            ))
            &&& (now_ms <= d ==> step_spec(s, Wait::Reply(v), now_ms) == CallState::<T>::Done(Ok(v)))
        }),
{
}

/// A call ends with exactly one outcome: once done, nothing seen later
/// changes it.
pub proof fn lemma_outcome_settled<T>(o: Result<T, Error>, event: Wait<T>, now_ms: u64)
    ensures
        step_spec(CallState::Done(o), event, now_ms) == CallState::Done(o),
{
}

} // verus!
