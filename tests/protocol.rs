use org_node::protocol::{
    begin_call, step_call, track_budget_ms, CallState, Error, SendFailure, SendStatus,
    TrackProjectError, Wait,
};

fn outcome<T>(s: CallState<T>) -> Option<Result<T, Error>> {
    match s {
        CallState::Done(o) => Some(o),
        CallState::Waiting { .. } => None,
    }
}

#[test]
fn silent_backend_times_out_at_deadline() {
    let s: CallState<u32> = begin_call(SendStatus::Accepted, 1_000, 500);
    let s = step_call(s, Wait::Pending, 1_200);
    let s = step_call(s, Wait::Pending, 1_499);
    assert!(matches!(s, CallState::Waiting { deadline_ms: 1_500 }));
    let s = step_call(s, Wait::Pending, 1_500);
    assert_eq!(outcome(s), Some(Err(Error::Timeout)));
}

#[test]
fn reply_within_deadline_is_returned() {
    let s = begin_call(SendStatus::Accepted, 0, 100);
    let s = step_call(s, Wait::Reply(vec![7u8, 8]), 99);
    assert_eq!(outcome(s), Some(Ok(vec![7u8, 8])));
}

#[test]
fn late_reply_is_dropped() {
    let s = begin_call(SendStatus::Accepted, 0, 100);
    let s = step_call(s, Wait::Reply(3u8), 101);
    assert_eq!(outcome(s), Some(Err(Error::Timeout)));
}

#[test]
fn track_not_found_is_a_successful_round_trip() {
    let s: CallState<Result<Option<String>, TrackProjectError>> =
        begin_call(SendStatus::Accepted, 10, 1_000);
    let s = step_call(s, Wait::Reply(Err(TrackProjectError::NotFound)), 20);
    assert_eq!(outcome(s), Some(Ok(Err(TrackProjectError::NotFound))));
    assert_eq!(TrackProjectError::NotFound.message(), "project not found");
}

#[test]
fn full_queue_fails_at_once() {
    let s: CallState<()> = begin_call(SendStatus::Full, 0, 100);
    assert_eq!(outcome(s), Some(Err(Error::SendFailed(SendFailure::Full))));
    let s: CallState<()> = begin_call(SendStatus::Closed, 0, 100);
    assert_eq!(outcome(s), Some(Err(Error::SendFailed(SendFailure::Closed))));
}

#[test]
fn dropped_slot_is_receive_failure() {
    let s: CallState<()> = begin_call(SendStatus::Accepted, 0, 100);
    let s = step_call(s, Wait::Dropped, 50);
    assert_eq!(outcome(s), Some(Err(Error::ReceiveFailed)));
    assert_eq!(Error::ReceiveFailed.message(), "receive failed");
}

#[test]
fn finished_call_keeps_its_outcome() {
    let s = begin_call(SendStatus::Accepted, 0, 100);
    let s = step_call(s, Wait::Reply(1u8), 10);
    let s = step_call(s, Wait::Reply(2u8), 20);
    let s = step_call(s, Wait::Dropped, 30);
    let s = step_call(s, Wait::Pending, 500);
    assert_eq!(outcome(s), Some(Ok(1u8)));
}

#[test]
fn deadline_saturates() {
    let s: CallState<()> = begin_call(SendStatus::Accepted, u64::MAX - 1, 10);
    assert!(matches!(s, CallState::Waiting { deadline_ms } if deadline_ms == u64::MAX));
}

#[test]
fn track_budget_is_half_the_timeout() {
    assert_eq!(track_budget_ms(10_000), 5_000);
    assert_eq!(track_budget_ms(7), 3);
    assert_eq!(Error::Timeout.message(), "request timed out");
}
