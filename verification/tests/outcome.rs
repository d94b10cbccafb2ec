use std_adapter::outcome::{BlockingError, PollOutcome};

#[test]
fn pending_becomes_would_block() {
    let outcome: PollOutcome<usize, u32> = PollOutcome::Pending;
    assert_eq!(outcome.into_blocking(), Err(BlockingError::WouldBlock));
}

#[test]
fn ready_value_passes_through() {
    let outcome: PollOutcome<usize, u32> = PollOutcome::Ready(Ok(5));
    assert_eq!(outcome.into_blocking(), Ok(5));
}

#[test]
fn ready_zero_is_end_of_stream() {
    let outcome: PollOutcome<usize, u32> = PollOutcome::Ready(Ok(0));
    assert_eq!(outcome.into_blocking(), Ok(0));
}

#[test]
fn ready_unit_passes_through() {
    let outcome: PollOutcome<(), u32> = PollOutcome::Ready(Ok(()));
    assert_eq!(outcome.into_blocking(), Ok(()));
}

#[test]
fn ready_error_passes_through() {
    let outcome: PollOutcome<usize, u32> = PollOutcome::Ready(Err(104));
    assert_eq!(outcome.into_blocking(), Err(BlockingError::Stream(104)));
}

#[test]
fn stream_error_that_says_would_block_stays_a_stream_error() {
    let error = std::io::Error::from(std::io::ErrorKind::WouldBlock);
    let outcome: PollOutcome<usize, std::io::Error> = PollOutcome::Ready(Err(error));
    match outcome.into_blocking() {
        Err(BlockingError::Stream(error)) => {
            assert_eq!(error.kind(), std::io::ErrorKind::WouldBlock)
        }
        other => panic!("not the stream's error: {:?}", other),
    }
}

#[test]
fn filled_count_is_the_answer_on_success() {
    let outcome: PollOutcome<(), u32> = PollOutcome::Ready(Ok(()));
    assert_eq!(outcome.into_blocking_filled(7), Ok(7));
}

#[test]
fn filled_count_zero_is_end_of_stream() {
    let outcome: PollOutcome<(), u32> = PollOutcome::Ready(Ok(()));
    assert_eq!(outcome.into_blocking_filled(0), Ok(0));
}

#[test]
fn filled_count_is_dropped_when_not_ready() {
    let outcome: PollOutcome<(), u32> = PollOutcome::Pending;
    assert_eq!(
        outcome.into_blocking_filled(7),
        Err(BlockingError::WouldBlock)
    );
}

#[test]
fn filled_count_is_dropped_on_failure() {
    let outcome: PollOutcome<(), u32> = PollOutcome::Ready(Err(32));
    assert_eq!(
        outcome.into_blocking_filled(7),
        Err(BlockingError::Stream(32))
    );
}

#[test]
fn would_block_is_told_apart_from_failure() {
    let retry: BlockingError<u32> = BlockingError::WouldBlock;
    let failed: BlockingError<u32> = BlockingError::Stream(5);
    assert!(retry.is_would_block());
    assert!(!failed.is_would_block());
}
