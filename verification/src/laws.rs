//! What holds of every blocking-style call, whatever the stream is.
//!
//! Each law takes the adapter and the buffer as they were before a call and
//! as they are after it, the poll operation that was handed in and the
//! result that came back, and assumes of them what the call's contract
//! ensures. A caller that has just made the call has all of that at hand.

use crate::adapter::StdAdapter;
use crate::outcome::{BlockingError, PollOutcome};
use crate::tracking::{capacity, filled_bytes};
use tokio::io::ReadBuf;
use vstd::prelude::*;

verus! {

/// The blocking-style result tells the outcomes of an attempt apart: it is
/// `Ok` exactly when the attempt succeeded, `WouldBlock` exactly when the
/// stream was not ready, and the stream's error exactly when the attempt
/// failed with it.
pub proof fn result_tells_outcomes_apart<T, E>(outcome: PollOutcome<T, E>)
    ensures
        outcome.blocking() is Ok <==> outcome matches PollOutcome::Ready(Ok(_)),
        outcome.blocking() == Err::<T, BlockingError<E>>(BlockingError::WouldBlock)
            <==> outcome is Pending,
        forall|value: T|
            outcome.blocking() == Ok::<T, BlockingError<E>>(value)
                <==> outcome == PollOutcome::<T, E>::Ready(Ok(value)),
        forall|error: E|
            outcome.blocking() == Err::<T, BlockingError<E>>(BlockingError::Stream(error))
                <==> outcome == PollOutcome::<T, E>::Ready(Err(error)),
{
}

/// Both read conventions tell the caller the same: a stream that leaves
/// `filled` bytes in a tracking structure is answered for as a stream that
/// returns `filled` as its count.
pub proof fn read_conventions_agree<E>(outcome: PollOutcome<(), E>, filled: usize)
    ensures
        outcome.blocking_filled(filled) == outcome.counted(filled).blocking(),
{
}

/// An adapter without a context holds nothing that a poll attempt could be
/// made on. This is why every blocking-style call demands an installed
/// context: what each of them promises is an attempt on what the adapter
/// holds.
pub proof fn nothing_held_without_context<S, C>(adapter: StdAdapter<S, C>)
    requires
        adapter.context() is None,
    ensures
        forall|context: C, stream: S| !adapter.holds(context, stream),
{
}

/// If the stream is not ready for reading, `read` returns exactly
/// `WouldBlock`, and what it leaves behind is what one attempt that found
/// the stream not ready left behind.
pub proof fn read_not_ready<S, C, F, E>(
    before: StdAdapter<S, C>,
    after: StdAdapter<S, C>,
    buf_before: Seq<u8>,
    buf_after: Seq<u8>,
    poll_read: F,
    result: Result<usize, BlockingError<E>>,
) where F: FnOnce(&mut C, &mut S, &mut [u8]) -> PollOutcome<usize, E>
    requires
        exists|c: &mut C, s: &mut S, b: &mut [u8], outcome: PollOutcome<usize, E>|
            before.holds(*c, *s)
                && b@ == buf_before
                && call_ensures(poll_read, (c, s, b), outcome)
                && after.holds(*final(c), *final(s))
                && buf_after == final(b)@
                && result == outcome.blocking(),
        forall|c: &mut C, s: &mut S, b: &mut [u8], outcome: PollOutcome<usize, E>|
            before.holds(*c, *s) && b@ == buf_before && call_ensures(poll_read, (c, s, b), outcome)
                ==> outcome is Pending,
    ensures
        result == Err::<usize, BlockingError<E>>(BlockingError::WouldBlock),
        exists|c: &mut C, s: &mut S, b: &mut [u8]|
            before.holds(*c, *s)
                && b@ == buf_before
                && call_ensures(poll_read, (c, s, b), PollOutcome::<usize, E>::Pending)
                && after.holds(*final(c), *final(s))
                && buf_after == final(b)@,
{
}

/// If the stream is not ready for reading, `read_buf` returns exactly
/// `WouldBlock`, whatever the tracking structure counts as filled.
pub proof fn read_buf_not_ready<S, C, F, E>(
    before: StdAdapter<S, C>,
    after: StdAdapter<S, C>,
    buf_len: nat,
    poll_read: F,
    result: Result<usize, BlockingError<E>>,
) where F: FnOnce(&mut C, &mut S, &mut ReadBuf<'_>) -> PollOutcome<(), E>
    requires
        exists|c: &mut C, s: &mut S, t: &mut ReadBuf<'_>, outcome: PollOutcome<(), E>, filled: usize|
            before.holds(*c, *s)
                && filled_bytes(*t) == Seq::<u8>::empty()
                && capacity(*t) == buf_len
                && call_ensures(poll_read, (c, s, t), outcome)
                && after.holds(*final(c), *final(s))
                && filled == filled_bytes(*final(t)).len()
                && result == outcome.blocking_filled(filled),
        forall|c: &mut C, s: &mut S, t: &mut ReadBuf<'_>, outcome: PollOutcome<(), E>|
            before.holds(*c, *s)
                && filled_bytes(*t) == Seq::<u8>::empty()
                && capacity(*t) == buf_len
                && call_ensures(poll_read, (c, s, t), outcome)
                ==> outcome is Pending,
    ensures
        result == Err::<usize, BlockingError<E>>(BlockingError::WouldBlock),
        exists|c: &mut C, s: &mut S, t: &mut ReadBuf<'_>|
            before.holds(*c, *s)
                && filled_bytes(*t) == Seq::<u8>::empty()
                && capacity(*t) == buf_len
                && call_ensures(poll_read, (c, s, t), PollOutcome::<(), E>::Pending)
                && after.holds(*final(c), *final(s)),
{
}

/// If the stream is not ready for writing, `write` returns exactly
/// `WouldBlock`, and what it leaves behind is what one attempt that found
/// the stream not ready left behind.
pub proof fn write_not_ready<S, C, F, E>(
    before: StdAdapter<S, C>,
    after: StdAdapter<S, C>,
    buf: &[u8],
    poll_write: F,
    result: Result<usize, BlockingError<E>>,
) where F: FnOnce(&mut C, &mut S, &[u8]) -> PollOutcome<usize, E>
    requires
        exists|c: &mut C, s: &mut S, outcome: PollOutcome<usize, E>|
            before.holds(*c, *s)
                && call_ensures(poll_write, (c, s, buf), outcome)
                && after.holds(*final(c), *final(s))
                && result == outcome.blocking(),
        forall|c: &mut C, s: &mut S, outcome: PollOutcome<usize, E>|
            before.holds(*c, *s) && call_ensures(poll_write, (c, s, buf), outcome)
                ==> outcome is Pending,
    ensures
        result == Err::<usize, BlockingError<E>>(BlockingError::WouldBlock),
        exists|c: &mut C, s: &mut S|
            before.holds(*c, *s)
                && call_ensures(poll_write, (c, s, buf), PollOutcome::<usize, E>::Pending)
                && after.holds(*final(c), *final(s)),
{
}

/// If the stream is not ready to flush, `flush` returns exactly
/// `WouldBlock`, and what it leaves behind is what one attempt that found
/// the stream not ready left behind.
pub proof fn flush_not_ready<S, C, F, E>(
    before: StdAdapter<S, C>,
    after: StdAdapter<S, C>,
    poll_flush: F,
    result: Result<(), BlockingError<E>>,
) where F: FnOnce(&mut C, &mut S) -> PollOutcome<(), E>
    requires
        exists|c: &mut C, s: &mut S, outcome: PollOutcome<(), E>|
            before.holds(*c, *s)
                && call_ensures(poll_flush, (c, s), outcome)
                && after.holds(*final(c), *final(s))
                && result == outcome.blocking(),
        forall|c: &mut C, s: &mut S, outcome: PollOutcome<(), E>|
            before.holds(*c, *s) && call_ensures(poll_flush, (c, s), outcome)
                ==> outcome is Pending,
    ensures
        result == Err::<(), BlockingError<E>>(BlockingError::WouldBlock),
        exists|c: &mut C, s: &mut S|
            before.holds(*c, *s)
                && call_ensures(poll_flush, (c, s), PollOutcome::<(), E>::Pending)
                && after.holds(*final(c), *final(s)),
{
}

/// If the stream reads `count` bytes and leaves the buffer holding
/// `filled`, `read` returns `Ok(count)` and the caller's buffer holds
/// `filled`: every byte is where the stream put it, none is added and none
/// is lost.
pub proof fn read_success<S, C, F, E>(
    before: StdAdapter<S, C>,
    after: StdAdapter<S, C>,
    buf_before: Seq<u8>,
    buf_after: Seq<u8>,
    poll_read: F,
    result: Result<usize, BlockingError<E>>,
    count: usize,
    filled: Seq<u8>,
) where F: FnOnce(&mut C, &mut S, &mut [u8]) -> PollOutcome<usize, E>
    requires
        exists|c: &mut C, s: &mut S, b: &mut [u8], outcome: PollOutcome<usize, E>|
            before.holds(*c, *s)
                && b@ == buf_before
                && call_ensures(poll_read, (c, s, b), outcome)
                && after.holds(*final(c), *final(s))
                && buf_after == final(b)@
                && result == outcome.blocking(),
        forall|c: &mut C, s: &mut S, b: &mut [u8], outcome: PollOutcome<usize, E>|
            before.holds(*c, *s) && b@ == buf_before && call_ensures(poll_read, (c, s, b), outcome)
                ==> outcome == PollOutcome::<usize, E>::Ready(Ok(count)) && final(b)@ == filled,
    ensures
        result == Ok::<usize, BlockingError<E>>(count),
        buf_after == filled,
{
}

/// If the stream reads successfully and leaves `count` bytes filled in the
/// tracking structure, `read_buf` returns `Ok(count)`.
pub proof fn read_buf_success<S, C, F, E>(
    before: StdAdapter<S, C>,
    after: StdAdapter<S, C>,
    buf_len: nat,
    poll_read: F,
    result: Result<usize, BlockingError<E>>,
    count: usize,
) where F: FnOnce(&mut C, &mut S, &mut ReadBuf<'_>) -> PollOutcome<(), E>
    requires
        exists|c: &mut C, s: &mut S, t: &mut ReadBuf<'_>, outcome: PollOutcome<(), E>, filled: usize|
            before.holds(*c, *s)
                && filled_bytes(*t) == Seq::<u8>::empty()
                && capacity(*t) == buf_len
                && call_ensures(poll_read, (c, s, t), outcome)
                && after.holds(*final(c), *final(s))
                && filled == filled_bytes(*final(t)).len()
                && result == outcome.blocking_filled(filled),
        forall|c: &mut C, s: &mut S, t: &mut ReadBuf<'_>, outcome: PollOutcome<(), E>|
            before.holds(*c, *s)
                && filled_bytes(*t) == Seq::<u8>::empty()
                && capacity(*t) == buf_len
                && call_ensures(poll_read, (c, s, t), outcome)
                ==> outcome == PollOutcome::<(), E>::Ready(Ok(()))
                    && filled_bytes(*final(t)).len() == count,
    ensures
        result == Ok::<usize, BlockingError<E>>(count),
{
}

/// If the stream fails to write with `error`, `write` returns exactly
/// `error`, marked as the stream's own.
pub proof fn write_failure<S, C, F, E>(
    before: StdAdapter<S, C>,
    after: StdAdapter<S, C>,
    buf: &[u8],
    poll_write: F,
    result: Result<usize, BlockingError<E>>,
    error: E,
) where F: FnOnce(&mut C, &mut S, &[u8]) -> PollOutcome<usize, E>
    requires
        exists|c: &mut C, s: &mut S, outcome: PollOutcome<usize, E>|
            before.holds(*c, *s)
                && call_ensures(poll_write, (c, s, buf), outcome)
                && after.holds(*final(c), *final(s))
                && result == outcome.blocking(),
        forall|c: &mut C, s: &mut S, outcome: PollOutcome<usize, E>|
            before.holds(*c, *s) && call_ensures(poll_write, (c, s, buf), outcome)
                ==> outcome == PollOutcome::<usize, E>::Ready(Err(error)),
    ensures
        result == Err::<usize, BlockingError<E>>(BlockingError::Stream(error)),
{
}

/// One `read` is one attempt: if `attempts` counts the poll attempts that
/// a stream has seen, the count is one higher after the call.
pub proof fn read_single_attempt<S, C, F, E>(
    before: StdAdapter<S, C>,
    after: StdAdapter<S, C>,
    buf_before: Seq<u8>,
    buf_after: Seq<u8>,
    poll_read: F,
    result: Result<usize, BlockingError<E>>,
    attempts: spec_fn(S) -> nat,
) where F: FnOnce(&mut C, &mut S, &mut [u8]) -> PollOutcome<usize, E>
    requires
        exists|c: &mut C, s: &mut S, b: &mut [u8], outcome: PollOutcome<usize, E>|
            before.holds(*c, *s)
                && b@ == buf_before
                && call_ensures(poll_read, (c, s, b), outcome)
                && after.holds(*final(c), *final(s))
                && buf_after == final(b)@
                && result == outcome.blocking(),
        forall|c: &mut C, s: &mut S, b: &mut [u8], outcome: PollOutcome<usize, E>|
            call_ensures(poll_read, (c, s, b), outcome)
                ==> attempts(*final(s)) == attempts(*s) + 1,
    ensures
        attempts(after.stream()) == attempts(before.stream()) + 1,
{
}

/// One `read_buf` is one attempt: if `attempts` counts the poll attempts
/// that a stream has seen, the count is one higher after the call.
pub proof fn read_buf_single_attempt<S, C, F, E>(
    before: StdAdapter<S, C>,
    after: StdAdapter<S, C>,
    buf_len: nat,
    poll_read: F,
    result: Result<usize, BlockingError<E>>,
    attempts: spec_fn(S) -> nat,
) where F: FnOnce(&mut C, &mut S, &mut ReadBuf<'_>) -> PollOutcome<(), E>
    requires
        exists|c: &mut C, s: &mut S, t: &mut ReadBuf<'_>, outcome: PollOutcome<(), E>, filled: usize|
            before.holds(*c, *s)
                && filled_bytes(*t) == Seq::<u8>::empty()
                && capacity(*t) == buf_len
                && call_ensures(poll_read, (c, s, t), outcome)
                && after.holds(*final(c), *final(s))
                && filled == filled_bytes(*final(t)).len()
                && result == outcome.blocking_filled(filled),
        forall|c: &mut C, s: &mut S, t: &mut ReadBuf<'_>, outcome: PollOutcome<(), E>|
            call_ensures(poll_read, (c, s, t), outcome)
                ==> attempts(*final(s)) == attempts(*s) + 1,
    ensures
        attempts(after.stream()) == attempts(before.stream()) + 1,
{
}

/// One `write` is one attempt: if `attempts` counts the poll attempts that
/// a stream has seen, the count is one higher after the call. In
/// particular `write` does not try again with what the stream left.
pub proof fn write_single_attempt<S, C, F, E>(
    before: StdAdapter<S, C>,
    after: StdAdapter<S, C>,
    buf: &[u8],
    poll_write: F,
    result: Result<usize, BlockingError<E>>,
    attempts: spec_fn(S) -> nat,
) where F: FnOnce(&mut C, &mut S, &[u8]) -> PollOutcome<usize, E>
    requires
        exists|c: &mut C, s: &mut S, outcome: PollOutcome<usize, E>|
            before.holds(*c, *s)
                && call_ensures(poll_write, (c, s, buf), outcome)
                && after.holds(*final(c), *final(s))
                && result == outcome.blocking(),
        forall|c: &mut C, s: &mut S, outcome: PollOutcome<usize, E>|
            call_ensures(poll_write, (c, s, buf), outcome)
                ==> attempts(*final(s)) == attempts(*s) + 1,
    ensures
        attempts(after.stream()) == attempts(before.stream()) + 1,
{
}

/// One `flush` is one attempt: if `attempts` counts the poll attempts that
/// a stream has seen, the count is one higher after the call.
pub proof fn flush_single_attempt<S, C, F, E>(
    before: StdAdapter<S, C>,
    after: StdAdapter<S, C>,
    poll_flush: F,
    result: Result<(), BlockingError<E>>,
    attempts: spec_fn(S) -> nat,
) where F: FnOnce(&mut C, &mut S) -> PollOutcome<(), E>
    requires
        exists|c: &mut C, s: &mut S, outcome: PollOutcome<(), E>|
            before.holds(*c, *s)
                && call_ensures(poll_flush, (c, s), outcome)
                && after.holds(*final(c), *final(s))
                && result == outcome.blocking(),
        forall|c: &mut C, s: &mut S, outcome: PollOutcome<(), E>|
            call_ensures(poll_flush, (c, s), outcome)
                ==> attempts(*final(s)) == attempts(*s) + 1,
    ensures
        attempts(after.stream()) == attempts(before.stream()) + 1,
{
}

} // verus!
