//! What one poll attempt on a stream reports, and what a blocking-style
//! caller is told in its place.
//!
//! A poll-based stream answers every attempt at once: either the operation
//! completed (with a value or with the stream's own error) or the stream is
//! not ready. A blocking-style caller has no notion of "not ready", so that
//! answer reaches it as an ordinary error, [`BlockingError::WouldBlock`], and
//! everything else reaches it unchanged.

use vstd::prelude::*;

verus! {

/// The report of a single poll attempt.
#[derive(Debug, PartialEq, Eq)]
pub enum PollOutcome<T, E> {
    /// The operation completed; the payload is its result.
    Ready(Result<T, E>),
    /// The stream cannot make progress now. The task has been registered
    /// for a wake-up and the attempt is to be repeated after it.
    Pending,
}

/// The error of a blocking-style call.
#[derive(Debug, PartialEq, Eq)]
pub enum BlockingError<E> {
    /// The poll attempt found the stream not ready. This is a signal rather
    /// than a failure: the call is to be made again after the next wake-up.
    WouldBlock,
    /// The stream failed; the payload is the stream's error as it came.
    Stream(E),
}

impl<E> BlockingError<E> {
    /// Whether the error only says "try again later".
    pub fn is_would_block(&self) -> (b: bool)
        ensures
            b == (self is WouldBlock),
    {
        match self {
            BlockingError::WouldBlock => true,
            BlockingError::Stream(_) => false,
        }
    }
}

impl<T, E> PollOutcome<T, E> {
    /// What the blocking-style caller is told for this outcome: a completed
    /// operation hands its value or its error through, an attempt that found
    /// the stream not ready becomes [`BlockingError::WouldBlock`].
    pub open spec fn blocking(self) -> Result<T, BlockingError<E>> {
        match self {
            PollOutcome::Ready(Ok(value)) => Ok(value),
            PollOutcome::Ready(Err(error)) => Err(BlockingError::Stream(error)),
            PollOutcome::Pending => Err(BlockingError::WouldBlock),
        }
    }

    /// Turns the outcome of one poll attempt into the result of the
    /// blocking-style call that made it.
    pub fn into_blocking(self) -> (result: Result<T, BlockingError<E>>)
        ensures
            result == self.blocking(),
    {
        match self {
            PollOutcome::Ready(Ok(value)) => Ok(value),
            PollOutcome::Ready(Err(error)) => Err(BlockingError::Stream(error)),
            PollOutcome::Pending => Err(BlockingError::WouldBlock),
        }
    }
}

impl<E> PollOutcome<(), E> {
    /// The same outcome as a stream that returns its count would have
    /// reported it, `filled` being the count.
    pub open spec fn counted(self, filled: usize) -> PollOutcome<usize, E> {
        match self {
            PollOutcome::Ready(Ok(_)) => PollOutcome::Ready(Ok(filled)),
            PollOutcome::Ready(Err(error)) => PollOutcome::Ready(Err(error)),
            PollOutcome::Pending => PollOutcome::Pending,
        }
    }

    /// The blocking-style result of a read on a stream that reports only
    /// completion and leaves the bytes in a tracking structure: `filled` is
    /// the number of bytes that structure holds after the attempt, and it is
    /// the answer exactly when the attempt succeeded.
    pub open spec fn blocking_filled(self, filled: usize) -> Result<usize, BlockingError<E>> {
        match self {
            PollOutcome::Ready(Ok(_)) => Ok(filled),
            PollOutcome::Ready(Err(error)) => Err(BlockingError::Stream(error)),
            PollOutcome::Pending => Err(BlockingError::WouldBlock),
        }
    }

    /// Turns the outcome of one read attempt that filled a tracking
    /// structure into the result of the blocking-style read: on success the
    /// count of filled bytes, otherwise the error as [`Self::into_blocking`]
    /// gives it.
    pub fn into_blocking_filled(self, filled: usize) -> (result: Result<usize, BlockingError<E>>)
        ensures
            result == self.blocking_filled(filled),
    {
        match self {
            PollOutcome::Ready(Ok(_)) => Ok(filled),
            PollOutcome::Ready(Err(error)) => Err(BlockingError::Stream(error)),
            PollOutcome::Pending => Err(BlockingError::WouldBlock),
        }
    }
}

} // verus!
