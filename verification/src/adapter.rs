//! The adapter between a blocking-style caller and a poll-based stream.
//!
//! A poll operation needs the task context of the scheduler that drives it,
//! and a blocking-style `read(buf)` has no parameter to carry one. The
//! adapter therefore owns the stream and keeps a slot for the context. The
//! scheduler integration fills the slot right before it lets blocking-style
//! code run and empties it right after. A blocking-style call made in
//! between takes the context from the slot, makes one poll attempt with it
//! and turns the outcome into its own result.
//!
//! The adapter never looks inside the context or the stream, so both are
//! type parameters, and the poll operation itself is handed in by the
//! caller. Every contract below is stated over that operation's own
//! contract: what the adapter returns and leaves behind is what one attempt
//! on what it held returned and left behind.
//!
//! In the contracts `c`, `s` and `b` stand for the borrows that the
//! operation is called with: `*c` is the context as the operation finds it
//! and `*final(c)` the context as the operation leaves it, and likewise for
//! the stream and the buffer. `call_requires(f, args)` says that `f` may be
//! called with `args`, and `call_ensures(f, args, r)` that `r` is what such a
//! call can return.

use crate::outcome::{BlockingError, PollOutcome};
use crate::tracking::{capacity, filled_bytes};
use tokio::io::ReadBuf;
use vstd::prelude::*;

verus! {

/// A poll-based stream of type `S` together with a slot for a task context
/// of type `C`.
pub struct StdAdapter<S, C> {
    inner: S,
    context: Option<C>,
}

impl<S, C> StdAdapter<S, C> {
    /// The wrapped stream as the adapter holds it.
    pub closed spec fn stream(self) -> S {
        self.inner
    }

    /// The context slot: `Some` while a context is installed.
    pub closed spec fn context(self) -> Option<C> {
        self.context
    }

    /// The adapter has `context` installed and wraps `stream`.
    pub open spec fn holds(self, context: C, stream: S) -> bool {
        self.context() == Some(context) && self.stream() == stream
    }

    /// Wraps `inner`. No context is installed yet.
    pub fn new(inner: S) -> (adapter: Self)
        ensures
            adapter.stream() == inner,
            adapter.context() is None,
    {
        StdAdapter { inner, context: None }
    }

    /// Whether a context is installed, that is, whether a blocking-style
    /// call may be made now.
    pub fn has_context(&self) -> (installed: bool)
        ensures
            installed == (self.context() is Some),
    {
        self.context.is_some()
    }

    /// Installs `context` for the blocking-style calls that follow and
    /// returns what the slot held before.
    pub fn set_context(&mut self, context: C) -> (previous: Option<C>)
        ensures
            final(self).holds(context, old(self).stream()),
            previous == old(self).context(),
    {
        let previous = self.context.take();
        self.context = Some(context);
        previous
    }

    /// Empties the slot and returns the context that was installed, if any.
    /// From here on no blocking-style call may be made until a context is
    /// installed again.
    pub fn take_context(&mut self) -> (installed: Option<C>)
        ensures
            final(self).context() is None,
            final(self).stream() == old(self).stream(),
            installed == old(self).context(),
    {
        self.context.take()
    }

    /// The wrapped stream.
    pub fn get_ref(&self) -> (stream: &S)
        ensures
            *stream == self.stream(),
    {
        &self.inner
    }

    /// The wrapped stream, for changes. The slot stays as it is.
    pub fn get_mut(&mut self) -> (stream: &mut S)
        ensures
            *stream == old(self).stream(),
            final(self).stream() == *final(stream),
            final(self).context() == old(self).context(),
    {
        &mut self.inner
    }

    /// Gives the stream back and drops the slot.
    pub fn into_inner(self) -> (stream: S)
        ensures
            stream == self.stream(),
    {
        self.inner
    }

    /// Lends out the installed context and the stream together.
    fn lend(&mut self) -> (lent: (&mut C, &mut S))
        requires
            old(self).context() is Some,
        ensures
            old(self).holds(*lent.0, *lent.1),
            final(self).holds(*final(lent.0), *final(lent.1)),
    {
        match &mut self.context {
            Some(context) => (context, &mut self.inner),
            None => vstd::pervasive::unreached(),
        }
    }

    /// Calls `f` once, with the installed context and the wrapped stream,
    /// and returns what it returns.
    ///
    /// A context must be installed: to call this outside the scheduler's
    /// poll is a defect of the integration, not a condition to recover
    /// from.
    pub fn with_context<F, R>(&mut self, f: F) -> (returned: R)
        where F: FnOnce(&mut C, &mut S) -> R
        requires
            old(self).context() is Some,
            forall|c: &mut C, s: &mut S|
                old(self).holds(*c, *s) ==> call_requires(f, (c, s)),
        ensures
            exists|c: &mut C, s: &mut S|
                old(self).holds(*c, *s)
                    && call_ensures(f, (c, s), returned)
                    && final(self).holds(*final(c), *final(s)),
    {
        let (context, stream) = self.lend();
        f(context, stream)
    }

    /// Blocking-style read on a stream that fills a plain slice and returns
    /// the count: makes one attempt with `poll_read` on the caller's buffer
    /// and returns the count or the stream's error if the attempt completed,
    /// [`BlockingError::WouldBlock`] if the stream was not ready. A count of
    /// 0 is the end of the stream.
    ///
    /// The buffer is left as the attempt left it. A context must be
    /// installed.
    pub fn read<F, E>(&mut self, buf: &mut [u8], poll_read: F) -> (result: Result<usize, BlockingError<E>>)
        where F: FnOnce(&mut C, &mut S, &mut [u8]) -> PollOutcome<usize, E>
        requires
            old(self).context() is Some,
            forall|c: &mut C, s: &mut S, b: &mut [u8]|
                old(self).holds(*c, *s) && b@ == old(buf)@
                    ==> call_requires(poll_read, (c, s, b)),
        ensures
            exists|c: &mut C, s: &mut S, b: &mut [u8], outcome: PollOutcome<usize, E>|
                old(self).holds(*c, *s)
                    && b@ == old(buf)@
                    && call_ensures(poll_read, (c, s, b), outcome)
                    && final(self).holds(*final(c), *final(s))
                    && final(buf)@ == final(b)@
                    && result == outcome.blocking(),
    {
        let (context, stream) = self.lend();
        poll_read(context, stream, buf).into_blocking()
    }

    /// Blocking-style read on a stream that fills a tracking structure:
    /// wraps the caller's buffer in a fresh `ReadBuf`, makes one attempt
    /// with `poll_read` on it, and returns the number of bytes the
    /// structure counts as filled if the attempt succeeded, the stream's
    /// error if it failed, [`BlockingError::WouldBlock`] if the stream was
    /// not ready.
    ///
    /// A context must be installed.
    pub fn read_buf<F, E>(&mut self, buf: &mut [u8], poll_read: F) -> (result: Result<usize, BlockingError<E>>)
        where F: FnOnce(&mut C, &mut S, &mut ReadBuf<'_>) -> PollOutcome<(), E>
        requires
            old(self).context() is Some,
            forall|c: &mut C, s: &mut S, t: &mut ReadBuf<'_>|
                old(self).holds(*c, *s)
                    && filled_bytes(*t) == Seq::<u8>::empty()
                    && capacity(*t) == old(buf)@.len()
                    ==> call_requires(poll_read, (c, s, t)),
        ensures
            exists|c: &mut C, s: &mut S, t: &mut ReadBuf<'_>, outcome: PollOutcome<(), E>, count: usize|
                old(self).holds(*c, *s)
                    && filled_bytes(*t) == Seq::<u8>::empty()
                    && capacity(*t) == old(buf)@.len()
                    && call_ensures(poll_read, (c, s, t), outcome)
                    && final(self).holds(*final(c), *final(s))
                    && count == filled_bytes(*final(t)).len()
                    && result == outcome.blocking_filled(count),
    {
        let mut tracker = ReadBuf::new(buf);
        let (context, stream) = self.lend();
        let outcome = poll_read(context, stream, &mut tracker);
        outcome.into_blocking_filled(tracker.filled().len())
    }

    /// Blocking-style write: makes one attempt with `poll_write` on `buf`
    /// and returns the count of bytes the stream took or the stream's error
    /// if the attempt completed, [`BlockingError::WouldBlock`] if the stream
    /// was not ready. It does not go on to write what the stream left.
    ///
    /// A context must be installed.
    pub fn write<F, E>(&mut self, buf: &[u8], poll_write: F) -> (result: Result<usize, BlockingError<E>>)
        where F: FnOnce(&mut C, &mut S, &[u8]) -> PollOutcome<usize, E>
        requires
            old(self).context() is Some,
            forall|c: &mut C, s: &mut S|
                old(self).holds(*c, *s) ==> call_requires(poll_write, (c, s, buf)),
        ensures
            exists|c: &mut C, s: &mut S, outcome: PollOutcome<usize, E>|
                old(self).holds(*c, *s)
                    && call_ensures(poll_write, (c, s, buf), outcome)
                    && final(self).holds(*final(c), *final(s))
                    && result == outcome.blocking(),
    {
        let (context, stream) = self.lend();
        poll_write(context, stream, buf).into_blocking()
    }

    /// Blocking-style flush: makes one attempt with `poll_flush` and
    /// returns `Ok` if the stream flushed, the stream's error if it failed,
    /// [`BlockingError::WouldBlock`] if it was not ready.
    ///
    /// A context must be installed.
    pub fn flush<F, E>(&mut self, poll_flush: F) -> (result: Result<(), BlockingError<E>>)
        where F: FnOnce(&mut C, &mut S) -> PollOutcome<(), E>
        requires
            old(self).context() is Some,
            forall|c: &mut C, s: &mut S|
                old(self).holds(*c, *s) ==> call_requires(poll_flush, (c, s)),
        ensures
            exists|c: &mut C, s: &mut S, outcome: PollOutcome<(), E>|
                old(self).holds(*c, *s)
                    && call_ensures(poll_flush, (c, s), outcome)
                    && final(self).holds(*final(c), *final(s))
                    && result == outcome.blocking(),
    {
        self.with_context(poll_flush).into_blocking()
    }
}

} // verus!
