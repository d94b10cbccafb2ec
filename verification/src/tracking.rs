//! The buffer-tracking structure of tokio, as far as the adapter uses it.
//!
//! A tokio stream does not return the number of bytes it read. It is handed
//! a `ReadBuf`, a byte buffer with a cursor that separates a filled front
//! from the rest, puts its bytes behind the cursor and moves the cursor on.
//! The adapter makes such a structure over the caller's buffer before the
//! attempt and reads the length of the filled front after it.
//!
//! Nothing in this file is proved. The type is opaque to the verifier, and
//! the two contracts below restate what the source of `ReadBuf` shows.

use tokio::io::ReadBuf;
use vstd::prelude::*;

verus! {

/// `tokio::io::ReadBuf`, taken as an opaque type.
#[verifier::external_type_specification]
#[verifier::external_body]
pub struct ExReadBuf<'a>(ReadBuf<'a>);

/// The filled front of a tracking structure: the bytes that
/// `ReadBuf::filled` hands out, in order.
pub uninterp spec fn filled_bytes(tracker: ReadBuf<'_>) -> Seq<u8>;

/// The length of the whole buffer that a tracking structure was made over,
/// filled or not: what `ReadBuf::capacity` returns.
pub uninterp spec fn capacity(tracker: ReadBuf<'_>) -> nat;

/// `ReadBuf::new` makes a tracking structure over the whole of `buf`. It is
/// assumed that nothing counts as filled yet and that the capacity is the
/// length of `buf`: the function stores the slice and sets its cursor to 0.
pub assume_specification<'a>[ ReadBuf::<'a>::new ](buf: &'a mut [u8]) -> (tracker: ReadBuf<'a>)
    ensures
        filled_bytes(tracker) == Seq::<u8>::empty(),
        capacity(tracker) == old(buf)@.len(),
;

/// `ReadBuf::filled` borrows the filled front. It is assumed that the slice
/// it returns holds exactly the bytes that [`filled_bytes`] names: the
/// function returns the buffer up to the cursor.
pub assume_specification<'a, 'b>[ ReadBuf::<'a>::filled ](tracker: &'b ReadBuf<'a>) -> (bytes: &'b [u8])
    ensures
        bytes@ == filled_bytes(*tracker),
;

} // verus!
