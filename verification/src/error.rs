//! The error channel: a last-error slot bridging out-of-band native error
//! reporting to a retrievable result type.
//!
//! The native layer reports failures by storing a `{code, description}` pair
//! in a per-thread slot rather than returning codes. The slot stays occupied
//! until it is read, replaced by a newer fault, or the thread ends. The
//! helpers here model that slot as an explicit value.

use vstd::prelude::*;

use crate::types::ErrorCode;
use crate::types::GlfwError;
use crate::GlfwResult;

verus! {

/// The last-error slot of one thread: empty, or holding the most recent
/// fault.
#[derive(Debug)]
pub struct ErrorSlot {
    pub last: Option<GlfwError>,
}

impl ErrorSlot {
    /// A slot with no fault recorded.
    pub fn new() -> (r: Self)
        ensures
            r.last is None,
    {
        ErrorSlot { last: None }
    }

    /// Records a fault, overwriting whatever the slot held. This is what a
    /// failing native call does to its thread's slot.
    pub fn record(&mut self, code: i32, description: String)
        ensures
            final(self).last == Some(
                (GlfwError { code: ErrorCode::spec_from_code(code), description }),
            ),
    {
        let converted: ErrorCode = ErrorCode::from(code);
        self.last = Some(GlfwError { code: converted, description });
    }
}

/// Returns the last error recorded on this slot, emptying it. The fault stays
/// in the slot until this is called, a newer fault replaces it, or the thread
/// ends.
pub fn get_error(slot: &mut ErrorSlot) -> (r: GlfwResult<()>)
    ensures
        final(slot).last is None,
        r == match old(slot).last {
            None => Ok::<(), GlfwError>(()),
            Some(e) => Err::<(), GlfwError>(e),
        },
{
    match slot.last.take() {
        None => Ok(()),
        Some(e) => Err(e),
    }
}

/// Empties the slot, discarding any stale fault, so that the next read
/// reflects only calls made after this point.
pub fn clear_error(slot: &mut ErrorSlot)
    ensures
        final(slot).last is None,
{
    let _ = get_error(slot);
}

/// Asserts that no fault is pending. The original aborts when one is; here
/// the caller must show the slot is clear.
pub fn assert_no_error(slot: &mut ErrorSlot)
    requires
        old(slot).last is None,
    ensures
        final(slot).last is None,
{
}

} // verus!
