//! A verified safety core for a native windowing library binding.
//!
//! The native layer reports errors out-of-band, has strict thread-affinity
//! rules, and invalidates handles asynchronously. The modules here model the
//! state that makes those rules checkable: a single-instance lifecycle guard,
//! a per-thread context-currency tracker, a monitor liveness registry, an
//! event aggregation queue, and the error-channel helpers. Native calls
//! themselves happen outside this crate; every function here is a verified
//! transition over plain values, taking the native outcome as an argument
//! where one is needed.

pub mod context;
pub mod cursor;
pub mod error;
pub mod event;
pub mod event_loop;
pub mod monitor;
pub mod types;
pub mod version;
pub mod window;

use vstd::prelude::*;

verus! {

/// The result type used throughout: either a value or a structured
/// native-style error.
pub type GlfwResult<T> = Result<T, types::GlfwError>;

} // verus!
