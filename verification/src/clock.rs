//! Trusted declarations for the monotonic clock and the shared-handle lock.
//!
//! The timer derives every countdown from a monotonic clock, so user changes
//! to the system clock cannot perturb it. Nothing can be promised about what
//! a clock reading is, so the wrappers here carry no postconditions: the
//! verified transitions in [`crate::timer`] take the reading as an argument
//! and are proved for every value of it.

use vstd::prelude::*;
use std::time::Instant;

verus! {

#[verifier::external_type_specification]
#[verifier::external_body]
pub struct ExInstant(Instant);

/// Relies on std::time::Instant::now: a reading of the monotonic clock.
/// When the reading is taken depends on the machine, so nothing is promised.
#[verifier::external_body]
pub(crate) fn monotonic_now() -> Instant {
    Instant::now()
}

/// Relies on std::time::Instant::elapsed: the monotonic time since `origin`,
/// converted to whole seconds with Duration::as_secs. The value depends on
/// when the call is made, so nothing is promised of it.
#[verifier::external_body]
pub(crate) fn seconds_since(origin: &Instant) -> u64 {
    origin.elapsed().as_secs()
}

#[verifier::external_type_specification]
#[verifier::external_body]
#[verifier::reject_recursive_types(T)]
pub struct ExMutex<T: ?Sized>(std::sync::Mutex<T>);

/// Relies on std::sync::Mutex::new: wraps a value in a fresh lock. The lock
/// is opaque here; acquiring it is the adapter's concern, outside this crate.
pub assume_specification<T>[ std::sync::Mutex::<T>::new ](t: T) -> std::sync::Mutex<T>;

} // verus!
