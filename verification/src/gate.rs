//! The admission gate: a `tokio` semaphore with one permit per pooled client.

use tokio::sync::AcquireError;
use tokio::sync::OwnedSemaphorePermit;
use tokio::sync::Semaphore;
use vstd::prelude::*;

verus! {

/// `tokio::sync::Semaphore`. The pool creates it and hands it to whoever
/// waits for admission; it never reads its state.
#[verifier::external_type_specification]
#[verifier::external_body]
pub struct ExSemaphore(Semaphore);

/// `tokio::sync::OwnedSemaphorePermit`, one unit of the semaphore's capacity.
/// Dropping it gives the unit back to the semaphore it came from, so the pool
/// never drops one: it keeps a permit in a lease or hands it to its caller.
#[verifier::external_type_specification]
#[verifier::external_body]
pub struct ExOwnedSemaphorePermit(OwnedSemaphorePermit);

/// `tokio::sync::AcquireError`, which awaiting a permit yields once the
/// semaphore has been closed.
#[verifier::external_type_specification]
#[verifier::external_body]
pub struct ExAcquireError(AcquireError);

/// The most permits a semaphore can be created with: the value of
/// `Semaphore::MAX_PERMITS`, an eighth of the `usize` range.
pub const MAX_PERMITS: usize = usize::MAX / 8;

/// The number of permits that a semaphore was created with.
pub uninterp spec fn initial_permits(gate: Semaphore) -> nat;

/// Calls `tokio::sync::Semaphore::new`, which panics when asked for more than
/// `Semaphore::MAX_PERMITS` permits; `requires` leaves those out. The
/// semaphore that comes back has `permits` permits to give.
#[verifier::external_body]
pub(crate) fn new_gate(permits: usize) -> (gate: Semaphore)
    requires
        permits <= MAX_PERMITS,
    ensures
        initial_permits(gate) == permits,
{
    Semaphore::new(permits)
}

} // verus!
