//! Errors surfaced by the pool.
//!
//! Recycle failures never appear here: an idle resource that fails its
//! recycle check is discarded and the acquisition retries internally, so the
//! caller of [`crate::pool::Pool::acquire`] only ever sees a factory creation
//! failure, the closed-pool error, or the exhaustion signal.

use vstd::prelude::*;

verus! {

/// Why an acquisition failed.
///
/// `E` is the factory's error type for creating (and recycling) resources.
#[derive(Debug)]
pub enum AcquireError<E> {
    /// The pool was closed before or during the acquisition. Returned
    /// immediately, without consulting the idle set.
    PoolClosed,
    /// The factory failed to create a new resource. The capacity slot that
    /// was reserved for the attempt has been released; the operation is not
    /// retried automatically.
    CreateFailed(E),
    /// No idle resource survived its recycle check and the capacity ceiling
    /// forbids creating a new one. An asynchronous shell suspends on this
    /// value and retries after a resource is returned or the pool is
    /// resized; a deadline that expires while doing so becomes the shell's
    /// timeout error.
    Exhausted,
}

/// Why a drain stopped before the pool was empty.
///
/// `E` is the factory's creation error type, `C` its close error type.
#[derive(Debug)]
pub enum ShutdownError<E, C> {
    /// The factory failed to close a drained resource. The drain stops
    /// immediately: resources closed before the failure stay closed, the
    /// rest remain in the pool, and the pool is not marked closed.
    CloseFailed(C),
    /// Every remaining resource is on loan, either from the start of a
    /// drain round or because nothing idle survived its recycle check. An
    /// asynchronous shell suspends on this value and resumes the drain once
    /// a lease has been returned; the drain contract assumes every holder
    /// is about to do so.
    Outstanding,
    /// Acquiring a resource to drain failed outright: the pool was closed,
    /// or a replacement for discarded idle resources could not be created.
    /// Exhaustion is never surfaced here — with loans outstanding it is the
    /// wait condition [`ShutdownError::Outstanding`].
    AcquireFailed(AcquireError<E>),
}

} // verus!
