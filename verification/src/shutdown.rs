//! Orderly shutdown: drain every resource, close it, mark the pool terminal.

use vstd::prelude::*;

use crate::errors::AcquireError;
use crate::errors::ShutdownError;
use crate::factory::Factory;
use crate::pool::Pool;

verus! {

/// Cleanly closing every active resource of a pool.
pub trait PoolShutdown {
    /// Error that the pool can return while closing its resources.
    type Error;

    /// Cleanly closes every resource this pool owns, then marks the pool
    /// terminal. New resources should not be created while this runs.
    fn shutdown(&mut self) -> Result<(), Self::Error>;
}

impl<F: Factory> PoolShutdown for Pool<F> {
    type Error = ShutdownError<F::Error, F::CloseError>;

    /// [`Pool::drain`] under the original name: drains and closes every
    /// resource, then marks the pool terminal, with the same contract.
    fn shutdown(&mut self) -> (r: Result<(), ShutdownError<F::Error, F::CloseError>>)
        ensures
            r is Ok ==> final(self).size() == 0 && final(self).available() == 0 && final(self).closed(),
            r is Err ==> final(self).closed() == old(self).closed(),
            r matches Err(ShutdownError::Outstanding) ==> final(self).available() == 0 && final(self).size() > 0,
            old(self).size() == 0 ==> r is Ok,
            old(self).available() == 0 && old(self).size() > 0 ==> (r matches Err(
                ShutdownError::Outstanding,
            )) && *final(self) == *old(self),
            final(self).on_loan() == old(self).on_loan(),
            final(self).available() <= old(self).available(),
            final(self).idle_seq() == old(self).idle_seq().subrange(0, final(self).available()),
            r matches Err(ShutdownError::CloseFailed(_)) ==> final(self).size() < old(self).size(),
            !(r matches Err(ShutdownError::AcquireFailed(AcquireError::Exhausted))),
            r matches Err(ShutdownError::AcquireFailed(AcquireError::PoolClosed)) ==> old(self).closed(),
            old(self).max_size() - final(self).max_size() <= old(self).size() - final(self).size(),
            final(self).size() <= old(self).size(),
            final(self).max_size() <= old(self).max_size(),
            old(self).size() <= old(self).max_size() ==> final(self).size() <= final(self).max_size(),
    {
        self.drain()
    }
}

} // verus!
