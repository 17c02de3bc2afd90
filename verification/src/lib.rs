//! A managed pool of expensive, stateful session handles.
//!
//! The pool amortizes the cost of session creation, bounds the number of
//! concurrently created resources, hands out at most one exclusive lease per
//! resource at a time, and supports an orderly drain that closes every
//! resource through its factory before the pool is marked terminal.
//!
//! The pool core here is synchronous and single-owner: every operation
//! returns immediately. Where an asynchronous shell would suspend (waiting
//! for an idle resource or for capacity), the core returns a distinct value
//! ([`errors::AcquireError::Exhausted`], [`errors::ShutdownError::Outstanding`])
//! and the shell retries once the world has changed. All bookkeeping — the
//! created count, the idle set, the capacity ceiling, and the terminal flag —
//! lives in [`pool::Pool`] and is verified.

pub mod errors;
pub mod factory;
pub mod pool;
pub mod shutdown;

pub use errors::AcquireError;
pub use errors::ShutdownError;
pub use factory::Factory;
pub use pool::Lease;
pub use pool::Pool;
pub use pool::Status;
pub use shutdown::PoolShutdown;
