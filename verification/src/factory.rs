//! The resource factory: the pool's external collaborator.

use vstd::prelude::*;

verus! {

/// Creates, validates and closes the resources a pool manages.
///
/// The pool promises nothing about what an implementation returns: every
/// pool contract holds whatever a factory call came back with. A newly
/// created resource is treated as implicitly valid; an idle one is offered
/// to [`Factory::recycle`] before reuse, and discarded if that fails.
///
/// An implementation backed by a remote service typically drives an
/// asynchronous client to completion inside each method; the pool itself
/// never blocks on anything else.
pub trait Factory {
    /// The opaque, expensive-to-create resource the pool manages.
    type Resource;
    /// The error for failed creation, also carried by a failed recycle.
    type Error;
    /// The error for a failed close.
    type CloseError;

    /// Creates a new resource. May fail.
    fn create(&self) -> Result<Self::Resource, Self::Error>;

    /// Validates or refreshes an idle resource before it is reused; may
    /// mutate it for health-check purposes. An error discards the resource.
    fn recycle(&self, resource: &mut Self::Resource) -> Result<(), Self::Error>;

    /// Closes a resource, consuming it. May fail.
    fn close(&self, resource: Self::Resource) -> Result<(), Self::CloseError>;
}

} // verus!
