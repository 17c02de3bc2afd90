//! The pool core: a bounded set of resource slots with exclusive leases.

use vstd::prelude::*;

use crate::errors::AcquireError;
use crate::errors::ShutdownError;
use crate::factory::Factory;

verus! {

/// A read-only snapshot of the pool's counters, recomputed on demand.
#[derive(Clone, Copy, Debug, PartialEq, Eq, Structural)]
pub struct Status {
    /// Resources currently created: idle plus on loan.
    pub size: usize,
    /// Resources idle and ready to lease.
    pub available: usize,
    /// The current capacity ceiling.
    pub max_size: usize,
}

/// An exclusive borrow of one resource, created only by a successful
/// acquisition.
///
/// A lease ends in exactly one of two ways: it is given back to the pool it
/// came from ([`Pool::give_back`]) or detached from it ([`Pool::detach`]).
/// Both consume the lease, so neither can happen twice. The core keeps no
/// back-reference: the holder hands the lease to its pool explicitly, and an
/// asynchronous shell that wants return-on-drop ties the two together.
pub struct Lease<R> {
    res: R,
}

impl<R> Lease<R> {
    /// The wrapped resource, as contracts speak of it.
    pub closed spec fn resource(self) -> R {
        self.res
    }

    /// Reads the resource.
    pub fn get(&self) -> (r: &R)
        ensures
            *r == self.resource(),
    {
        &self.res
    }

    /// Uses the resource exclusively.
    pub fn get_mut(&mut self) -> (r: &mut R)
        ensures
            *r == old(self).resource(),
            final(self).resource() == *final(r),
    {
        &mut self.res
    }
}

/// A bounded pool of resources created by a factory `F`.
///
/// The pool tracks three counters — `size` (resources created: idle plus on
/// loan), `available` (idle), and `max_size` (the capacity ceiling) — and a
/// one-way terminal flag set by [`Pool::close`]. Idle resources are reused
/// before new ones are created, most recently returned first; no fairness
/// among concurrent acquirers is promised by the shell, and none is needed
/// here, where each operation owns the pool exclusively while it runs.
pub struct Pool<F: Factory> {
    factory: F,
    idle: Vec<F::Resource>,
    leased: usize,
    cap: usize,
    shut: bool,
}

impl<F: Factory> Pool<F> {
    /// Every reachable pool can count its resources in a `usize`.
    #[verifier::type_invariant]
    spec fn wf(self) -> bool {
        self.idle@.len() + self.leased <= usize::MAX
    }

    /// The idle resources, in return order: the last is leased out next.
    pub closed spec fn idle_seq(self) -> Seq<F::Resource> {
        self.idle@
    }

    /// How many resources are idle and ready to lease.
    pub open spec fn available(self) -> int {
        self.idle_seq().len() as int
    }

    /// How many resources are on loan to lease holders.
    pub closed spec fn on_loan(self) -> int {
        self.leased as int
    }

    /// How many resources the pool has created: idle plus on loan.
    pub open spec fn size(self) -> int {
        self.available() + self.on_loan()
    }

    /// The capacity ceiling: no resource is created while `size()` is at or
    /// above it.
    pub closed spec fn max_size(self) -> int {
        self.cap as int
    }

    /// Whether the pool has been marked terminal.
    pub closed spec fn closed(self) -> bool {
        self.shut
    }

    /// Creates an open, empty pool over `factory` with the given capacity
    /// ceiling.
    pub fn new(factory: F, max_size: usize) -> (pool: Self)
        requires
            max_size >= 1,
        ensures
            pool.size() == 0,
            pool.available() == 0,
            pool.max_size() == max_size,
            !pool.closed(),
    {
        Pool { factory, idle: Vec::new(), leased: 0, cap: max_size, shut: false }
    }

    /// A snapshot of the counters. Non-blocking and side-effect free.
    pub fn status(&self) -> (s: Status)
        ensures
            s.size == self.size(),
            s.available == self.available(),
            s.max_size == self.max_size(),
    {
        proof {
            use_type_invariant(&*self);
        }
        Status { size: self.idle.len() + self.leased, available: self.idle.len(), max_size: self.cap }
    }

    /// Whether [`Pool::close`] has run.
    pub fn is_closed(&self) -> (b: bool)
        ensures
            b == self.closed(),
    {
        self.shut
    }

    /// Adjusts the capacity ceiling. Lowering it below `size()` evicts
    /// nothing: it only stops new creation until returns and detachments
    /// bring `size()` back under the ceiling.
    pub fn resize(&mut self, new_max_size: usize)
        ensures
            final(self).max_size() == new_max_size,
            final(self).idle_seq() == old(self).idle_seq(),
            final(self).on_loan() == old(self).on_loan(),
            final(self).closed() == old(self).closed(),
    {
        proof {
            use_type_invariant(&*self);
        }
        self.cap = new_max_size;
    }

    /// Takes a lease out: the preferred idle resource if one survives its
    /// recycle check, else a freshly created resource if the ceiling
    /// permits.
    ///
    /// Policy, in order:
    /// - a closed pool fails immediately with [`AcquireError::PoolClosed`],
    ///   even if idle resources exist;
    /// - idle resources are preferred over creating new ones, most recently
    ///   returned first; one that fails its recycle check is discarded (its
    ///   close is best-effort) and the acquisition retries, which never
    ///   reserves more than the single in-flight capacity slot;
    /// - a new resource is created only while `size()` is under
    ///   `max_size()`; if creation fails, the reserved slot is released and
    ///   [`AcquireError::CreateFailed`] is returned without a retry;
    /// - otherwise the pool is exhausted and an asynchronous shell would
    ///   suspend: [`AcquireError::Exhausted`] says so.
    pub fn acquire(&mut self) -> (r: Result<Lease<F::Resource>, AcquireError<F::Error>>)
        ensures
            final(self).max_size() == old(self).max_size(),
            final(self).closed() == old(self).closed(),
            final(self).available() <= old(self).available(),
            old(self).closed() ==> (r matches Err(AcquireError::PoolClosed)) && *final(self)
                == *old(self),
            !old(self).closed() ==> match r {
                Ok(lease) => {
                    &&& final(self).on_loan() == old(self).on_loan() + 1
                    &&& {
                        // either reuse: the lease wraps the idle resource
                        // from position `available()` (recycling may have
                        // refreshed it in place), the ones above it having
                        // been discarded ...
                        ||| {
                            &&& final(self).available() < old(self).available()
                            &&& final(self).idle_seq() == old(self).idle_seq().subrange(
                                0,
                                final(self).available(),
                            )
                        }
                        // ... or creation, only within the capacity ceiling,
                        // after every idle resource failed its recycle check
                        ||| {
                            &&& final(self).available() == 0
                            &&& final(self).size() <= final(self).max_size()
                        }
                    }
                },
                Err(AcquireError::PoolClosed) => false,
                Err(AcquireError::CreateFailed(_)) => {
                    &&& final(self).available() == 0
                    &&& final(self).on_loan() == old(self).on_loan()
                    &&& final(self).size() < final(self).max_size()
                },
                Err(AcquireError::Exhausted) => {
                    &&& final(self).available() == 0
                    &&& final(self).on_loan() == old(self).on_loan()
                    &&& final(self).size() >= final(self).max_size()
                },
            },
            // with nothing idle and nothing to free, exhaustion is owed
            !old(self).closed() && old(self).available() == 0 && old(self).size() >= old(self).max_size() ==> (r matches Err(AcquireError::Exhausted)),
            // a fresh resource is created only within the capacity ceiling
            final(self).size() > old(self).size() ==> final(self).size() <= final(self).max_size(),
            // a pool within its ceiling stays within it
            old(self).size() <= old(self).max_size() ==> final(self).size() <= final(self).max_size(),
    {
        proof {
            use_type_invariant(&*self);
        }
        if self.shut {
            return Err(AcquireError::PoolClosed);
        }
        let ghost idle0 = self.idle@;
        let mut idle: Vec<F::Resource> = Vec::new();
        std::mem::swap(&mut idle, &mut self.idle);
        #[verifier::loop_isolation(false)]
        loop
            invariant
                self.idle@.len() == 0,
                self.leased == old(self).leased,
                self.cap == old(self).cap,
                !self.shut,
                idle@.len() <= idle0.len(),
                idle@ == idle0.subrange(0, idle@.len() as int),
            decreases idle@.len(),
        {
            let popped = idle.pop();
            match popped {
                Some(mut res) => {
                    proof {
                        // popping a prefix of the original idle set leaves a prefix
                        assert(idle@ =~= idle0.subrange(0, idle@.len() as int));
                    }
                    let recycled = self.factory.recycle(&mut res);
                    match recycled {
                        Ok(_) => {
                            self.leased = self.leased + 1;
                            std::mem::swap(&mut idle, &mut self.idle);
                            return Ok(Lease { res });
                        },
                        Err(_) => {
                            // failed its recycle check: discard, best effort
                            let _ = self.factory.close(res);
                        },
                    }
                },
                None => {
                    if self.leased < self.cap {
                        // reserve the capacity slot for the one in-flight creation
                        self.leased = self.leased + 1;
                        let created = self.factory.create();
                        match created {
                            Ok(res) => {
                                std::mem::swap(&mut idle, &mut self.idle);
                                return Ok(Lease { res });
                            },
                            Err(e) => {
                                // release the reserved slot
                                self.leased = self.leased - 1;
                                std::mem::swap(&mut idle, &mut self.idle);
                                return Err(AcquireError::CreateFailed(e));
                            },
                        }
                    } else {
                        std::mem::swap(&mut idle, &mut self.idle);
                        return Err(AcquireError::Exhausted);
                    }
                },
            }
        }
    }

    /// Accepts a lease back from its holder. Returns are always accepted,
    /// even after [`Pool::close`]: an open pool puts the resource back into
    /// the idle set (no recycle check now — it runs lazily at the next
    /// acquisition), a closed pool discards it (its close is best-effort)
    /// rather than retain it for reuse.
    ///
    /// The lease must have come from this pool.
    pub fn give_back(&mut self, lease: Lease<F::Resource>)
        requires
            old(self).on_loan() >= 1,
        ensures
            final(self).on_loan() == old(self).on_loan() - 1,
            final(self).max_size() == old(self).max_size(),
            final(self).closed() == old(self).closed(),
            !old(self).closed() ==> final(self).idle_seq() == old(self).idle_seq().push(
                lease.resource(),
            ),
            old(self).closed() ==> final(self).idle_seq() == old(self).idle_seq(),
            old(self).size() <= old(self).max_size() ==> final(self).size() <= final(self).max_size(),
    {
        proof {
            use_type_invariant(&*self);
        }
        self.leased = self.leased - 1;
        let Lease { res } = lease;
        if self.shut {
            // discard rather than retain for reuse, best effort
            let _ = self.factory.close(res);
        } else {
            let mut idle: Vec<F::Resource> = Vec::new();
            std::mem::swap(&mut idle, &mut self.idle);
            idle.push(res);
            std::mem::swap(&mut idle, &mut self.idle);
        }
    }

    /// Removes the leased resource from all pool accounting and yields its
    /// ownership: `size()` drops by one, `available()` is untouched, and the
    /// pool behaves as if the resource never existed.
    ///
    /// The lease must have come from this pool. Detaching consumes the
    /// lease, so a detached resource can never be given back.
    pub fn detach(&mut self, lease: Lease<F::Resource>) -> (r: F::Resource)
        requires
            old(self).on_loan() >= 1,
        ensures
            r == lease.resource(),
            final(self).on_loan() == old(self).on_loan() - 1,
            final(self).idle_seq() == old(self).idle_seq(),
            final(self).max_size() == old(self).max_size(),
            final(self).closed() == old(self).closed(),
            old(self).size() <= old(self).max_size() ==> final(self).size() <= final(self).max_size(),
    {
        proof {
            use_type_invariant(&*self);
        }
        self.leased = self.leased - 1;
        let Lease { res } = lease;
        res
    }

    /// Marks the pool terminal. One-way and idempotent: afterwards every
    /// acquisition fails immediately with
    /// [`AcquireError::PoolClosed`], while leases already out remain
    /// returnable.
    pub fn close(&mut self)
        ensures
            final(self).closed(),
            final(self).idle_seq() == old(self).idle_seq(),
            final(self).on_loan() == old(self).on_loan(),
            final(self).max_size() == old(self).max_size(),
    {
        proof {
            use_type_invariant(&*self);
        }
        self.shut = true;
    }
    /// Drives every resource the pool owns through an explicit factory
    /// close, then marks the pool terminal.
    ///
    /// Each round acquires a lease, immediately shrinks the capacity
    /// ceiling by one (so the slot this resource frees is never reused to
    /// create a fresh one), detaches the resource and closes it through the
    /// factory. A close failure is fatal: the drain stops at once, resources
    /// already closed stay closed, the ones not yet reached remain idle in
    /// the pool, and the pool is not marked terminal. The contract assumes
    /// every lease holder has returned, or is about to return, its lease: if
    /// only on-loan resources remain — from the start of a round, or after
    /// the idle ones failed their recycle checks with no room to replace
    /// them — the drain reports [`ShutdownError::Outstanding`], on which an
    /// asynchronous shell suspends and resumes the drain after the next
    /// return. In such a shell a concurrent acquirer could slip a fresh
    /// resource in between rounds; the drain is best effort under the
    /// stated assumption that no new acquisitions start once it begins, not
    /// linearizable against them.
    pub fn drain(&mut self) -> (r: Result<(), ShutdownError<F::Error, F::CloseError>>)
        ensures
            r is Ok ==> final(self).size() == 0 && final(self).available() == 0 && final(self).closed(),
            r is Err ==> final(self).closed() == old(self).closed(),
            r matches Err(ShutdownError::Outstanding) ==> final(self).available() == 0 && final(self).size() > 0,
            // an already empty pool is only closed: success is owed
            old(self).size() == 0 ==> r is Ok,
            // when every resource is on loan from the start, the drain waits
            // before it touches anything
            old(self).available() == 0 && old(self).size() > 0 ==> (r matches Err(
                ShutdownError::Outstanding,
            )) && *final(self) == *old(self),
            // the caller's outstanding leases survive: the drain only ever
            // detaches what it acquired itself
            final(self).on_loan() == old(self).on_loan(),
            // resources not yet reached remain un-drained in the pool: the
            // idle set only ever loses a suffix
            final(self).available() <= old(self).available(),
            final(self).idle_seq() == old(self).idle_seq().subrange(0, final(self).available()),
            // the resource whose close failed had already left accounting
            r matches Err(ShutdownError::CloseFailed(_)) ==> final(self).size() < old(self).size(),
            // a wait condition is never disguised as a fatal acquire failure
            !(r matches Err(ShutdownError::AcquireFailed(AcquireError::Exhausted))),
            r matches Err(ShutdownError::AcquireFailed(AcquireError::PoolClosed)) ==> old(self).closed(),
            // the ceiling shrinks at most once per removed resource
            old(self).max_size() - final(self).max_size() <= old(self).size() - final(self).size(),
            final(self).size() <= old(self).size(),
            final(self).max_size() <= old(self).max_size(),
            old(self).size() <= old(self).max_size() ==> final(self).size() <= final(self).max_size(),
    {
        proof {
            use_type_invariant(&*self);
            assert(self.idle@ =~= self.idle@.subrange(0, self.idle@.len() as int));
        }
        #[verifier::loop_isolation(false)]
        loop
            invariant
                self.size() <= old(self).size(),
                self.max_size() <= old(self).max_size(),
                self.closed() == old(self).closed(),
                self.on_loan() == old(self).on_loan(),
                self.idle@ == old(self).idle@.subrange(0, self.idle@.len() as int),
                old(self).available() == 0 && old(self).size() > 0 ==> *self == *old(self),
                old(self).max_size() - self.max_size() <= old(self).size() - self.size(),
                old(self).size() <= old(self).max_size() ==> self.size() <= self.max_size(),
            decreases self.size(),
        {
            if self.idle.len() == 0 {
                if self.leased == 0 {
                    // nothing left to drain
                    break ;
                }
                // every remaining resource is on loan: wait for a return
                return Err(ShutdownError::Outstanding);
            }
            match self.acquire() {
                Ok(lease) => {
                    proof {
                        // the drained suffix grew, the remaining prefix stands
                        assert(self.idle@ =~= old(self).idle@.subrange(
                            0,
                            self.idle@.len() as int,
                        ));
                    }
                    // never reuse the capacity this resource frees
                    let ceiling = self.cap;
                    self.resize(if ceiling >= 1 {
                        ceiling - 1
                    } else {
                        0
                    });
                    let res = self.detach(lease);
                    match self.factory.close(res) {
                        Ok(_) => {
                        },
                        Err(e) => {
                            return Err(ShutdownError::CloseFailed(e));
                        },
                    }
                },
                Err(AcquireError::Exhausted) => {
                    proof {
                        assert(self.idle@ =~= old(self).idle@.subrange(
                            0,
                            self.idle@.len() as int,
                        ));
                    }
                    if self.leased > 0 {
                        // nothing idle survived its recycle check and every
                        // remaining resource is on loan: wait for a return
                        return Err(ShutdownError::Outstanding);
                    }
                    // nothing idle survived and nothing is on loan: the next
                    // round finds the pool empty and finishes
                },
                Err(e) => {
                    return Err(ShutdownError::AcquireFailed(e));
                },
            }
        }
        self.close();
        Ok(())
    }
}

/// At every observable snapshot the idle count is within the created count:
/// `0 <= available <= size`. The companion bound `size <= max_size` is
/// carried by the postconditions of every operation except a shrinking
/// [`Pool::resize`], which is specified to leave `size()` above the new
/// ceiling until natural returns and detachments bring it down.
pub proof fn lemma_status_bounds<F: Factory>(pool: Pool<F>)
    ensures
        0 <= pool.available() <= pool.size(),
{
}

} // verus!
