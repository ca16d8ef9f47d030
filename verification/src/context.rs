//! Rendering-context lifetime guards.
//!
//! A context is a platform resource that must be active on a thread before
//! graphics calls can be made there. Construction activates the new context
//! at once and is recoverable: when the engine is out of resources its
//! factory returns nothing, and [`Context::new`] reports that as an
//! [`AllocationError`] instead of producing a guard. Disposal deactivates
//! the context (if it is still the active one) and runs the foreign
//! destructor exactly once.
//!
//! Activation is thread-local: a [`ContextHost`] is the engine's state for
//! one thread, a context activated on one host is not active on another,
//! and a fresh host — a fresh thread — starts with no active context. Like
//! the allocator image in `handle`, the host counts the constructor and
//! destructor calls made through it, and carries an exhaustion switch that
//! stands for the platform running out of context resources.

use vstd::prelude::*;
use crate::handle::AllocationError;

verus! {

/// The engine's per-thread context state: which context is active on the
/// thread, how many contexts it has constructed and destroyed, and whether
/// the platform has resources left for another.
pub struct ContextHost {
    /// The id of the active context, or 0 when none is active.
    active: u64,
    /// The id the next context will get; ids start at 1, 0 meaning "none".
    next_id: u64,
    /// How many context destructors have run on this thread.
    destroyed: u64,
    /// True when the platform cannot provide another context: the factory
    /// will return nothing until resources are freed.
    exhausted: bool,
}

impl ContextHost {
    /// The id of the context active on this thread, 0 when none is.
    pub closed spec fn active_id(self) -> int {
        self.active as int
    }

    /// How many contexts this thread has constructed.
    pub closed spec fn ids_granted(self) -> int {
        self.next_id - 1
    }

    /// How many context destructors have run on this thread.
    pub closed spec fn destructor_calls(self) -> int {
        self.destroyed as int
    }

    /// True when the platform has no resources for another context.
    pub closed spec fn exhausted(self) -> bool {
        self.exhausted
    }

    /// True when `id` is an id this host has granted.
    pub open spec fn granted(self, id: int) -> bool {
        1 <= id <= self.ids_granted()
    }

    /// Whatever is active was granted, and there is room to count.
    #[verifier::type_invariant]
    spec fn wf(self) -> bool {
        1 <= self.next_id && self.active < self.next_id
    }

    /// The state of a fresh thread: no active context, none granted, none
    /// destroyed, resources available.
    pub fn new() -> (r: ContextHost)
        ensures
            r.active_id() == 0,
            r.ids_granted() == 0,
            r.destructor_calls() == 0,
            !r.exhausted(),
    {
        ContextHost { active: 0, next_id: 1, destroyed: 0, exhausted: false }
    }

    /// Flips the exhaustion switch: the stub's way of acting out a platform
    /// that has run out of context resources (or has them again).
    pub fn set_exhausted(&mut self, exhausted: bool)
        ensures
            final(self).exhausted() == exhausted,
            final(self).active_id() == old(self).active_id(),
            final(self).ids_granted() == old(self).ids_granted(),
            final(self).destructor_calls() == old(self).destructor_calls(),
    {
        proof {
            use_type_invariant(&*self);
        }
        self.exhausted = exhausted;
    }

    /// The id of the currently active context, 0 when none is active.
    pub fn active_context_id(&self) -> (r: u64)
        ensures
            r == self.active_id(),
    {
        self.active
    }

    /// How many contexts this thread has constructed.
    pub fn count_constructor_calls(&self) -> (n: u64)
        ensures
            n == self.ids_granted(),
    {
        proof {
            use_type_invariant(&*self);
        }
        self.next_id - 1
    }

    /// How many context destructors have run on this thread.
    pub fn count_destructor_calls(&self) -> (n: u64)
        ensures
            n == self.destructor_calls(),
    {
        self.destroyed
    }
}

/// A guard holding a valid drawing context.
///
/// Construct it and let it live as long as a valid context is needed; no
/// explicit activation is required. Disposing of it deactivates the context
/// (if it is still the active one) and releases the foreign resource.
#[derive(Debug)]
pub struct Context {
    id: u64,
}

impl Context {
    /// The id the engine knows this context by.
    pub closed spec fn id(self) -> int {
        self.id as int
    }

    /// Context ids are never 0, which means "none".
    #[verifier::type_invariant]
    spec fn id_nonzero(self) -> bool {
        self.id >= 1
    }

    /// Creates a new context and immediately activates it on the host
    /// thread, deactivating whatever was active there.
    ///
    /// Succeeds exactly when the platform has resources for another
    /// context; otherwise nothing is constructed, nothing is activated, and
    /// no destructor will ever run for the failed attempt.
    pub fn new(host: &mut ContextHost) -> (r: Result<Context, AllocationError>)
        requires
            old(host).ids_granted() < u64::MAX - 1,
        ensures
            r is Ok <==> !old(host).exhausted(),
            r is Err ==> *final(host) == *old(host),
            r is Ok ==> {
                &&& r->Ok_0.id() == old(host).ids_granted() + 1
                &&& final(host).ids_granted() == old(host).ids_granted() + 1
                &&& final(host).active_id() == r->Ok_0.id()
                &&& final(host).granted(r->Ok_0.id())
                &&& final(host).destructor_calls() == old(host).destructor_calls()
                &&& final(host).exhausted() == old(host).exhausted()
                &&& forall|i: int| old(host).granted(i) ==> final(host).granted(i)
            },
    {
        proof {
            use_type_invariant(&*host);
        }
        if host.exhausted {
            return Err(AllocationError);
        }
        let id = host.next_id;
        host.next_id = host.next_id + 1;
        host.active = id;
        Ok(Context { id })
    }

    /// Explicitly activates or deactivates the context on the host thread.
    ///
    /// Activating makes this context the thread's active one, whatever was
    /// active before; deactivating clears the thread's active context only
    /// if this context was it, and is a no-op otherwise. The host model is
    /// deterministic, so unlike construction this cannot fail.
    pub fn set_active(&self, host: &mut ContextHost, active: bool)
        requires
            old(host).granted(self.id()),
        ensures
            active ==> final(host).active_id() == self.id(),
            !active && old(host).active_id() == self.id() ==> final(host).active_id() == 0,
            !active && old(host).active_id() != self.id() ==> final(host).active_id() == old(
                host,
            ).active_id(),
            final(host).ids_granted() == old(host).ids_granted(),
            final(host).destructor_calls() == old(host).destructor_calls(),
            final(host).exhausted() == old(host).exhausted(),
    {
        proof {
            use_type_invariant(&*host);
            use_type_invariant(&*self);
        }
        if active {
            host.active = self.id;
        } else {
            if host.active == self.id {
                host.active = 0;
            }
        }
    }

    /// Releases the context: deactivates it first if it is still the
    /// thread's active one, then runs the foreign destructor — counted by
    /// the host, and exactly once, since the guard is consumed here.
    pub fn dispose(self, host: &mut ContextHost)
        requires
            old(host).granted(self.id()),
            old(host).destructor_calls() < u64::MAX,
        ensures
            old(host).active_id() == self.id() ==> final(host).active_id() == 0,
            old(host).active_id() != self.id() ==> final(host).active_id() == old(
                host,
            ).active_id(),
            final(host).ids_granted() == old(host).ids_granted(),
            final(host).destructor_calls() == old(host).destructor_calls() + 1,
            final(host).exhausted() == old(host).exhausted(),
    {
        self.set_active(host, false);
        proof {
            use_type_invariant(&*host);
        }
        host.destroyed = host.destroyed + 1;
    }
}

} // verus!
