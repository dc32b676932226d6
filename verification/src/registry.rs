//! The process registry: at most one running-process handle per role, shared
//! by the two launch paths and the shutdown path. Registration hands any
//! displaced handle back to the caller so it is terminated before it is lost;
//! shutdown drains both slots at once and is harmless on an empty registry.
//! The registry is generic in the handle type: the caller owns the actual
//! process objects and performs every termination itself.

use vstd::prelude::*;

verus! {

/// The two slots of a registry: the backend handle and the frontend handle,
/// each possibly empty.
pub struct ProcessRegistry<H> {
    backend: Option<H>,
    frontend: Option<H>,
}

/// A registry's contents after a backend registration: the backend slot holds
/// the new handle, the frontend slot is untouched.
pub open spec fn after_register_backend<H>(slots: (Option<H>, Option<H>), handle: H) -> (
    Option<H>,
    Option<H>,
) {
    (Some(handle), slots.1)
}

/// A registry's contents after a frontend registration: the frontend slot
/// holds the new handle, the backend slot is untouched.
pub open spec fn after_register_frontend<H>(slots: (Option<H>, Option<H>), handle: H) -> (
    Option<H>,
    Option<H>,
) {
    (slots.0, Some(handle))
}

/// What a shutdown does to a registry: both slots are emptied, and exactly
/// their previous contents are handed out for termination.
pub open spec fn after_shutdown<H>(slots: (Option<H>, Option<H>)) -> (
    (Option<H>, Option<H>),
    (Option<H>, Option<H>),
) {
    (((None, None)), slots)
}

impl<H> ProcessRegistry<H> {
    /// Both slots, as a pair.
    pub closed spec fn slots(&self) -> (Option<H>, Option<H>) {
        (self.backend, self.frontend)
    }

    /// An empty registry: no handle registered for either role.
    pub fn new() -> (r: ProcessRegistry<H>)
        ensures
            r.slots() == (None::<H>, None::<H>),
    {
        ProcessRegistry { backend: None, frontend: None }
    }

    /// Register the backend handle. Any handle the slot already held is
    /// returned so the caller can terminate it: a live handle is never
    /// silently overwritten. The frontend slot is untouched, so a concurrent
    /// frontend registration is never lost to this one.
    pub fn register_backend(&mut self, handle: H) -> (displaced: Option<H>)
        ensures
            final(self).slots() == after_register_backend(old(self).slots(), handle),
            displaced == old(self).slots().0,
    {
        let displaced = self.backend.take();
        self.backend = Some(handle);
        displaced
    }

    /// Register the frontend handle; the exact mirror of `register_backend`.
    pub fn register_frontend(&mut self, handle: H) -> (displaced: Option<H>)
        ensures
            final(self).slots() == after_register_frontend(old(self).slots(), handle),
            displaced == old(self).slots().1,
    {
        let displaced = self.frontend.take();
        self.frontend = Some(handle);
        displaced
    }

    /// Whether a backend handle is registered.
    pub fn has_backend(&self) -> (r: bool)
        ensures
            r == (self.slots().0 is Some),
    {
        self.backend.is_some()
    }

    /// Whether a frontend handle is registered.
    pub fn has_frontend(&self) -> (r: bool)
        ensures
            r == (self.slots().1 is Some),
    {
        self.frontend.is_some()
    }

    /// Drain the registry for shutdown: both slots are emptied and whatever
    /// they held is returned for the caller to terminate, backend first. An
    /// empty slot yields `None` and is no error, so draining an empty
    /// registry — or draining twice — terminates nothing.
    pub fn shutdown_all(&mut self) -> (drained: (Option<H>, Option<H>))
        ensures
            (final(self).slots(), drained) == after_shutdown(old(self).slots()),
            final(self).slots() == (None::<H>, None::<H>),
    {
        (self.backend.take(), self.frontend.take())
    }
}

/// Registering the two roles in either order ends with both handles present:
/// interleaved registrations lose neither, because each registration touches
/// only its own slot.
pub proof fn lemma_no_registration_lost<H>(
    slots: (Option<H>, Option<H>),
    backend_handle: H,
    frontend_handle: H,
)
    ensures
        after_register_frontend(after_register_backend(slots, backend_handle), frontend_handle)
            == (Some(backend_handle), Some(frontend_handle)),
        after_register_backend(after_register_frontend(slots, frontend_handle), backend_handle)
            == (Some(backend_handle), Some(frontend_handle)),
{
}

/// Shutdown is idempotent and total: an empty registry drains nothing, and a
/// second shutdown right after a first one drains nothing either, so no
/// handle is ever handed out for termination twice.
pub proof fn lemma_shutdown_idempotent<H>(slots: (Option<H>, Option<H>))
    ensures
        after_shutdown((None::<H>, None::<H>)).1 == (None::<H>, None::<H>),
        after_shutdown(after_shutdown(slots).0).1 == (None::<H>, None::<H>),
{
}

} // verus!
