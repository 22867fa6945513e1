//! The delegate registry: one nullable slot holding the active class-loading
//! delegate together with its resolution method, cached at registration.
//!
//! The registry is an owned value rather than hidden process-wide state, so
//! embeddings (and tests) can hold independent registries; wiring one instance
//! up process-wide is the surrounding layer's business. Registration and
//! unregistration are the only mutators; resolution only copies the slot out.

use vstd::prelude::*;

use crate::env::NativeEnv;
use crate::error::ResolveError;
use crate::handles::{DelegateHandle, MethodId, ObjectHandle};

verus! {

/// The contents of an occupied slot: the durable reference to the delegate,
/// and the identifier of its `loadClass` method, derived once at registration
/// and reused by every lookup while this delegate stays active.
#[derive(Clone, Copy, PartialEq, Eq, Structural, Debug)]
pub struct ActiveDelegate {
    /// The strong reference keeping the delegate alive.
    pub delegate: DelegateHandle,
    /// The cached resolution method identifier.
    pub method: MethodId,
}

/// What a registration attempt does: the slot afterwards, and the result the
/// caller sees. A candidate without the required method is refused with
/// `MethodNotFound`; a failed strong-reference conversion aborts with
/// `ReferenceConversionFailed`; either failure keeps the prior slot. On
/// success the new delegate replaces whatever was active.
pub open spec fn spec_register(
    slot: Option<ActiveDelegate>,
    env: NativeEnv,
    candidate: ObjectHandle,
) -> (Option<ActiveDelegate>, Result<(), ResolveError>) {
    match env.spec_method_of(candidate) {
        None => (slot, Err(ResolveError::MethodNotFound)),
        Some(method) => if env.spec_convertible(candidate) {
            (
                Some(
                    ActiveDelegate {
                        delegate: DelegateHandle { target: candidate },
                        method,
                    },
                ),
                Ok(()),
            )
        } else {
            (slot, Err(ResolveError::ReferenceConversionFailed))
        },
    }
}

/// What unregistration does: it always clears the slot.
pub open spec fn spec_unregister(slot: Option<ActiveDelegate>) -> Option<ActiveDelegate> {
    None
}

/// Holds at most one active class-loading delegate. Starts empty.
pub struct Registry {
    slot: Option<ActiveDelegate>,
}

impl View for Registry {
    type V = Option<ActiveDelegate>;

    closed spec fn view(&self) -> Option<ActiveDelegate> {
        self.slot
    }
}

impl Registry {
    /// A fresh registry with no delegate installed.
    pub fn new() -> (r: Registry)
        ensures
            r@ is None,
    {
        Registry { slot: None }
    }

    /// Register `candidate` as the class-loading delegate: validate that it
    /// exposes a one-argument, class-returning `loadClass` method, cache that
    /// method's identifier, convert the candidate into a durable strong
    /// reference, and install both, replacing any prior delegate. On any
    /// failure the prior delegate, if any, stays active unchanged.
    pub fn register_class_loader(&mut self, env: &NativeEnv, candidate: ObjectHandle) -> (r:
        Result<(), ResolveError>)
        ensures
            final(self)@ == spec_register(old(self)@, *env, candidate).0,
            r == spec_register(old(self)@, *env, candidate).1,
            r is Err ==> final(self)@ == old(self)@,
            r is Ok ==> (final(self)@ matches Some(active) && active.delegate.target == candidate
                && Some(active.method) == env.spec_method_of(candidate)),
    {
        let method = match env.get_load_class_method(candidate) {
            Some(method) => method,
            None => {
                return Err(ResolveError::MethodNotFound);
            },
        };
        let delegate = match env.new_global_ref(candidate) {
            Ok(delegate) => delegate,
            Err(failure) => {
                return Err(failure);
            },
        };
        self.slot = Some(ActiveDelegate { delegate, method });
        Ok(())
    }

    /// Clear the slot, releasing the held strong reference. A no-op when no
    /// delegate is active; never fails.
    pub fn unregister_class_loader(&mut self)
        ensures
            final(self)@ == spec_unregister(old(self)@),
            final(self)@ is None,
    {
        self.slot = None;
    }

    /// A snapshot of the active delegate and its cached method identifier,
    /// independently owned by the caller: a concurrent unregistration cannot
    /// invalidate a snapshot already copied out.
    pub fn current(&self) -> (r: Option<ActiveDelegate>)
        ensures
            r == self@,
    {
        self.slot
    }
}

} // verus!
