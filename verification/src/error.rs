//! The ways a registration or a resolution can fail.

use vstd::prelude::*;

verus! {

/// Why a registration or a class resolution failed. Every failure is surfaced
/// to the immediate caller; none is swallowed or retried.
#[derive(Clone, Copy, PartialEq, Eq, Structural, Debug)]
pub enum ResolveError {
    /// The candidate delegate lacks a one-argument, class-returning
    /// `loadClass` method, so registration was refused.
    MethodNotFound,
    /// The environment could not turn the candidate into a durable strong
    /// reference, so registration was aborted.
    ReferenceConversionFailed,
    /// The delegate's resolution call raised a managed-side error, or
    /// returned no object where a class handle was required. Terminal for
    /// that resolution: there is no fallback to the built-in lookup.
    InvocationFailed,
    /// The built-in lookup knows no class of the given name. Only reachable
    /// on the no-delegate path.
    ClassNotFound,
}

} // verus!
