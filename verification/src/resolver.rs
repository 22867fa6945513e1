//! Class-name resolution: dispatch between the registered delegate and the
//! environment's built-in lookup.
//!
//! The delegate path is preferred whenever a delegate is active, and its
//! failure is terminal for that resolution: there is no retry against the
//! built-in primitive, since that could mask bugs in the embedding's loader.

use vstd::prelude::*;

use crate::env::{spec_find_class_result, spec_invoke_result, NativeEnv};
use crate::error::ResolveError;
use crate::handles::ClassHandle;
use crate::registry::{ActiveDelegate, Registry};

verus! {

/// How one resolution behaves, given the registry snapshot it observed: with
/// an active delegate, the outcome of invoking that delegate's cached
/// resolution method with the name — never the built-in lookup, even on
/// failure; with no delegate, the outcome of the built-in lookup.
pub open spec fn spec_resolve(
    snapshot: Option<ActiveDelegate>,
    env: NativeEnv,
    name: Seq<char>,
) -> Result<ClassHandle, ResolveError> {
    match snapshot {
        Some(active) => spec_invoke_result(env, active.method, name),
        None => spec_find_class_result(env, name),
    }
}

/// Resolve `name` against an already-copied registry snapshot.
///
/// The snapshot is owned by the caller, so the (possibly slow, reentrant)
/// managed call runs without any hold on the registry: a caller that guards
/// its registry needs the guard only long enough to copy the snapshot out,
/// and concurrent resolutions never serialize on one another.
pub fn resolve_with_snapshot(
    snapshot: Option<ActiveDelegate>,
    env: &NativeEnv,
    name: &str,
) -> (r: Result<ClassHandle, ResolveError>)
    ensures
        r == spec_resolve(snapshot, *env, name@),
{
    match snapshot {
        Some(active) => {
            let marshalled = env.new_string(name);
            env.call_load_class(&active.delegate, active.method, &marshalled)
        },
        None => env.find_class(name),
    }
}

/// Look up a class by name: through the registered delegate's cached
/// resolution method when one is active, else through the environment's
/// built-in find-class-by-name primitive.
pub fn load_class(registry: &Registry, env: &NativeEnv, name: &str) -> (r: Result<
    ClassHandle,
    ResolveError,
>)
    ensures
        r == spec_resolve(registry@, *env, name@),
{
    let snapshot = registry.current();
    resolve_with_snapshot(snapshot, env, name)
}

} // verus!
