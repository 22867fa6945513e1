//! The guarantees the registry and resolver give together, stated once over
//! the specification-level transitions and proved for every input.

use vstd::prelude::*;

use crate::env::{spec_invoke_result, NativeEnv};
use crate::error::ResolveError;
use crate::handles::{ClassHandle, ObjectHandle};
use crate::registry::{spec_register, spec_unregister, ActiveDelegate};
use crate::resolver::spec_resolve;

verus! {

/// Unregistration is idempotent and never fails: from any state it yields the
/// empty state, so unregistering with no delegate active is a no-op that
/// leaves the registry empty.
pub proof fn lemma_unregister_idempotent(slot: Option<ActiveDelegate>)
    ensures
        spec_unregister(slot) is None,
        spec_unregister(spec_unregister(slot)) == spec_unregister(slot),
{
}

/// Registering a valid candidate replaces whatever was active before: the
/// slot afterwards holds the new delegate with its own cached method, and
/// every subsequent resolution goes through that method — the prior
/// delegate's method is never consulted again.
pub proof fn lemma_replacement(
    prior: Option<ActiveDelegate>,
    env: NativeEnv,
    candidate: ObjectHandle,
    name: Seq<char>,
)
    requires
        spec_register(prior, env, candidate).1 is Ok,
    ensures
        (spec_register(prior, env, candidate).0 matches Some(active)
            && active.delegate.target == candidate
            && Some(active.method) == env.spec_method_of(candidate)
            && spec_resolve(spec_register(prior, env, candidate).0, env, name)
                == spec_invoke_result(env, active.method, name)),
{
}

/// The validation gate: a candidate without a one-argument, class-returning
/// `loadClass` method is refused with `MethodNotFound`, and the prior state —
/// empty or active — is left unchanged.
pub proof fn lemma_validation_gate(
    prior: Option<ActiveDelegate>,
    env: NativeEnv,
    candidate: ObjectHandle,
)
    requires
        env.spec_method_of(candidate) is None,
    ensures
        spec_register(prior, env, candidate).0 == prior,
        spec_register(prior, env, candidate).1 == Err::<(), ResolveError>(
            ResolveError::MethodNotFound,
        ),
{
}

/// A failed strong-reference conversion likewise keeps the prior state: the
/// candidate was validated but could not be held durably, and nothing was
/// replaced.
pub proof fn lemma_conversion_failure_keeps_prior(
    prior: Option<ActiveDelegate>,
    env: NativeEnv,
    candidate: ObjectHandle,
)
    requires
        env.spec_method_of(candidate) is Some,
        !env.spec_convertible(candidate),
    ensures
        spec_register(prior, env, candidate).0 == prior,
        spec_register(prior, env, candidate).1 == Err::<(), ResolveError>(
            ResolveError::ReferenceConversionFailed,
        ),
{
}

/// Resolution through an active delegate reads nothing but the invocation
/// behaviour of its cached method: two environments whose invocation tables
/// agree resolve identically, however much their method tables differ. The
/// method identifier is thus derived exactly once, at registration, and never
/// re-derived per lookup.
pub proof fn lemma_lookup_uses_cached_method_only(
    active: ActiveDelegate,
    env_at_lookup: NativeEnv,
    env_other: NativeEnv,
    name: Seq<char>,
)
    requires
        env_at_lookup.delegate_calls@ == env_other.delegate_calls@,
    ensures
        spec_resolve(Some(active), env_at_lookup, name) == spec_resolve(
            Some(active),
            env_other,
            name,
        ),
{
}

/// With no delegate active, resolution is exactly the built-in lookup: a name
/// the environment knows yields its class handle, an unknown one surfaces
/// `ClassNotFound`.
pub proof fn lemma_fallback(env: NativeEnv, name: Seq<char>)
    ensures
        (env.spec_builtin(name) matches Some(class) ==> spec_resolve(None, env, name)
            == Ok::<ClassHandle, ResolveError>(class)),
        env.spec_builtin(name) is None ==> spec_resolve(None, env, name) == Err::<
            ClassHandle,
            ResolveError,
        >(ResolveError::ClassNotFound),
{
}

/// A failing delegate lookup is terminal: even when the built-in lookup knows
/// the name, an active delegate's failure is what the caller sees — the
/// built-in primitive is never retried behind its back.
pub proof fn lemma_no_fallback_after_delegate_failure(
    active: ActiveDelegate,
    env: NativeEnv,
    name: Seq<char>,
)
    requires
        spec_invoke_result(env, active.method, name) is Err,
    ensures
        spec_resolve(Some(active), env, name) == spec_invoke_result(env, active.method, name),
        spec_resolve(Some(active), env, name) is Err,
{
}

} // verus!
