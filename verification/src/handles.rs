//! Opaque handles to managed-side entities, held as plain identifiers.

use vstd::prelude::*;

verus! {

/// A reference to a managed-side object, as handed to native code for the
/// duration of one call.
#[derive(Clone, Copy, PartialEq, Eq, Structural, Debug)]
pub struct ObjectHandle {
    pub id: u64,
}

/// A durable strong reference to a managed object: holding it keeps the
/// object alive independently of any single call's scope.
#[derive(Clone, Copy, PartialEq, Eq, Structural, Debug)]
pub struct DelegateHandle {
    /// The object the strong reference was created from.
    pub target: ObjectHandle,
}

/// An identifier of a managed method, bound to the runtime type of the object
/// it was looked up on. Cacheable: looking it up once and reusing it is the
/// whole point of the registry's slot.
#[derive(Clone, Copy, PartialEq, Eq, Structural, Debug)]
pub struct MethodId {
    pub id: u64,
}

/// A reference to a resolved managed class.
#[derive(Clone, Copy, PartialEq, Eq, Structural, Debug)]
pub struct ClassHandle {
    pub id: u64,
}

} // verus!
