//! A model of the ambient native environment.
//!
//! The resolution core consumes exactly five primitives from the environment:
//! a method lookup used once at registration, a strong-reference conversion,
//! a string-construction primitive, a generic method invocation, and a
//! built-in find-class-by-name lookup. [`NativeEnv`] holds the observable
//! behaviour of those primitives as plain data, so that everything built on
//! top of them can be specified and verified exactly.

use vstd::prelude::*;

use crate::error::ResolveError;
use crate::handles::{ClassHandle, DelegateHandle, MethodId, ObjectHandle};

verus! {

/// What one invocation of a delegate's resolution method does for one class
/// name.
#[derive(Clone, Copy, PartialEq, Eq, Structural, Debug)]
pub enum CallOutcome {
    /// The call completes and returns this class handle.
    Returns(ClassHandle),
    /// The call completes but yields no object where a class handle was
    /// required.
    ReturnsNull,
    /// The call raises a managed-side error, left pending for the caller.
    Raises,
}

/// A managed string, as produced by the environment's string-construction
/// primitive from a native class name.
pub struct ManagedString {
    /// The marshalled characters.
    pub text: String,
}

impl View for ManagedString {
    type V = Seq<char>;

    open spec fn view(&self) -> Seq<char> {
        self.text@
    }
}

/// The environment's observable behaviour, one table per primitive.
pub struct NativeEnv {
    /// Objects exposing a one-argument, class-returning `loadClass` method,
    /// each paired with that method's identifier. The earliest entry for an
    /// object wins.
    pub load_class_methods: Vec<(ObjectHandle, MethodId)>,
    /// Objects for which the strong-reference conversion fails.
    pub unconvertible: Vec<ObjectHandle>,
    /// What invoking a resolution method with a given class name does. The
    /// earliest entry for a method and name wins; a pair with no entry raises.
    pub delegate_calls: Vec<(MethodId, String, CallOutcome)>,
    /// The classes the built-in lookup can find, by name. The earliest entry
    /// for a name wins.
    pub builtin_classes: Vec<(String, ClassHandle)>,
}

/// The identifier of `obj`'s resolution method in `entries`: the first match.
pub open spec fn method_lookup(
    entries: Seq<(ObjectHandle, MethodId)>,
    obj: ObjectHandle,
) -> Option<MethodId>
    decreases entries.len(),
{
    if entries.len() == 0 {
        None
    } else if entries[0].0 == obj {
        Some(entries[0].1)
    } else {
        method_lookup(entries.drop_first(), obj)
    }
}

/// The outcome recorded in `entries` for invoking `method` with `name`: the
/// first match.
pub open spec fn call_lookup(
    entries: Seq<(MethodId, String, CallOutcome)>,
    method: MethodId,
    name: Seq<char>,
) -> Option<CallOutcome>
    decreases entries.len(),
{
    if entries.len() == 0 {
        None
    } else if entries[0].0 == method && entries[0].1@ == name {
        Some(entries[0].2)
    } else {
        call_lookup(entries.drop_first(), method, name)
    }
}

/// The class recorded in `entries` under `name`: the first match.
pub open spec fn class_lookup(
    entries: Seq<(String, ClassHandle)>,
    name: Seq<char>,
) -> Option<ClassHandle>
    decreases entries.len(),
{
    if entries.len() == 0 {
        None
    } else if entries[0].0@ == name {
        Some(entries[0].1)
    } else {
        class_lookup(entries.drop_first(), name)
    }
}

impl NativeEnv {
    /// The identifier of `obj`'s `loadClass` method, if it exposes one.
    pub open spec fn spec_method_of(self, obj: ObjectHandle) -> Option<MethodId> {
        method_lookup(self.load_class_methods@, obj)
    }

    /// Whether the strong-reference conversion succeeds for `obj`.
    pub open spec fn spec_convertible(self, obj: ObjectHandle) -> bool {
        !self.unconvertible@.contains(obj)
    }

    /// What invoking `method` with `name` does.
    pub open spec fn spec_call(self, method: MethodId, name: Seq<char>) -> Option<CallOutcome> {
        call_lookup(self.delegate_calls@, method, name)
    }

    /// The class the built-in lookup finds under `name`, if any.
    pub open spec fn spec_builtin(self, name: Seq<char>) -> Option<ClassHandle> {
        class_lookup(self.builtin_classes@, name)
    }

    /// The method-lookup primitive: find the one-argument, class-returning
    /// `loadClass` method on `obj`.
    pub fn get_load_class_method(&self, obj: ObjectHandle) -> (r: Option<MethodId>)
        ensures
            r == self.spec_method_of(obj),
    {
        let n = self.load_class_methods.len();
        let mut i: usize = 0;
        proof {
            assert(self.load_class_methods@.skip(0) =~= self.load_class_methods@);
        }
        while i < n
            invariant
                i <= n,
                n == self.load_class_methods@.len(),
                method_lookup(self.load_class_methods@, obj) == method_lookup(
                    self.load_class_methods@.skip(i as int),
                    obj,
                ),
            decreases n - i,
        {
            let entry = &self.load_class_methods[i];
            proof {
                assert(self.load_class_methods@.skip(i as int)[0] == self.load_class_methods@[i as int]);
            }
            if entry.0 == obj {
                return Some(entry.1);
            }
            proof {
                assert(self.load_class_methods@.skip(i as int).drop_first() =~= self
                    .load_class_methods@.skip(i as int + 1));
                assert(method_lookup(self.load_class_methods@.skip(i as int), obj)
                    == method_lookup(self.load_class_methods@.skip(i as int + 1), obj));
            }
            i = i + 1;
        }
        None
    }

    /// The strong-reference conversion primitive: turn `obj` into a durable
    /// reference, or fail without any other effect.
    pub fn new_global_ref(&self, obj: ObjectHandle) -> (r: Result<DelegateHandle, ResolveError>)
        ensures
            self.spec_convertible(obj) ==> r == Ok::<DelegateHandle, ResolveError>(
                DelegateHandle { target: obj },
            ),
            !self.spec_convertible(obj) ==> r == Err::<DelegateHandle, ResolveError>(
                ResolveError::ReferenceConversionFailed,
            ),
    {
        let n = self.unconvertible.len();
        let mut i: usize = 0;
        while i < n
            invariant
                i <= n,
                n == self.unconvertible@.len(),
                forall|j: int| 0 <= j < i ==> self.unconvertible@[j] != obj,
            decreases n - i,
        {
            if self.unconvertible[i] == obj {
                return Err(ResolveError::ReferenceConversionFailed);
            }
            i = i + 1;
        }
        Ok(DelegateHandle { target: obj })
    }

    /// The string-construction primitive: marshal a native class name into a
    /// managed string.
    pub fn new_string(&self, name: &str) -> (r: ManagedString)
        ensures
            r@ == name@,
    {
        ManagedString { text: name.to_owned() }
    }

    /// The method-invocation primitive: call the resolution method `method`
    /// on the delegate behind `delegate` with the marshalled `name`. A raised
    /// error or a missing result surfaces as `InvocationFailed`.
    ///
    /// The outcome is keyed by the resolution method identifier: that
    /// identifier is bound to the delegate's runtime type and is what the
    /// dispatch rests on, while the durable reference only keeps the delegate
    /// alive for the duration of the call.
    pub fn call_load_class(
        &self,
        delegate: &DelegateHandle,
        method: MethodId,
        name: &ManagedString,
    ) -> (r: Result<ClassHandle, ResolveError>)
        ensures
            r == spec_invoke_result(*self, method, name@),
    {
        let n = self.delegate_calls.len();
        let mut i: usize = 0;
        proof {
            assert(self.delegate_calls@.skip(0) =~= self.delegate_calls@);
        }
        while i < n
            invariant
                i <= n,
                n == self.delegate_calls@.len(),
                call_lookup(self.delegate_calls@, method, name@) == call_lookup(
                    self.delegate_calls@.skip(i as int),
                    method,
                    name@,
                ),
            decreases n - i,
        {
            let entry = &self.delegate_calls[i];
            proof {
                assert(self.delegate_calls@.skip(i as int)[0] == self.delegate_calls@[i as int]);
            }
            if entry.0 == method && entry.1 == name.text {
                return match entry.2 {
                    CallOutcome::Returns(class) => Ok(class),
                    CallOutcome::ReturnsNull => Err(ResolveError::InvocationFailed),
                    CallOutcome::Raises => Err(ResolveError::InvocationFailed),
                };
            }
            proof {
                assert(self.delegate_calls@.skip(i as int).drop_first() =~= self.delegate_calls@.skip(
                    i as int + 1,
                ));
                assert(call_lookup(self.delegate_calls@.skip(i as int), method, name@)
                    == call_lookup(self.delegate_calls@.skip(i as int + 1), method, name@));
            }
            i = i + 1;
        }
        Err(ResolveError::InvocationFailed)
    }

    /// The built-in find-class-by-name primitive; the no-delegate path.
    pub fn find_class(&self, name: &str) -> (r: Result<ClassHandle, ResolveError>)
        ensures
            r == spec_find_class_result(*self, name@),
    {
        let owned: String = name.to_owned();
        let n = self.builtin_classes.len();
        let mut i: usize = 0;
        proof {
            assert(self.builtin_classes@.skip(0) =~= self.builtin_classes@);
        }
        while i < n
            invariant
                i <= n,
                n == self.builtin_classes@.len(),
                owned@ == name@,
                class_lookup(self.builtin_classes@, name@) == class_lookup(
                    self.builtin_classes@.skip(i as int),
                    name@,
                ),
            decreases n - i,
        {
            let entry = &self.builtin_classes[i];
            proof {
                assert(self.builtin_classes@.skip(i as int)[0] == self.builtin_classes@[i as int]);
            }
            if entry.0 == owned {
                return Ok(entry.1);
            }
            proof {
                assert(self.builtin_classes@.skip(i as int).drop_first() =~= self.builtin_classes@.skip(
                    i as int + 1,
                ));
                assert(class_lookup(self.builtin_classes@.skip(i as int), name@)
                    == class_lookup(self.builtin_classes@.skip(i as int + 1), name@));
            }
            i = i + 1;
        }
        Err(ResolveError::ClassNotFound)
    }
}

/// The result a caller of the invocation primitive sees: the returned class
/// handle on success, `InvocationFailed` for a raised error or a null result.
pub open spec fn spec_invoke_result(
    env: NativeEnv,
    method: MethodId,
    name: Seq<char>,
) -> Result<ClassHandle, ResolveError> {
    match env.spec_call(method, name) {
        Some(CallOutcome::Returns(class)) => Ok(class),
        Some(CallOutcome::ReturnsNull) => Err(ResolveError::InvocationFailed),
        Some(CallOutcome::Raises) => Err(ResolveError::InvocationFailed),
        None => Err(ResolveError::InvocationFailed),
    }
}

/// The result a caller of the built-in lookup sees: the class found under the
/// name, or `ClassNotFound`.
pub open spec fn spec_find_class_result(
    env: NativeEnv,
    name: Seq<char>,
) -> Result<ClassHandle, ResolveError> {
    match env.spec_builtin(name) {
        Some(class) => Ok(class),
        None => Err(ResolveError::ClassNotFound),
    }
}

} // verus!
