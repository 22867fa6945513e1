use class_resolver::env::{CallOutcome, NativeEnv};
use class_resolver::error::ResolveError;
use class_resolver::handles::{ClassHandle, MethodId, ObjectHandle};
use class_resolver::registry::{ActiveDelegate, Registry};
use class_resolver::resolver::{load_class, resolve_with_snapshot};

fn empty_env() -> NativeEnv {
    NativeEnv {
        load_class_methods: Vec::new(),
        unconvertible: Vec::new(),
        delegate_calls: Vec::new(),
        builtin_classes: Vec::new(),
    }
}

#[test]
fn unregister_on_empty_is_a_noop() {
    let mut registry = Registry::new();
    assert_eq!(registry.current(), None);
    registry.unregister_class_loader();
    assert_eq!(registry.current(), None);
    registry.unregister_class_loader();
    assert_eq!(registry.current(), None);
}

#[test]
fn unregister_clears_an_active_delegate() {
    let delegate = ObjectHandle { id: 1 };
    let method = MethodId { id: 10 };
    let mut env = empty_env();
    env.load_class_methods.push((delegate, method));

    let mut registry = Registry::new();
    assert_eq!(registry.register_class_loader(&env, delegate), Ok(()));
    assert!(registry.current().is_some());
    registry.unregister_class_loader();
    assert_eq!(registry.current(), None);
}

#[test]
fn registration_caches_the_method_id() {
    let delegate = ObjectHandle { id: 3 };
    let method = MethodId { id: 30 };
    let mut env = empty_env();
    env.load_class_methods.push((delegate, method));

    let mut registry = Registry::new();
    assert_eq!(registry.register_class_loader(&env, delegate), Ok(()));
    let active = registry.current().expect("a delegate must be active");
    assert_eq!(active.method, method);
    assert_eq!(active.delegate.target, delegate);
}

#[test]
fn replacement_switches_to_the_new_delegate() {
    let delegate_a = ObjectHandle { id: 1 };
    let method_a = MethodId { id: 10 };
    let delegate_b = ObjectHandle { id: 2 };
    let method_b = MethodId { id: 20 };
    let class_a = ClassHandle { id: 100 };
    let class_b = ClassHandle { id: 200 };

    let mut env = empty_env();
    env.load_class_methods.push((delegate_a, method_a));
    env.load_class_methods.push((delegate_b, method_b));
    env.delegate_calls.push((method_a, "x.Y".to_string(), CallOutcome::Returns(class_a)));
    env.delegate_calls.push((method_b, "x.Y".to_string(), CallOutcome::Returns(class_b)));

    let mut registry = Registry::new();
    assert_eq!(registry.register_class_loader(&env, delegate_a), Ok(()));
    assert_eq!(load_class(&registry, &env, "x.Y"), Ok(class_a));

    assert_eq!(registry.register_class_loader(&env, delegate_b), Ok(()));
    let active = registry.current().expect("delegate B must be active");
    assert_eq!(active.method, method_b);
    assert_eq!(load_class(&registry, &env, "x.Y"), Ok(class_b));
}

#[test]
fn validation_gate_rejects_a_candidate_without_load_class() {
    let candidate = ObjectHandle { id: 9 };
    let env = empty_env();

    let mut registry = Registry::new();
    assert_eq!(
        registry.register_class_loader(&env, candidate),
        Err(ResolveError::MethodNotFound)
    );
    assert_eq!(registry.current(), None);
}

#[test]
fn validation_gate_keeps_the_prior_delegate() {
    let delegate = ObjectHandle { id: 1 };
    let method = MethodId { id: 10 };
    let invalid = ObjectHandle { id: 9 };
    let mut env = empty_env();
    env.load_class_methods.push((delegate, method));

    let mut registry = Registry::new();
    assert_eq!(registry.register_class_loader(&env, delegate), Ok(()));
    let before = registry.current();
    assert_eq!(
        registry.register_class_loader(&env, invalid),
        Err(ResolveError::MethodNotFound)
    );
    assert_eq!(registry.current(), before);
}

#[test]
fn conversion_failure_aborts_and_keeps_the_prior_state() {
    let delegate = ObjectHandle { id: 1 };
    let method = MethodId { id: 10 };
    let unconvertible = ObjectHandle { id: 2 };
    let method_u = MethodId { id: 20 };
    let mut env = empty_env();
    env.load_class_methods.push((delegate, method));
    env.load_class_methods.push((unconvertible, method_u));
    env.unconvertible.push(unconvertible);

    let mut registry = Registry::new();
    assert_eq!(registry.register_class_loader(&env, delegate), Ok(()));
    let before = registry.current();
    assert_eq!(
        registry.register_class_loader(&env, unconvertible),
        Err(ResolveError::ReferenceConversionFailed)
    );
    assert_eq!(registry.current(), before);
}

#[test]
fn lookup_does_not_rederive_the_method_id() {
    let delegate = ObjectHandle { id: 5 };
    let method = MethodId { id: 50 };
    let class = ClassHandle { id: 500 };

    let mut env = empty_env();
    env.load_class_methods.push((delegate, method));
    env.delegate_calls.push((method, "a.B".to_string(), CallOutcome::Returns(class)));

    let mut registry = Registry::new();
    assert_eq!(registry.register_class_loader(&env, delegate), Ok(()));

    // An environment whose method table no longer knows the delegate: if any
    // lookup re-derived the method identifier, it could not succeed here.
    let mut later_env = empty_env();
    later_env.delegate_calls.push((method, "a.B".to_string(), CallOutcome::Returns(class)));

    for _ in 0..4 {
        assert_eq!(load_class(&registry, &later_env, "a.B"), Ok(class));
    }
}

#[test]
fn fallback_finds_a_known_class() {
    let class = ClassHandle { id: 7 };
    let mut env = empty_env();
    env.builtin_classes.push(("java.lang.String".to_string(), class));

    let registry = Registry::new();
    assert_eq!(load_class(&registry, &env, "java.lang.String"), Ok(class));
}

#[test]
fn fallback_surfaces_class_not_found() {
    let class = ClassHandle { id: 7 };
    let mut env = empty_env();
    env.builtin_classes.push(("java.lang.String".to_string(), class));

    let registry = Registry::new();
    assert_eq!(
        load_class(&registry, &env, "no.such.Class"),
        Err(ResolveError::ClassNotFound)
    );
}

#[test]
fn a_raising_delegate_is_terminal() {
    let delegate = ObjectHandle { id: 1 };
    let method = MethodId { id: 10 };
    let class = ClassHandle { id: 100 };
    let mut env = empty_env();
    env.load_class_methods.push((delegate, method));
    env.delegate_calls.push((method, "x.Y".to_string(), CallOutcome::Raises));
    // The built-in lookup knows the name, but must never be consulted.
    env.builtin_classes.push(("x.Y".to_string(), class));

    let mut registry = Registry::new();
    assert_eq!(registry.register_class_loader(&env, delegate), Ok(()));
    assert_eq!(
        load_class(&registry, &env, "x.Y"),
        Err(ResolveError::InvocationFailed)
    );
}

#[test]
fn a_null_result_from_the_delegate_is_a_failure() {
    let delegate = ObjectHandle { id: 1 };
    let method = MethodId { id: 10 };
    let mut env = empty_env();
    env.load_class_methods.push((delegate, method));
    env.delegate_calls.push((method, "x.Y".to_string(), CallOutcome::ReturnsNull));

    let mut registry = Registry::new();
    assert_eq!(registry.register_class_loader(&env, delegate), Ok(()));
    assert_eq!(
        load_class(&registry, &env, "x.Y"),
        Err(ResolveError::InvocationFailed)
    );
}

#[test]
fn an_unanswered_delegate_call_is_a_failure() {
    let delegate = ObjectHandle { id: 1 };
    let method = MethodId { id: 10 };
    let mut env = empty_env();
    env.load_class_methods.push((delegate, method));

    let mut registry = Registry::new();
    assert_eq!(registry.register_class_loader(&env, delegate), Ok(()));
    assert_eq!(
        load_class(&registry, &env, "x.Y"),
        Err(ResolveError::InvocationFailed)
    );
}

#[test]
fn a_snapshot_outlives_unregistration() {
    let delegate = ObjectHandle { id: 1 };
    let method = MethodId { id: 10 };
    let class = ClassHandle { id: 100 };
    let mut env = empty_env();
    env.load_class_methods.push((delegate, method));
    env.delegate_calls.push((method, "x.Y".to_string(), CallOutcome::Returns(class)));

    let mut registry = Registry::new();
    assert_eq!(registry.register_class_loader(&env, delegate), Ok(()));
    let snapshot: Option<ActiveDelegate> = registry.current();
    registry.unregister_class_loader();
    // The in-flight lookup already captured its snapshot: it still resolves
    // through the delegate, unaffected by the concurrent unregistration.
    assert_eq!(resolve_with_snapshot(snapshot, &env, "x.Y"), Ok(class));
}

#[test]
fn scenario_register_resolve_unregister_fallback() {
    let delegate = ObjectHandle { id: 4 };
    let method = MethodId { id: 44 };
    let class_h = ClassHandle { id: 100 };
    let class_builtin = ClassHandle { id: 200 };

    let mut env = empty_env();
    env.load_class_methods.push((delegate, method));
    env.delegate_calls.push((
        method,
        "com.example.Foo".to_string(),
        CallOutcome::Returns(class_h),
    ));
    env.builtin_classes.push(("com.example.Foo".to_string(), class_builtin));

    let mut registry = Registry::new();
    assert_eq!(registry.register_class_loader(&env, delegate), Ok(()));
    assert_eq!(load_class(&registry, &env, "com.example.Foo"), Ok(class_h));

    registry.unregister_class_loader();
    assert_eq!(
        load_class(&registry, &env, "com.example.Foo"),
        Ok(class_builtin)
    );
}

#[test]
fn marshalling_keeps_the_name() {
    let env = empty_env();
    let marshalled = env.new_string("com.example.Foo");
    assert_eq!(marshalled.text, "com.example.Foo".to_string());
}
