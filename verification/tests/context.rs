use sfml::context::{Context, ContextHost};

#[test]
fn a_fresh_thread_has_no_active_context() {
    let host = ContextHost::new();
    assert_eq!(host.active_context_id(), 0);
    assert_eq!(host.count_constructor_calls(), 0);
    assert_eq!(host.count_destructor_calls(), 0);
}

#[test]
fn construction_activates_and_disposal_destroys_once() {
    let mut host = ContextHost::new();
    let context = Context::new(&mut host).expect("resources are available");
    assert_eq!(host.active_context_id(), 1);
    assert_eq!(host.count_constructor_calls(), 1);
    assert_eq!(host.count_destructor_calls(), 0);

    context.dispose(&mut host);
    assert_eq!(host.active_context_id(), 0);
    assert_eq!(host.count_constructor_calls(), 1);
    assert_eq!(host.count_destructor_calls(), 1);
}

#[test]
fn construction_fails_recoverably_when_exhausted() {
    let mut host = ContextHost::new();
    host.set_exhausted(true);
    let r = Context::new(&mut host);
    assert!(r.is_err());
    // Nothing was constructed, activated or destroyed by the failure.
    assert_eq!(host.active_context_id(), 0);
    assert_eq!(host.count_constructor_calls(), 0);
    assert_eq!(host.count_destructor_calls(), 0);

    // Once the platform has resources again, construction succeeds.
    host.set_exhausted(false);
    let context = Context::new(&mut host).unwrap();
    assert_eq!(host.active_context_id(), 1);
    context.dispose(&mut host);
}

#[test]
fn a_second_context_takes_over_activation() {
    let mut host = ContextHost::new();
    let first = Context::new(&mut host).unwrap();
    let second = Context::new(&mut host).unwrap();
    assert_eq!(host.active_context_id(), 2);

    // Deactivating the inactive one changes nothing.
    first.set_active(&mut host, false);
    assert_eq!(host.active_context_id(), 2);

    // Reactivating switches back.
    first.set_active(&mut host, true);
    assert_eq!(host.active_context_id(), 1);

    second.dispose(&mut host);
    assert_eq!(host.active_context_id(), 1);
    first.dispose(&mut host);
    assert_eq!(host.active_context_id(), 0);
    assert_eq!(host.count_destructor_calls(), 2);
}

#[test]
fn explicit_deactivation_then_reactivation() {
    let mut host = ContextHost::new();
    let context = Context::new(&mut host).unwrap();
    context.set_active(&mut host, false);
    assert_eq!(host.active_context_id(), 0);
    context.set_active(&mut host, true);
    assert_eq!(host.active_context_id(), 1);
    context.set_active(&mut host, true);
    assert_eq!(host.active_context_id(), 1);
    context.dispose(&mut host);
}

#[test]
fn activation_is_thread_local() {
    // Each host is one thread's engine state: activity on one is invisible
    // on the other.
    let mut first_thread = ContextHost::new();
    let second_thread = ContextHost::new();
    let context = Context::new(&mut first_thread).unwrap();
    assert_eq!(first_thread.active_context_id(), 1);
    assert_eq!(second_thread.active_context_id(), 0);
    context.dispose(&mut first_thread);
}
