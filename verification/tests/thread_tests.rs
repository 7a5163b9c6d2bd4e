use luau_host::{Luau, LuauStatus, MainStateDeadError, ResumeAction};

#[test]
fn threads() {
    let mut luau = Luau::default();

    let thread = luau.push_thread();

    let mut was_called = false;

    const CALLBACK: u64 = 7;
    luau.thread_push_function(&thread, CALLBACK);

    match luau.resume(&thread, 0) {
        ResumeAction::CallHost(token) => {
            assert_eq!(token, CALLBACK);
            was_called = true;
            luau.complete_resume(&thread, LuauStatus::LUA_OK);
        }
        ResumeAction::RuntimeError => {}
    }

    assert!(was_called, "Expected thread function to be called");
}

#[test]
fn scenario_resume_increments_counter() {
    let mut luau = Luau::new();

    let thread = luau.push_thread();

    let mut counter: u32 = 0;
    const INCREMENT: u64 = 12;

    luau.thread_push_function(&thread, INCREMENT);

    if let ResumeAction::CallHost(token) = luau.resume(&thread, 0) {
        if token == INCREMENT {
            counter += 1;
        }
        luau.complete_resume(&thread, LuauStatus::LUA_OK);
    }

    assert_eq!(counter, 1);

    // The function value was consumed: resuming again finds nothing to
    // call and reports a runtime error.
    assert_eq!(luau.resume(&thread, 0), ResumeAction::RuntimeError);
    assert_eq!(thread.get_state(&luau).status(), LuauStatus::LUA_ERRRUN);
    assert_eq!(counter, 1);
}

#[test]
fn resume_leaves_arguments() {
    let mut luau = Luau::new();

    let thread = luau.push_thread();

    luau.thread_push_function(&thread, 5);
    assert_eq!(thread.get_state(&luau).top(), 1);

    // Resuming with zero arguments consumes the function value.
    assert_eq!(luau.resume(&thread, 0), ResumeAction::CallHost(5));
    assert_eq!(thread.get_state(&luau).top(), 0);
}

#[test]
fn resume_without_function_errors() {
    let mut luau = Luau::new();

    let thread = luau.push_thread();

    assert_eq!(luau.resume(&thread, 0), ResumeAction::RuntimeError);
    assert_eq!(thread.get_state(&luau).status(), LuauStatus::LUA_ERRRUN);
}

#[test]
fn lifetime_propagation() {
    let mut luau = Luau::new();

    let thread = luau.push_thread();

    assert!(thread.try_get_state(&luau).is_ok());

    luau.close();

    // Any later access observes death instead of reaching freed state.
    assert!(matches!(thread.try_get_state(&luau), Err(MainStateDeadError)));
    assert!(matches!(thread.try_get_state(&luau), Err(MainStateDeadError)));
}

#[test]
fn get_thread_from_stack() {
    let mut luau = Luau::new();

    let spawned = luau.push_thread();
    assert!(luau.is_thread(-1));

    let fetched = luau.get_thread(-1).expect("slot should hold the spawned context");
    luau.thread_push_function(&fetched, 3);
    assert_eq!(spawned.get_state(&luau).top(), 1);

    luau.push_boolean(true);
    assert!(luau.get_thread(-1).is_none());
}

#[test]
fn reset_thread_clears_stack() {
    let mut luau = Luau::new();

    let thread = luau.push_thread();
    luau.thread_push_function(&thread, 9);
    luau.resume(&thread, 0);
    luau.complete_resume(&thread, LuauStatus::LUA_YIELD);
    luau.thread_push_function(&thread, 10);

    luau.reset_thread(&thread);

    let state = thread.get_state(&luau);
    assert_eq!(state.top(), 0);
    assert_eq!(state.status(), LuauStatus::LUA_OK);

    // A reset is not a teardown: the root is still alive.
    assert!(thread.try_get_state(&luau).is_ok());
}

#[test]
fn dead_error_message() {
    let err = MainStateDeadError;
    assert!(err.message().contains("main state has died"));
}
