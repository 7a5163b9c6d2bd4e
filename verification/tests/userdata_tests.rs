use luau_host::{Luau, UserdataBorrowError};

const UNIT_TYPE: u64 = 1;
const VEC_TYPE: u64 = 2;
const DROP_TYPE: u64 = 3;

#[test]
fn exec_test() {}

#[test]
fn userdata_borrow() {
    let mut luau = Luau::default();

    luau.push_userdata(UNIT_TYPE, None, Vec::new());

    {
        let borrow = luau.try_borrow_userdata_mut(-1, UNIT_TYPE);

        assert!(
            borrow.as_ref().is_some_and(Result::is_ok),
            "Expected mutable borrow for userdata to be valid"
        );

        assert!(
            matches!(
                luau.try_borrow_userdata(-1, UNIT_TYPE),
                Some(Err(UserdataBorrowError::AlreadyMutable))
            ),
            "Expected immutable borrow for userdata to be invalid"
        );

        assert!(
            matches!(
                luau.try_borrow_userdata_mut(-1, UNIT_TYPE),
                Some(Err(UserdataBorrowError::AlreadyMutable))
            ),
            "Expected mutable borrow for userdata to be invalid"
        );

        let guard = borrow.unwrap().unwrap();
        luau.release_userdata_mut(guard);

        let reacquired = luau.try_borrow_userdata_mut(-1, UNIT_TYPE);
        assert!(
            reacquired.as_ref().is_some_and(Result::is_ok),
            "Expected mutable borrow for userdata to be valid"
        );
        luau.release_userdata_mut(reacquired.unwrap().unwrap());
    }

    {
        let borrow = luau.try_borrow_userdata(-1, UNIT_TYPE);

        assert!(
            matches!(borrow, Some(Ok(_))),
            "Expected to be a valid borrow"
        );

        assert!(
            matches!(
                luau.try_borrow_userdata_mut(-1, UNIT_TYPE),
                Some(Err(UserdataBorrowError::AlreadyImmutable))
            ),
            "Expected borrow to be an AlreadyImmutable error"
        );

        luau.release_userdata_ref(borrow.unwrap().unwrap());
    }
}

#[test]
fn userdata_values() {
    let mut luau = Luau::default();

    luau.push_userdata(UNIT_TYPE, None, Vec::new());

    let mut vec: Vec<u8> = Vec::with_capacity(128);
    for i in 0..128 {
        vec.push(i);
    }

    luau.push_userdata(VEC_TYPE, None, vec.clone());

    luau.push_userdata(DROP_TYPE, Some(500), vec![1]);

    let unit_borrow = luau.borrow_userdata(-3, UNIT_TYPE);
    assert!(unit_borrow.is_some());
    let unit_guard = unit_borrow.unwrap();
    assert!(luau.userdata_bytes(&unit_guard).is_empty());
    luau.release_userdata_ref(unit_guard);

    // Is larger data preserved correctly?
    let vec_borrow = luau.borrow_userdata(-2, VEC_TYPE);
    assert!(vec_borrow.is_some());
    let vec_guard = vec_borrow.unwrap();
    assert!(luau.userdata_bytes(&vec_guard).is_sorted());
    assert_eq!(luau.userdata_bytes(&vec_guard), &vec);
    luau.release_userdata_ref(vec_guard);

    assert!(luau.borrow_userdata(-1, DROP_TYPE).is_some_and(|g| {
        let ok = luau.userdata_bytes(&g) == &vec![1];
        luau.release_userdata_ref(g);
        ok
    }));

    let tokens = luau.close();
    assert_eq!(tokens, vec![500]);
}

#[test]
fn embed_round_trip() {
    let mut luau = Luau::new();

    let payload = vec![10, 20, 30];
    luau.push_userdata(VEC_TYPE, None, payload.clone());

    // Querying with the embedded type recovers the original value.
    assert_eq!(luau.userdata_type(-1), Some(VEC_TYPE));
    assert!(luau.is_userdata(-1, VEC_TYPE));
    let guard = luau.borrow_userdata(-1, VEC_TYPE).unwrap();
    assert_eq!(luau.userdata_bytes(&guard), &payload);
    luau.release_userdata_ref(guard);

    // Querying with a distinct type yields "not present".
    assert!(!luau.is_userdata(-1, UNIT_TYPE));
    assert!(luau.try_borrow_userdata(-1, UNIT_TYPE).is_none());
    assert!(luau.try_borrow_userdata_mut(-1, UNIT_TYPE).is_none());

    // A slot that is no userdata at all yields "not present" too.
    luau.push_boolean(true);
    assert!(luau.try_borrow_userdata(-1, VEC_TYPE).is_none());
    assert_eq!(luau.userdata_type(-1), None);
}

#[test]
fn scenario_exclusive_guard() {
    let mut luau = Luau::new();

    luau.push_userdata(UNIT_TYPE, None, Vec::new());

    let first = luau.try_borrow_userdata_mut(-1, UNIT_TYPE).unwrap();
    assert!(first.is_ok());

    let second = luau.try_borrow_userdata_mut(-1, UNIT_TYPE).unwrap();
    assert!(matches!(second, Err(UserdataBorrowError::AlreadyMutable)));

    luau.release_userdata_mut(first.unwrap());

    let third = luau.try_borrow_userdata_mut(-1, UNIT_TYPE).unwrap();
    assert!(third.is_ok());
}

#[test]
fn shared_borrows_stack_up() {
    let mut luau = Luau::new();

    luau.push_userdata(UNIT_TYPE, None, Vec::new());

    let mut guards = Vec::new();
    for _ in 0..5 {
        let g = luau.try_borrow_userdata(-1, UNIT_TYPE).unwrap();
        guards.push(g.unwrap());
    }

    // An exclusive acquisition fails with the already-shared error while
    // any shared guard is outstanding.
    for _ in 0..guards.len() {
        assert!(matches!(
            luau.try_borrow_userdata_mut(-1, UNIT_TYPE),
            Some(Err(UserdataBorrowError::AlreadyImmutable))
        ));
        let g = guards.pop().unwrap();
        luau.release_userdata_ref(g);
    }

    // After all five are released it succeeds.
    assert!(matches!(luau.try_borrow_userdata_mut(-1, UNIT_TYPE), Some(Ok(_))));
}

#[test]
fn exclusive_write_read_back() {
    let mut luau = Luau::new();

    luau.push_userdata(VEC_TYPE, None, vec![1, 2]);

    let guard = luau.try_borrow_userdata_mut(-1, VEC_TYPE).unwrap().unwrap();
    assert_eq!(luau.userdata_bytes_mut(&guard), &vec![1, 2]);
    luau.set_userdata_bytes(&guard, vec![9, 9, 9]);
    assert_eq!(luau.userdata_bytes_mut(&guard), &vec![9, 9, 9]);
    luau.release_userdata_mut(guard);

    let shared = luau.borrow_userdata(-1, VEC_TYPE).unwrap();
    assert_eq!(luau.userdata_bytes(&shared), &vec![9, 9, 9]);
    luau.release_userdata_ref(shared);
}

#[test]
fn destructor_on_reclaim() {
    let mut luau = Luau::new();

    const TEARDOWN_TOKEN: u64 = 900;
    let mut counter: i32 = 1;

    luau.push_userdata(DROP_TYPE, Some(TEARDOWN_TOKEN), Vec::new());
    luau.push_userdata(UNIT_TYPE, None, Vec::new());

    // Discarding the owning context hands the teardown token back exactly
    // once; running the teardown it names decrements the counter once.
    let tokens = luau.close();
    for t in &tokens {
        if *t == TEARDOWN_TOKEN {
            counter -= 1;
        }
    }

    assert_eq!(tokens.iter().filter(|t| **t == TEARDOWN_TOKEN).count(), 1);
    assert_eq!(counter, 0);
}

#[test]
fn destructor_tokens_in_heap_order() {
    let mut luau = Luau::new();

    luau.push_userdata(1, Some(11), Vec::new());
    luau.push_userdata(2, None, Vec::new());
    luau.push_userdata(3, Some(33), Vec::new());

    let tokens = luau.close();
    assert_eq!(tokens, vec![11, 33]);
}

#[test]
fn userdata_block_type_check() {
    let block = luau_host::Userdata {
        type_id: 8,
        borrow: luau_host::BorrowState::Free,
        dtor: None,
        payload: vec![5],
    };
    assert!(block.is(8));
    assert!(!block.is(9));
}
