use luau_host::memory::{alloc_request_action, AllocAction};
use luau_host::libs::{ALL_LIBS, LIB_BASE, LIB_COROUTINE, LIB_MATH};
use luau_host::{BorrowState, Compiler, CompilerResult, LuauLibs, UserdataBorrowError};

#[test]
fn borrow_cell_transitions() {
    let mut cell = BorrowState::Free;

    assert_eq!(cell.try_acquire_shared(), Ok(()));
    assert_eq!(cell, BorrowState::Shared(1));
    assert_eq!(cell.try_acquire_shared(), Ok(()));
    assert_eq!(cell, BorrowState::Shared(2));
    assert_eq!(
        cell.try_acquire_exclusive(),
        Err(UserdataBorrowError::AlreadyImmutable)
    );

    cell.release_shared();
    assert_eq!(cell, BorrowState::Shared(1));
    cell.release_shared();
    assert_eq!(cell, BorrowState::Free);

    assert_eq!(cell.try_acquire_exclusive(), Ok(()));
    assert_eq!(cell, BorrowState::Exclusive);
    assert_eq!(
        cell.try_acquire_shared(),
        Err(UserdataBorrowError::AlreadyMutable)
    );
    assert_eq!(
        cell.try_acquire_exclusive(),
        Err(UserdataBorrowError::AlreadyMutable)
    );

    cell.release_exclusive();
    assert_eq!(cell, BorrowState::Free);
    assert_eq!(cell.try_acquire_shared(), Ok(()));
}

#[test]
fn borrow_error_messages() {
    assert!(UserdataBorrowError::AlreadyMutable
        .message()
        .contains("already mutably borrowed"));
    assert!(UserdataBorrowError::AlreadyImmutable
        .message()
        .contains("already borrowed"));
}

#[test]
fn alloc_actions() {
    assert_eq!(alloc_request_action(true, 0), AllocAction::Nothing);
    assert_eq!(alloc_request_action(false, 0), AllocAction::Deallocate);
    assert_eq!(alloc_request_action(true, 64), AllocAction::Allocate);
    assert_eq!(alloc_request_action(false, 64), AllocAction::Reallocate);
    assert_eq!(
        alloc_request_action(true, isize::MAX as usize + 1),
        AllocAction::Refuse
    );
    assert_eq!(
        alloc_request_action(false, usize::MAX),
        AllocAction::Refuse
    );
    assert_eq!(
        alloc_request_action(true, isize::MAX as usize),
        AllocAction::Allocate
    );
}

#[test]
fn libs_bit_sets() {
    let base = LuauLibs(LIB_BASE);
    let all = LuauLibs(ALL_LIBS);

    assert!(base.has(all));
    assert!(base.has(base));
    assert!(!all.has(base));
    assert!(!base.has(LuauLibs(LIB_COROUTINE)));

    let pair = LuauLibs(LIB_BASE).or(LuauLibs(LIB_MATH));
    assert_eq!(pair.0, LIB_BASE | LIB_MATH);
    assert_eq!(pair.and(LuauLibs(LIB_MATH)).0, LIB_MATH);
    assert_eq!(pair.xor(LuauLibs(LIB_MATH)).0, LIB_BASE);
}

#[test]
fn compiler_defaults_and_setters() {
    let compiler = Compiler::new();

    assert_eq!(compiler.optimization_level, 1);
    assert_eq!(compiler.debug_level, 1);
    assert_eq!(compiler.type_info_level, 0);
    assert_eq!(compiler.coverage_level, 0);
    assert!(compiler.vector_lib.is_none());
    assert!(compiler.mutable_globals.is_empty());

    let compiler = compiler
        .set_optimization_level(2)
        .set_coverage_level(1)
        .set_mutable_globals(vec![b"a".to_vec()]);

    assert_eq!(compiler.optimization_level, 2);
    assert_eq!(compiler.coverage_level, 1);
    assert_eq!(compiler.debug_level, 1);
    assert_eq!(compiler.mutable_globals, vec![b"a".to_vec()]);

    let compiler = compiler.set_libraries(vec![b"test".to_vec()]);
    assert_eq!(compiler.libraries, Some(vec![b"test".to_vec()]));
}

#[test]
fn cloned_compiler() {
    let compiler = {
        let original_compiler = Compiler::new();
        original_compiler.clone()
    };

    let compiler = compiler.set_debug_level(2).set_vector_lib(b"vec".to_vec());

    assert_eq!(compiler.debug_level, 2);
    assert_eq!(compiler.vector_lib, Some(b"vec".to_vec()));
    assert_eq!(compiler.optimization_level, 1);
}

#[test]
fn compiler_result_classification() {
    // A leading zero byte marks an error whose message follows.
    let err = CompilerResult::from_bytes(vec![0, b'E', b'!']);
    assert!(err.is_err());
    assert!(!err.is_ok());
    assert_eq!(err.bytecode(), None);
    assert_eq!(err.error(), Some(&[b'E', b'!'] as &[u8]));

    // Anything else is bytecode, handed back whole.
    let ok = CompilerResult::from_bytes(vec![3, 1, 4, 1, 5]);
    assert!(ok.is_ok());
    assert!(!ok.is_err());
    assert_eq!(ok.error(), None);
    assert_eq!(ok.bytecode().map(Vec::as_slice), Some(&[3u8, 1, 4, 1, 5] as &[u8]));

    // An empty answer carries no error marker.
    let empty = CompilerResult::from_bytes(Vec::new());
    assert!(empty.is_ok());
    assert_eq!(empty.error(), None);
}

#[test]
fn userdata_reserved_tag() {
    assert_eq!(luau_host::userdata::UD_TAG, 127);
}
