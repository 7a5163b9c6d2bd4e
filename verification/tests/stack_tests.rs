use luau_host::{Luau, LuauType, Value};

#[test]
fn stack_checking_has_value() {
    let mut luau = Luau::default();

    luau.push_number(0.0f64.to_bits());

    assert!(luau.is_number(-1));
    assert!(luau.is_number(1));
    assert!(!luau.is_number(0)); // not the value but the empty position
}

#[test]
fn pop() {
    let mut luau = Luau::default();

    luau.push_number(0.0f64.to_bits());

    assert_eq!(luau.top(), 1);

    luau.pop(1);

    assert_eq!(luau.top(), 0);

    luau.push_number(0.0f64.to_bits());
    luau.push_number(0.0f64.to_bits());

    assert_eq!(luau.top(), 2);

    luau.pop(2);

    assert_eq!(luau.top(), 0);
}

#[test]
fn scenario_number_round_trip() {
    let mut luau = Luau::new();

    luau.push_number(123.0f64.to_bits());
    assert_eq!(luau.top(), 1);

    let read = luau.to_number(1).map(f64::from_bits);
    assert_eq!(read, Some(123.0));

    luau.pop(1);
    assert_eq!(luau.top(), 0);
}

#[test]
fn numeric_bits_values() {
    let mut luau = Luau::new();

    luau.push_number(f64::NAN.to_bits());
    luau.push_number(f64::INFINITY.to_bits());
    luau.push_number(f64::EPSILON.to_bits());

    // NaN is preserved bit-exactly even though it is not equal to itself.
    assert_eq!(luau.to_number(-3), Some(f64::NAN.to_bits()));
    assert_eq!(luau.to_number(1), Some(f64::NAN.to_bits()));

    assert_eq!(luau.to_number(-2).map(f64::from_bits), Some(f64::INFINITY));
    assert_eq!(luau.to_number(2).map(f64::from_bits), Some(f64::INFINITY));

    assert_eq!(luau.to_number(-1).map(f64::from_bits), Some(f64::EPSILON));
    assert_eq!(luau.to_number(3).map(f64::from_bits), Some(f64::EPSILON));
}

#[test]
fn string_byte_values() {
    let mut luau = Luau::new();

    const TEST_CONST: &[u8] = &[0xCA, 0xFE, 0xBA, 0xBE];

    luau.push_string(b"Hello, world!".to_vec());
    luau.push_string(TEST_CONST.to_vec());

    assert_eq!(luau.to_str_slice(-2).map(Vec::as_slice), Some(b"Hello, world!" as &[u8]));
    assert_eq!(luau.to_str_slice(1).map(Vec::as_slice), Some(b"Hello, world!" as &[u8]));

    assert_eq!(luau.to_str_slice(-1).map(Vec::as_slice), Some(TEST_CONST));
    assert_eq!(luau.to_str_slice(2).map(Vec::as_slice), Some(TEST_CONST));

    // A number is not coerced by the model: the slot keeps its type.
    luau.push_number(12345.0f64.to_bits());
    assert_eq!(luau.to_str_slice(-1), None);
    assert!(luau.is_string(1));
    assert!(!luau.is_string(-1));
}

#[test]
fn type_codes() {
    let mut luau = Luau::new();

    luau.push_nil();
    luau.push_boolean(true);
    luau.push_number(1.5f64.to_bits());
    luau.push_string(b"s".to_vec());

    assert_eq!(luau.type_of(1), LuauType::LUA_TNIL);
    assert_eq!(luau.type_of(2), LuauType::LUA_TBOOLEAN);
    assert_eq!(luau.type_of(3), LuauType::LUA_TNUMBER);
    assert_eq!(luau.type_of(4), LuauType::LUA_TSTRING);
    assert_eq!(luau.type_of(0), LuauType::LUA_TNONE);

    assert!(luau.is_nil(1));
    assert!(luau.is_boolean(2));
    assert!(luau.is_string(4));
}

#[test]
fn truthiness() {
    let mut luau = Luau::new();

    luau.push_nil();
    luau.push_boolean(false);
    luau.push_boolean(true);
    luau.push_number(0.0f64.to_bits());
    luau.push_string(Vec::new());

    assert!(!luau.to_boolean(1));
    assert!(!luau.to_boolean(2));
    assert!(luau.to_boolean(3));
    assert!(luau.to_boolean(4)); // zero is a value, hence true
    assert!(luau.to_boolean(5));
    assert!(!luau.to_boolean(0)); // empty position
}

#[test]
fn buffers() {
    let mut luau = Luau::new();

    luau.push_buffer_from_slice(&[1, 2, 3]);

    assert!(luau.is_buffer(-1));
    assert_eq!(luau.to_buffer(-1).map(Vec::as_slice), Some(&[1u8, 2, 3] as &[u8]));
    assert_eq!(luau.to_str_slice(-1), None);
}

#[test]
fn vectors_and_lightuserdata() {
    let mut luau = Luau::new();

    luau.push_vector(1.0f32.to_bits(), 2.0f32.to_bits(), 3.0f32.to_bits());
    luau.push_lightuserdata(0xABCD);

    assert!(luau.is_vector(-2));
    assert_eq!(
        luau.to_vector(-2),
        Some((1.0f32.to_bits(), 2.0f32.to_bits(), 3.0f32.to_bits()))
    );
    assert!(luau.is_lightuserdata(-1));
    assert_eq!(luau.to_lightuserdata(-1), Some(0xABCD));
    assert_eq!(luau.to_lightuserdata(-2), None);
}

#[test]
fn shift_moves_top() {
    let mut luau = Luau::new();

    luau.push_number(1.0f64.to_bits());
    luau.push_number(2.0f64.to_bits());
    luau.push_number(3.0f64.to_bits());

    // Move the top value into position 1, shifting the rest up.
    luau.shift(1);

    assert_eq!(luau.to_number(1).map(f64::from_bits), Some(3.0));
    assert_eq!(luau.to_number(2).map(f64::from_bits), Some(1.0));
    assert_eq!(luau.to_number(3).map(f64::from_bits), Some(2.0));
}

#[test]
fn push_function_captures_upvalues() {
    let mut luau = Luau::new();

    luau.push_number(1.0f64.to_bits());
    luau.push_number(2.0f64.to_bits());
    luau.push_function(77, 2);

    // The two upvalues are consumed and the function sits on top.
    assert_eq!(luau.top(), 1);
    assert!(luau.is_function(-1));
}

#[test]
fn protected_call() {
    let mut luau = Luau::new();

    const CALLBACK: u64 = 21;
    luau.push_function(CALLBACK, 0);
    luau.push_number(1.0f64.to_bits());
    luau.push_number(2.0f64.to_bits());

    // The function beneath the two arguments is invoked; the arguments
    // stay as its frame.
    let action = luau.call(2);
    assert_eq!(action, luau_host::ResumeAction::CallHost(CALLBACK));
    assert_eq!(luau.top(), 2);

    // With nothing callable beneath the arguments, the failure comes
    // back as a status instead of unwinding.
    assert_eq!(luau.call(2), luau_host::ResumeAction::RuntimeError);
    assert_eq!(luau.top(), 2);
}

#[test]
fn fresh_buffers_are_zeroed() {
    let mut luau = Luau::new();

    luau.push_buffer(4);

    assert!(luau.is_buffer(-1));
    assert_eq!(luau.to_buffer(-1).map(Vec::as_slice), Some(&[0u8, 0, 0, 0] as &[u8]));
}

#[test]
fn check_args_counts_stack() {
    let mut luau = Luau::new();

    assert!(luau.check_args(0));
    assert!(!luau.check_args(1));

    luau.push_boolean(true);

    assert!(luau.check_args(1));
    assert!(!luau.check_args(2));
}

#[test]
fn check_stack_limit() {
    let luau = Luau::new();

    assert!(luau.check_stack(1));
    assert!(luau.check_stack(8000));
    assert!(!luau.check_stack(8001));
}

#[test]
fn app_data() {
    let mut luau = Luau::default();

    const BOOL_TYPE: u64 = 71;

    luau.set_app_data(Some(luau_host::AppValue { type_id: BOOL_TYPE, bytes: vec![1] }));

    assert_eq!(luau.get_app_data(BOOL_TYPE).map(Vec::as_slice), Some(&[1u8] as &[u8]));
    assert_eq!(luau.get_app_data(BOOL_TYPE + 1), None);

    let prev = luau.set_app_data(None);
    assert!(matches!(prev, Some(v) if v.type_id == BOOL_TYPE && v.bytes == vec![1]));
    assert_eq!(luau.get_app_data(BOOL_TYPE), None);
}

#[test]
fn memory_category() {
    let mut luau = Luau::new();

    assert_eq!(luau.memory_category(), 0);
    luau.set_memory_category(3);
    assert_eq!(luau.memory_category(), 3);
}

#[test]
fn value_types_are_reported() {
    assert_eq!(
        luau_host::value::type_of_value(&Value::Boolean(true)),
        LuauType::LUA_TBOOLEAN
    );
    assert_eq!(luau_host::value::type_of_value(&Value::Nil), LuauType::LUA_TNIL);
    assert_eq!(
        luau_host::value::type_of_value(&Value::Function(3)),
        LuauType::LUA_TFUNCTION
    );
}
