use v8_python::awaitable::{rejection_reason_to_string, AwaitStep, PromiseAwaiter, PromisePoll};
use v8_python::convert::{
    array_length, arguments_are_items, check_depth, inner_depth, int_encoding, promise_has_result,
    python_conversion, set_value_step, stepped, symbol_to_string, unconvertible_message,
    ArgumentsShape, BadArguments, IntEncoding, PythonConversion, SequenceTooLong, TooDeep,
};
use v8_python::kind::{PromiseState, ValueTypeFlags};
use v8_python::value::{
    check_pow_modulo, equality_result, int_source, length_as_u32, length_source, ComparisonOutcome,
    IntSource, LengthOverflow, LengthSource, ModuloUnsupported,
};

fn flags() -> ValueTypeFlags {
    ValueTypeFlags {
        is_undefined: false,
        is_null: false,
        is_boolean: false,
        is_int32: false,
        is_uint32: false,
        is_number: false,
        is_big_int: false,
        is_string: false,
        is_symbol: false,
        is_array: false,
        is_function: false,
        is_promise: false,
        is_map: false,
        is_set: false,
        is_date: false,
        is_reg_exp: false,
        is_proxy: false,
        is_external: false,
        is_wasm_module_object: false,
        is_array_buffer: false,
        is_data_view: false,
        is_typed_array: false,
        is_array_buffer_view: false,
    }
}

#[test]
fn depth_limit() {
    assert_eq!(check_depth(64), Ok(()));
    assert_eq!(check_depth(65), Err(TooDeep));
    assert_eq!(inner_depth(PythonConversion::List, 3), 4);
    assert_eq!(inner_depth(PythonConversion::Str, 3), 3);
}

#[test]
fn python_int_encodings() {
    assert_eq!(int_encoding(Some(-5)), IntEncoding::Int32(-5));
    assert_eq!(int_encoding(Some(3_000_000_000)), IntEncoding::Uint32(3_000_000_000));
    assert_eq!(int_encoding(Some(-3_000_000_000)), IntEncoding::BigIntI64(-3_000_000_000));
    assert_eq!(int_encoding(Some(u64::MAX as i128)), IntEncoding::BigIntU64(u64::MAX));
    assert_eq!(int_encoding(Some(i128::MAX)), IntEncoding::TooLarge);
    assert_eq!(int_encoding(None), IntEncoding::TooLarge);
}

#[test]
fn sequence_lengths() {
    assert_eq!(array_length(3), Ok(3));
    assert_eq!(array_length(i32::MAX as usize + 1), Err(SequenceTooLong));
}

#[test]
fn javascript_to_python_kinds() {
    let mut f = flags();
    assert_eq!(python_conversion(&f), PythonConversion::Dict);
    f.is_null = true;
    assert_eq!(python_conversion(&f), PythonConversion::NoneValue);
    let mut g = flags();
    g.is_number = true;
    assert_eq!(python_conversion(&g), PythonConversion::Float);
    g.is_uint32 = true;
    assert_eq!(python_conversion(&g), PythonConversion::Uint32);
    let mut h = flags();
    h.is_array_buffer_view = true;
    h.is_typed_array = true;
    assert_eq!(python_conversion(&h), PythonConversion::ViewBytes);
    let mut p = flags();
    p.is_promise = true;
    p.is_function = false;
    assert_eq!(python_conversion(&p), PythonConversion::PromiseInfo);
}

#[test]
fn map_and_set_layouts() {
    assert_eq!(set_value_step(3, 3), 1);
    assert_eq!(set_value_step(6, 3), 2);
    assert_eq!(stepped(5, 2), vec![0, 2, 4]);
    assert_eq!(stepped(4, 1), vec![0, 1, 2, 3]);
    assert_eq!(stepped(0, 2), Vec::<u32>::new());
}

#[test]
fn texts_and_shapes() {
    assert_eq!(symbol_to_string(None), "Symbol()");
    assert_eq!(symbol_to_string(Some("id")), "Symbol(id)");
    assert!(!promise_has_result(PromiseState::Pending));
    assert!(promise_has_result(PromiseState::Rejected));
    assert_eq!(arguments_are_items(ArgumentsShape::Missing), Ok(false));
    assert_eq!(arguments_are_items(ArgumentsShape::ListOrTuple), Ok(true));
    assert_eq!(arguments_are_items(ArgumentsShape::Other), Err(BadArguments));
    assert_eq!(unconvertible_message("set"), "Cannot convert Python value of type 'set' to a V8 value.");
}

#[test]
fn value_lengths_and_numbers() {
    let mut f = flags();
    assert_eq!(length_source(&f, true, true), LengthSource::OwnKeyCount);
    assert_eq!(length_source(&f, true, false), LengthSource::NoLength);
    assert_eq!(length_source(&f, false, true), LengthSource::NoLength);
    f.is_array_buffer_view = true;
    f.is_data_view = true;
    assert_eq!(length_source(&f, true, false), LengthSource::ViewByteLength);
    f.is_string = true;
    assert_eq!(length_source(&f, true, true), LengthSource::StringLength);
    assert_eq!(length_as_u32(7), Ok(7));
    assert_eq!(length_as_u32(u32::MAX as usize + 1), Err(LengthOverflow));
    assert_eq!(int_source(false, true, true), IntSource::Uint32);
    assert_eq!(int_source(false, false, false), IntSource::NotAnInt);
    assert_eq!(check_pow_modulo(true), Err(ModuloUnsupported));
    assert_eq!(equality_result(ComparisonOutcome::Value(false), true), Some(false));
    assert_eq!(equality_result(ComparisonOutcome::TypeError, false), Some(false));
    assert_eq!(equality_result(ComparisonOutcome::TypeError, true), Some(true));
    assert_eq!(equality_result(ComparisonOutcome::Failed, true), None);
}

#[test]
fn awaiting_a_promise() {
    let mut a = PromiseAwaiter::new();
    assert!(a.needs_poll());
    assert!(matches!(a.step::<u8>(Some(PromisePoll::Pending)), AwaitStep::Yield));
    assert!(matches!(a.step(Some(PromisePoll::Fulfilled(5u8))), AwaitStep::Finish(5)));
    assert!(!a.needs_poll());
    assert!(matches!(a.step::<u8>(None), AwaitStep::Exhausted));
    let mut b = PromiseAwaiter::new();
    match b.step::<u8>(Some(PromisePoll::Rejected("Error: no".to_string()))) {
        AwaitStep::Raise(m) => assert_eq!(m, "JavaScript Promise rejected: Error: no"),
        _ => panic!("expected a rejection"),
    }
    assert_eq!(rejection_reason_to_string(false, false, Some("Symbol(x)".to_string()), None), "Symbol(x)");
    assert_eq!(rejection_reason_to_string(false, false, None, None), "<rejected>");
    assert_eq!(rejection_reason_to_string(true, false, None, None), "undefined");
}
