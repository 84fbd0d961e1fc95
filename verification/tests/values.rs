use v8_python::kind::{ValueKind, ValueTypeFlags, classify_value, PromiseState, promise_state_name};
use v8_python::operator::{BinaryOperator, UnaryOperator, mixed_operand_warning, order_operands, comparison_result, NotABoolean};

fn no_flags() -> ValueTypeFlags {
    ValueTypeFlags {
        is_undefined: false,
        is_null: false,
        is_boolean: false,
        is_int32: false,
        is_uint32: false,
        is_number: false,
        is_big_int: false,
        is_string: false,
        is_symbol: false,
        is_array: false,
        is_function: false,
        is_promise: false,
        is_map: false,
        is_set: false,
        is_date: false,
        is_reg_exp: false,
        is_proxy: false,
        is_external: false,
        is_wasm_module_object: false,
        is_array_buffer: false,
        is_data_view: false,
        is_typed_array: false,
        is_array_buffer_view: false,
    }
}

#[test]
fn kind_names() {
    assert_eq!(ValueKind::Undefined.as_str(), "undefined");
    assert_eq!(ValueKind::ArrayBufferView.as_str(), "array_buffer_view");
    assert_eq!(ValueKind::JsMap.as_str(), "map");
    assert_eq!(ValueKind::WasmModule.as_str(), "wasm_module");
    assert_eq!(ValueKind::RegExp.as_str(), "regexp");
}

#[test]
fn number_and_object_kinds() {
    assert!(ValueKind::Int32.is_number());
    assert!(ValueKind::Number.is_number());
    assert!(!ValueKind::BigInt.is_number());
    assert!(ValueKind::Function.is_object());
    assert!(!ValueKind::External.is_object());
    assert!(!ValueKind::Null.is_object());
}

#[test]
fn operator_types() {
    assert_eq!(ValueKind::Uint32.operator_type_name(), "number");
    assert_eq!(ValueKind::External.operator_type_name(), "object");
    assert_eq!(ValueKind::Null.operator_type_name(), "null");
    assert!(ValueKind::Int32.has_same_operator_type(ValueKind::Number));
    assert!(ValueKind::Array.has_same_operator_type(ValueKind::External));
    assert!(!ValueKind::String.has_same_operator_type(ValueKind::Symbol));
    assert!(!ValueKind::Null.has_same_operator_type(ValueKind::Undefined));
}

#[test]
fn classification_order() {
    let mut f = no_flags();
    assert_eq!(classify_value(&f), ValueKind::Object);
    f.is_number = true;
    f.is_int32 = true;
    assert_eq!(classify_value(&f), ValueKind::Int32);
    let mut g = no_flags();
    g.is_array_buffer_view = true;
    g.is_typed_array = true;
    assert_eq!(classify_value(&g), ValueKind::TypedArray);
    let mut h = no_flags();
    h.is_data_view = true;
    h.is_array_buffer_view = true;
    assert_eq!(classify_value(&h), ValueKind::DataView);
    let mut p = no_flags();
    p.is_proxy = true;
    p.is_function = true;
    assert_eq!(classify_value(&p), ValueKind::Function);
}

#[test]
fn promise_states() {
    assert_eq!(promise_state_name(PromiseState::Pending), "pending");
    assert_eq!(promise_state_name(PromiseState::Fulfilled), "fulfilled");
    assert_eq!(promise_state_name(PromiseState::Rejected), "rejected");
}

#[test]
fn operator_symbols_and_sources() {
    assert_eq!(BinaryOperator::Pow.symbol(), "**");
    assert_eq!(BinaryOperator::Shr.symbol(), ">>");
    assert_eq!(BinaryOperator::Ne.source(), "(function(a, b) { return a != b; })");
    assert_eq!(UnaryOperator::Invert.source(), "(function(a) { return ~a; })");
    assert_eq!(UnaryOperator::Neg.source(), "(function(a) { return -a; })");
}

#[test]
fn mixed_operands_warn() {
    assert!(mixed_operand_warning(BinaryOperator::Add, ValueKind::Int32, ValueKind::Number).is_none());
    let w = mixed_operand_warning(BinaryOperator::Add, ValueKind::String, ValueKind::Int32).unwrap();
    assert_eq!(
        w,
        "JavaScript operator '+' was used with mixed operand types 'string' and 'number'; JavaScript coercion semantics were applied."
    );
}

#[test]
fn reflected_operands_swap() {
    assert_eq!(order_operands(1, 2, false), (1, 2));
    assert_eq!(order_operands(1, 2, true), (2, 1));
}

#[test]
fn comparison_needs_boolean() {
    assert_eq!(comparison_result(true, false), Ok(false));
    assert_eq!(comparison_result(false, true), Err(NotABoolean));
}

#[test]
fn kind_names_are_distinct_and_sources_wrap_symbols() {
    let kinds = [
        ValueKind::Undefined, ValueKind::Null, ValueKind::Boolean, ValueKind::Int32, ValueKind::Uint32,
        ValueKind::Number, ValueKind::BigInt, ValueKind::String, ValueKind::Symbol, ValueKind::Array,
        ValueKind::Function, ValueKind::Promise, ValueKind::ArrayBuffer, ValueKind::ArrayBufferView,
        ValueKind::TypedArray, ValueKind::DataView, ValueKind::JsMap, ValueKind::JsSet, ValueKind::Date,
        ValueKind::RegExp, ValueKind::Proxy, ValueKind::External, ValueKind::WasmModule, ValueKind::Object,
    ];
    for a in kinds {
        for b in kinds {
            assert_eq!(a.as_str() == b.as_str(), a == b);
        }
    }
    assert_eq!(ValueKind::ArrayBuffer.as_str(), "array_buffer");
    assert_eq!(ValueKind::RegExp.as_str(), "regexp");
    let ops = [
        BinaryOperator::Add, BinaryOperator::Sub, BinaryOperator::Mul, BinaryOperator::Div,
        BinaryOperator::Rem, BinaryOperator::Pow, BinaryOperator::BitAnd, BinaryOperator::BitOr,
        BinaryOperator::BitXor, BinaryOperator::Shl, BinaryOperator::Shr, BinaryOperator::Eq,
        BinaryOperator::Ne, BinaryOperator::Lt, BinaryOperator::Le, BinaryOperator::Gt, BinaryOperator::Ge,
    ];
    for op in ops {
        assert_eq!(op.source(), format!("(function(a, b) {{ return a {} b; }})", op.symbol()));
    }
    assert_eq!(UnaryOperator::Invert.source(), "(function(a) { return ~a; })");
}
