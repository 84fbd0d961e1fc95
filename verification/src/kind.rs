//! The kinds of JavaScript values the library tells apart, and how a value is
//! classified from the engine's type predicates.
use vstd::prelude::*;

verus! {

/// The kind of a JavaScript value.
#[derive(Clone, Copy, Debug, PartialEq, Eq, Structural)]
pub enum ValueKind {
    Undefined,
    Null,
    Boolean,
    Int32,
    Uint32,
    Number,
    BigInt,
    String,
    Symbol,
    Array,
    Function,
    Promise,
    ArrayBuffer,
    ArrayBufferView,
    TypedArray,
    DataView,
    JsMap,
    JsSet,
    Date,
    RegExp,
    Proxy,
    External,
    WasmModule,
    Object,
}

/// The name under which a kind is reported to Python.
pub open spec fn kind_name(k: ValueKind) -> Seq<char> {
    match k {
        ValueKind::Undefined => "undefined"@,
        ValueKind::Null => "null"@,
        ValueKind::Boolean => "boolean"@,
        ValueKind::Int32 => "int32"@,
        ValueKind::Uint32 => "uint32"@,
        ValueKind::Number => "number"@,
        ValueKind::BigInt => "bigint"@,
        ValueKind::String => "string"@,
        ValueKind::Symbol => "symbol"@,
        ValueKind::Array => "array"@,
        ValueKind::Function => "function"@,
        ValueKind::Promise => "promise"@,
        ValueKind::ArrayBuffer => "array_buffer"@,
        ValueKind::ArrayBufferView => "array_buffer_view"@,
        ValueKind::TypedArray => "typed_array"@,
        ValueKind::DataView => "data_view"@,
        ValueKind::JsMap => "map"@,
        ValueKind::JsSet => "set"@,
        ValueKind::Date => "date"@,
        ValueKind::RegExp => "regexp"@,
        ValueKind::Proxy => "proxy"@,
        ValueKind::External => "external"@,
        ValueKind::WasmModule => "wasm_module"@,
        ValueKind::Object => "object"@,
    }
}

/// The kinds that are JavaScript numbers.
pub open spec fn is_number_kind(k: ValueKind) -> bool {
    k == ValueKind::Int32 || k == ValueKind::Uint32 || k == ValueKind::Number
}

/// The kinds that are JavaScript objects (an `External` is not one here).
pub open spec fn is_object_kind(k: ValueKind) -> bool {
    match k {
        ValueKind::Undefined | ValueKind::Null | ValueKind::Boolean | ValueKind::Int32
        | ValueKind::Uint32 | ValueKind::Number | ValueKind::BigInt | ValueKind::String
        | ValueKind::Symbol | ValueKind::External => false,
        _ => true,
    }
}

/// The type a kind has for JavaScript's operators, as `typeof` would name it
/// (with functions counted as objects).
pub open spec fn operator_type(k: ValueKind) -> Seq<char> {
    match k {
        ValueKind::Undefined => "undefined"@,
        ValueKind::Null => "null"@,
        ValueKind::Boolean => "boolean"@,
        ValueKind::Int32 | ValueKind::Uint32 | ValueKind::Number => "number"@,
        ValueKind::BigInt => "bigint"@,
        ValueKind::String => "string"@,
        ValueKind::Symbol => "symbol"@,
        _ => "object"@,
    }
}

/// The operator types as a small enumeration, so that they can be compared
/// without comparing strings.
pub open spec fn operator_class(k: ValueKind) -> int {
    match k {
        ValueKind::Undefined => 0,
        ValueKind::Null => 1,
        ValueKind::Boolean => 2,
        ValueKind::Int32 | ValueKind::Uint32 | ValueKind::Number => 3,
        ValueKind::BigInt => 4,
        ValueKind::String => 5,
        ValueKind::Symbol => 6,
        _ => 7,
    }
}

impl ValueKind {
    /// The kind's name.
    pub fn as_str(self) -> (r: &'static str)
        ensures
            r@ == kind_name(self),
    {
        match self {
            ValueKind::Undefined => "undefined",
            ValueKind::Null => "null",
            ValueKind::Boolean => "boolean",
            ValueKind::Int32 => "int32",
            ValueKind::Uint32 => "uint32",
            ValueKind::Number => "number",
            ValueKind::BigInt => "bigint",
            ValueKind::String => "string",
            ValueKind::Symbol => "symbol",
            ValueKind::Array => "array",
            ValueKind::Function => "function",
            ValueKind::Promise => "promise",
            ValueKind::ArrayBuffer => "array_buffer",
            ValueKind::ArrayBufferView => "array_buffer_view",
            ValueKind::TypedArray => "typed_array",
            ValueKind::DataView => "data_view",
            ValueKind::JsMap => "map",
            ValueKind::JsSet => "set",
            ValueKind::Date => "date",
            ValueKind::RegExp => "regexp",
            ValueKind::Proxy => "proxy",
            ValueKind::External => "external",
            ValueKind::WasmModule => "wasm_module",
            ValueKind::Object => "object",
        }
    }

    /// Whether the kind is a JavaScript number.
    pub fn is_number(self) -> (r: bool)
        ensures
            r == is_number_kind(self),
    {
        match self {
            ValueKind::Int32 | ValueKind::Uint32 | ValueKind::Number => true,
            _ => false,
        }
    }

    /// Whether the kind is a JavaScript object.
    pub fn is_object(self) -> (r: bool)
        ensures
            r == is_object_kind(self),
    {
        match self {
            ValueKind::Array | ValueKind::Function | ValueKind::Promise | ValueKind::ArrayBuffer
            | ValueKind::ArrayBufferView | ValueKind::TypedArray | ValueKind::DataView
            | ValueKind::JsMap | ValueKind::JsSet | ValueKind::Date | ValueKind::RegExp
            | ValueKind::Proxy | ValueKind::WasmModule | ValueKind::Object => true,
            _ => false,
        }
    }

    /// The kind's type for JavaScript's operators.
    pub fn operator_type_name(self) -> (r: &'static str)
        ensures
            r@ == operator_type(self),
    {
        match self {
            ValueKind::Undefined => "undefined",
            ValueKind::Null => "null",
            ValueKind::Boolean => "boolean",
            ValueKind::Int32 | ValueKind::Uint32 | ValueKind::Number => "number",
            ValueKind::BigInt => "bigint",
            ValueKind::String => "string",
            ValueKind::Symbol => "symbol",
            _ => "object",
        }
    }

    /// The kind's operator type as a number (see `operator_class`).
    fn operator_class_of(self) -> (r: u8)
        ensures
            r == operator_class(self),
    {
        match self {
            ValueKind::Undefined => 0,
            ValueKind::Null => 1,
            ValueKind::Boolean => 2,
            ValueKind::Int32 | ValueKind::Uint32 | ValueKind::Number => 3,
            ValueKind::BigInt => 4,
            ValueKind::String => 5,
            ValueKind::Symbol => 6,
            _ => 7,
        }
    }

    /// Whether two kinds have the same type for JavaScript's operators.
    pub fn has_same_operator_type(self, other: ValueKind) -> (r: bool)
        ensures
            r == (operator_type(self) == operator_type(other)),
    {
        proof {
            lemma_operator_class_names(self, other);
        }
        self.operator_class_of() == other.operator_class_of()
    }
}

/// The operator type named by an operator class.
spec fn class_name(c: int) -> Seq<char> {
    if c == 0 {
        "undefined"@
    } else if c == 1 {
        "null"@
    } else if c == 2 {
        "boolean"@
    } else if c == 3 {
        "number"@
    } else if c == 4 {
        "bigint"@
    } else if c == 5 {
        "string"@
    } else if c == 6 {
        "symbol"@
    } else {
        "object"@
    }
}

/// Different operator classes have different names.
proof fn lemma_class_names_differ(c: int, d: int)
    requires
        0 <= c <= 7,
        0 <= d <= 7,
        c != d,
    ensures
        class_name(c) != class_name(d),
{
    reveal_strlit("undefined");
    reveal_strlit("null");
    reveal_strlit("boolean");
    reveal_strlit("number");
    reveal_strlit("bigint");
    reveal_strlit("string");
    reveal_strlit("symbol");
    reveal_strlit("object");
    let x = class_name(c);
    let y = class_name(d);
    assert(x.len() != y.len() || x[0] != y[0] || x[1] != y[1]);
}

/// Two kinds have the same operator type exactly when they fall in the same
/// operator class.
proof fn lemma_operator_class_names(a: ValueKind, b: ValueKind)
    ensures
        (operator_class(a) == operator_class(b)) == (operator_type(a) == operator_type(b)),
{
    assert(operator_type(a) == class_name(operator_class(a)));
    assert(operator_type(b) == class_name(operator_class(b)));
    if operator_class(a) != operator_class(b) {
        lemma_class_names_differ(operator_class(a), operator_class(b));
    }
}

/// Having the same operator type is an equivalence on kinds.
pub proof fn same_operator_type_is_equivalence(a: ValueKind, b: ValueKind, c: ValueKind)
    ensures
        operator_type(a) == operator_type(a),
        operator_type(a) == operator_type(b) ==> operator_type(b) == operator_type(a),
        operator_type(a) == operator_type(b) && operator_type(b) == operator_type(c)
            ==> operator_type(a) == operator_type(c),
{
}

/// Kinds are told apart by their names: two kinds have the same name
/// exactly when they are the same kind.
pub proof fn kind_names_are_distinct(a: ValueKind, b: ValueKind)
    ensures
        kind_name(a) == kind_name(b) <==> a == b,
{
    reveal_strlit("undefined");
    reveal_strlit("null");
    reveal_strlit("boolean");
    reveal_strlit("int32");
    reveal_strlit("uint32");
    reveal_strlit("number");
    reveal_strlit("bigint");
    reveal_strlit("string");
    reveal_strlit("symbol");
    reveal_strlit("array");
    reveal_strlit("function");
    reveal_strlit("promise");
    reveal_strlit("array_buffer");
    reveal_strlit("array_buffer_view");
    reveal_strlit("typed_array");
    reveal_strlit("data_view");
    reveal_strlit("map");
    reveal_strlit("set");
    reveal_strlit("date");
    reveal_strlit("regexp");
    reveal_strlit("proxy");
    reveal_strlit("external");
    reveal_strlit("wasm_module");
    reveal_strlit("object");
    if a != b {
        let x = kind_name(a);
        let y = kind_name(b);
        assert(x.len() != y.len() || x[0] != y[0] || x[1] != y[1]);
    }
}

/// Numbers have the operator type "number", objects the operator type
/// "object", and no kind is both a number and an object.
pub proof fn number_and_object_kinds(k: ValueKind)
    ensures
        is_number_kind(k) ==> operator_type(k) == "number"@,
        is_object_kind(k) ==> operator_type(k) == "object"@,
        !(is_number_kind(k) && is_object_kind(k)),
{
}

/// What the engine answers about a value's type, one predicate each, as far
/// as classification needs it.
#[derive(Clone, Copy, Debug, PartialEq, Eq, Structural)]
pub struct ValueTypeFlags {
    pub is_undefined: bool,
    pub is_null: bool,
    pub is_boolean: bool,
    pub is_int32: bool,
    pub is_uint32: bool,
    pub is_number: bool,
    pub is_big_int: bool,
    pub is_string: bool,
    pub is_symbol: bool,
    pub is_array: bool,
    pub is_function: bool,
    pub is_promise: bool,
    pub is_map: bool,
    pub is_set: bool,
    pub is_date: bool,
    pub is_reg_exp: bool,
    pub is_proxy: bool,
    pub is_external: bool,
    pub is_wasm_module_object: bool,
    pub is_array_buffer: bool,
    pub is_data_view: bool,
    pub is_typed_array: bool,
    pub is_array_buffer_view: bool,
}

/// The kind of a value: the first predicate that holds, in the order listed
/// in `ValueTypeFlags`, decides; a value for which none holds is an object.
pub open spec fn classification(f: ValueTypeFlags) -> ValueKind {
    if f.is_undefined {
        ValueKind::Undefined
    } else if f.is_null {
        ValueKind::Null
    } else if f.is_boolean {
        ValueKind::Boolean
    } else if f.is_int32 {
        ValueKind::Int32
    } else if f.is_uint32 {
        ValueKind::Uint32
    } else if f.is_number {
        ValueKind::Number
    } else if f.is_big_int {
        ValueKind::BigInt
    } else if f.is_string {
        ValueKind::String
    } else if f.is_symbol {
        ValueKind::Symbol
    } else if f.is_array {
        ValueKind::Array
    } else if f.is_function {
        ValueKind::Function
    } else if f.is_promise {
        ValueKind::Promise
    } else if f.is_map {
        ValueKind::JsMap
    } else if f.is_set {
        ValueKind::JsSet
    } else if f.is_date {
        ValueKind::Date
    } else if f.is_reg_exp {
        ValueKind::RegExp
    } else if f.is_proxy {
        ValueKind::Proxy
    } else if f.is_external {
        ValueKind::External
    } else if f.is_wasm_module_object {
        ValueKind::WasmModule
    } else if f.is_array_buffer {
        ValueKind::ArrayBuffer
    } else if f.is_data_view {
        ValueKind::DataView
    } else if f.is_typed_array {
        ValueKind::TypedArray
    } else if f.is_array_buffer_view {
        ValueKind::ArrayBufferView
    } else {
        ValueKind::Object
    }
}

/// The position, in the order of `ValueTypeFlags`, of the first of the
/// engine's type predicates that holds for a value; one past the last when
/// none does.
pub open spec fn first_set_flag(f: ValueTypeFlags) -> int {
    if f.is_undefined {
        0
    } else if f.is_null {
        1
    } else if f.is_boolean {
        2
    } else if f.is_int32 {
        3
    } else if f.is_uint32 {
        4
    } else if f.is_number {
        5
    } else if f.is_big_int {
        6
    } else if f.is_string {
        7
    } else if f.is_symbol {
        8
    } else if f.is_array {
        9
    } else if f.is_function {
        10
    } else if f.is_promise {
        11
    } else if f.is_map {
        12
    } else if f.is_set {
        13
    } else if f.is_date {
        14
    } else if f.is_reg_exp {
        15
    } else if f.is_proxy {
        16
    } else if f.is_external {
        17
    } else if f.is_wasm_module_object {
        18
    } else if f.is_array_buffer {
        19
    } else if f.is_data_view {
        20
    } else if f.is_typed_array {
        21
    } else if f.is_array_buffer_view {
        22
    } else {
        23
    }
}

/// The JavaScript type that the `i`-th predicate of `ValueTypeFlags`
/// recognises; past the last, a plain object.
pub open spec fn flag_type_name(i: int) -> Seq<char> {
    if i == 0 {
        "undefined"@
    } else if i == 1 {
        "null"@
    } else if i == 2 {
        "boolean"@
    } else if i == 3 {
        "int32"@
    } else if i == 4 {
        "uint32"@
    } else if i == 5 {
        "number"@
    } else if i == 6 {
        "bigint"@
    } else if i == 7 {
        "string"@
    } else if i == 8 {
        "symbol"@
    } else if i == 9 {
        "array"@
    } else if i == 10 {
        "function"@
    } else if i == 11 {
        "promise"@
    } else if i == 12 {
        "map"@
    } else if i == 13 {
        "set"@
    } else if i == 14 {
        "date"@
    } else if i == 15 {
        "regexp"@
    } else if i == 16 {
        "proxy"@
    } else if i == 17 {
        "external"@
    } else if i == 18 {
        "wasm_module"@
    } else if i == 19 {
        "array_buffer"@
    } else if i == 20 {
        "data_view"@
    } else if i == 21 {
        "typed_array"@
    } else if i == 22 {
        "array_buffer_view"@
    } else {
        "object"@
    }
}

/// A value is reported under the name of the JavaScript type of the first
/// predicate that holds for it: an Array as "array", a Map as "map", a Set as
/// "set", a RegExp as "regexp", a Wasm module object as "wasm_module", and
/// so on; a value for which none holds is an "object".
pub proof fn classification_names_first_type(f: ValueTypeFlags)
    ensures
        kind_name(classification(f)) == flag_type_name(first_set_flag(f)),
        0 <= first_set_flag(f) <= 23,
{
}

/// Classifies a value from the engine's answers about its type.
pub fn classify_value(f: &ValueTypeFlags) -> (k: ValueKind)
    ensures
        k == classification(*f),
{
    if f.is_undefined {
        return ValueKind::Undefined;
    }
    if f.is_null {
        return ValueKind::Null;
    }
    if f.is_boolean {
        return ValueKind::Boolean;
    }
    if f.is_int32 {
        return ValueKind::Int32;
    }
    if f.is_uint32 {
        return ValueKind::Uint32;
    }
    if f.is_number {
        return ValueKind::Number;
    }
    if f.is_big_int {
        return ValueKind::BigInt;
    }
    if f.is_string {
        return ValueKind::String;
    }
    if f.is_symbol {
        return ValueKind::Symbol;
    }
    if f.is_array {
        return ValueKind::Array;
    }
    if f.is_function {
        return ValueKind::Function;
    }
    if f.is_promise {
        return ValueKind::Promise;
    }
    if f.is_map {
        return ValueKind::JsMap;
    }
    if f.is_set {
        return ValueKind::JsSet;
    }
    if f.is_date {
        return ValueKind::Date;
    }
    if f.is_reg_exp {
        return ValueKind::RegExp;
    }
    if f.is_proxy {
        return ValueKind::Proxy;
    }
    if f.is_external {
        return ValueKind::External;
    }
    if f.is_wasm_module_object {
        return ValueKind::WasmModule;
    }
    if f.is_array_buffer {
        return ValueKind::ArrayBuffer;
    }
    if f.is_data_view {
        return ValueKind::DataView;
    }
    if f.is_typed_array {
        return ValueKind::TypedArray;
    }
    if f.is_array_buffer_view {
        return ValueKind::ArrayBufferView;
    }
    ValueKind::Object
}

/// The state of a promise.
#[derive(Clone, Copy, Debug, PartialEq, Eq, Structural)]
pub enum PromiseState {
    Pending,
    Fulfilled,
    Rejected,
}

/// The name of a promise state.
pub open spec fn promise_state_text(s: PromiseState) -> Seq<char> {
    match s {
        PromiseState::Pending => "pending"@,
        PromiseState::Fulfilled => "fulfilled"@,
        PromiseState::Rejected => "rejected"@,
    }
}

/// The name of a promise state.
pub fn promise_state_name(state: PromiseState) -> (r: &'static str)
    ensures
        r@ == promise_state_text(state),
{
    match state {
        PromiseState::Pending => "pending",
        PromiseState::Fulfilled => "fulfilled",
        PromiseState::Rejected => "rejected",
    }
}

} // verus!
