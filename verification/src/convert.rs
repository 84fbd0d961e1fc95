//! The decisions behind converting values between Python and JavaScript:
//! the depth limit, how a Python int is encoded, which conversion a
//! JavaScript value gets, and how Map and Set contents are laid out.
use vstd::prelude::*;
use crate::kind::ValueTypeFlags;
use crate::text::append_str;

verus! {

/// The deepest nesting a conversion follows.
pub const MAX_CONVERSION_DEPTH: usize = 64;

/// A conversion went deeper than `MAX_CONVERSION_DEPTH`.
#[derive(Clone, Copy, Debug, PartialEq, Eq, Structural)]
pub struct TooDeep;

/// Whether a conversion may go on at a depth: up to and including the limit.
pub fn check_depth(depth: usize) -> (r: Result<(), TooDeep>)
    ensures
        r is Ok <==> depth <= MAX_CONVERSION_DEPTH,
{
    if depth > MAX_CONVERSION_DEPTH {
        Err(TooDeep)
    } else {
        Ok(())
    }
}

/// How a Python int becomes a JavaScript value: a number when it fits in
/// an `i32` or a `u32`, else a BigInt when it fits in an `i64` or a `u64`.
#[derive(Clone, Copy, Debug, PartialEq, Eq, Structural)]
pub enum IntEncoding {
    Int32(i32),
    Uint32(u32),
    BigIntI64(i64),
    BigIntU64(u64),
    /// The int does not fit in 64 bits.
    TooLarge,
}

/// The encoding of an int, trying `i32`, `u32`, `i64` and `u64` in turn.
pub open spec fn int_encoding_of(v: int) -> IntEncoding {
    if i32::MIN <= v <= i32::MAX {
        IntEncoding::Int32(v as i32)
    } else if 0 <= v <= u32::MAX {
        IntEncoding::Uint32(v as u32)
    } else if i64::MIN <= v <= i64::MAX {
        IntEncoding::BigIntI64(v as i64)
    } else if 0 <= v <= u64::MAX {
        IntEncoding::BigIntU64(v as u64)
    } else {
        IntEncoding::TooLarge
    }
}

/// The encoding of a Python int; `None` stands for an int beyond the range
/// of `i128`, which fits in none of the four.
pub fn int_encoding(value: Option<i128>) -> (r: IntEncoding)
    ensures
        r == match value {
            Some(v) => int_encoding_of(v as int),
            None => IntEncoding::TooLarge,
        },
{
    match value {
        None => IntEncoding::TooLarge,
        Some(v) => {
            if i32::MIN as i128 <= v && v <= i32::MAX as i128 {
                IntEncoding::Int32(v as i32)
            } else if 0 <= v && v <= u32::MAX as i128 {
                IntEncoding::Uint32(v as u32)
            } else if i64::MIN as i128 <= v && v <= i64::MAX as i128 {
                IntEncoding::BigIntI64(v as i64)
            } else if 0 <= v && v <= u64::MAX as i128 {
                IntEncoding::BigIntU64(v as u64)
            } else {
                IntEncoding::TooLarge
            }
        },
    }
}

/// The encoding keeps the int's value.
pub proof fn int_encoding_keeps_value(v: int)
    ensures
        match int_encoding_of(v) {
            IntEncoding::Int32(x) => x == v,
            IntEncoding::Uint32(x) => x == v && v > i32::MAX,
            IntEncoding::BigIntI64(x) => x == v && (v < i32::MIN || v > u32::MAX),
            IntEncoding::BigIntU64(x) => x == v && v > i64::MAX,
            IntEncoding::TooLarge => v < i64::MIN || v > u64::MAX,
        },
{
}

/// A Python sequence is too long for a JavaScript array.
#[derive(Clone, Copy, Debug, PartialEq, Eq, Structural)]
pub struct SequenceTooLong;

/// The length a JavaScript array gets for a Python sequence.
pub fn array_length(len: usize) -> (r: Result<i32, SequenceTooLong>)
    ensures
        len <= i32::MAX ==> r == Ok::<i32, SequenceTooLong>(len as i32),
        len > i32::MAX ==> r == Err::<i32, SequenceTooLong>(SequenceTooLong),
{
    if len <= i32::MAX as usize {
        Ok(len as i32)
    } else {
        Err(SequenceTooLong)
    }
}

/// What a JavaScript value becomes in Python.
#[derive(Clone, Copy, Debug, PartialEq, Eq, Structural)]
pub enum PythonConversion {
    NoneValue,
    Bool,
    Int32,
    Uint32,
    Float,
    BigInt,
    Symbol,
    Str,
    ExternalPayload,
    BufferBytes,
    ViewBytes,
    List,
    MapEntries,
    SetValues,
    DateTime,
    FunctionInfo,
    PromiseInfo,
    Dict,
}

/// What a JavaScript value becomes in Python: the first of these that holds
/// decides — undefined or null, boolean, int32, uint32, number, BigInt,
/// symbol, string, External, ArrayBuffer, ArrayBufferView, Array, Map, Set,
/// Date, function, promise — and any other value becomes a dict of its own
/// properties.
pub open spec fn python_conversion_of(f: ValueTypeFlags) -> PythonConversion {
    if f.is_undefined || f.is_null {
        PythonConversion::NoneValue
    } else if f.is_boolean {
        PythonConversion::Bool
    } else if f.is_int32 {
        PythonConversion::Int32
    } else if f.is_uint32 {
        PythonConversion::Uint32
    } else if f.is_number {
        PythonConversion::Float
    } else if f.is_big_int {
        PythonConversion::BigInt
    } else if f.is_symbol {
        PythonConversion::Symbol
    } else if f.is_string {
        PythonConversion::Str
    } else if f.is_external {
        PythonConversion::ExternalPayload
    } else if f.is_array_buffer {
        PythonConversion::BufferBytes
    } else if f.is_array_buffer_view {
        PythonConversion::ViewBytes
    } else if f.is_array {
        PythonConversion::List
    } else if f.is_map {
        PythonConversion::MapEntries
    } else if f.is_set {
        PythonConversion::SetValues
    } else if f.is_date {
        PythonConversion::DateTime
    } else if f.is_function {
        PythonConversion::FunctionInfo
    } else if f.is_promise {
        PythonConversion::PromiseInfo
    } else {
        PythonConversion::Dict
    }
}

/// What each kind of JavaScript value becomes in Python, taking the
/// value's type predicates in order: undefined and null become None, a
/// boolean a bool, int32 and uint32 numbers ints, other numbers floats, a
/// BigInt an int, a symbol and a string str, an External its payload, an
/// ArrayBuffer or any view its bytes, an Array a list, a Map its entries, a
/// Set its values, a Date a datetime, a function and a promise their
/// wrappers, and any other object a dict of its own properties.
pub proof fn conversions_by_kind(f: ValueTypeFlags)
    ensures
        (f.is_undefined || f.is_null)
            ==> python_conversion_of(f) == PythonConversion::NoneValue,
        !(f.is_undefined || f.is_null) && (f.is_boolean)
            ==> python_conversion_of(f) == PythonConversion::Bool,
        !(f.is_undefined || f.is_null) && !(f.is_boolean) && (f.is_int32)
            ==> python_conversion_of(f) == PythonConversion::Int32,
        !(f.is_undefined || f.is_null) && !(f.is_boolean) && !(f.is_int32) && (f.is_uint32)
            ==> python_conversion_of(f) == PythonConversion::Uint32,
        !(f.is_undefined || f.is_null) && !(f.is_boolean) && !(f.is_int32) && !(f.is_uint32) && (f.is_number)
            ==> python_conversion_of(f) == PythonConversion::Float,
        !(f.is_undefined || f.is_null) && !(f.is_boolean) && !(f.is_int32) && !(f.is_uint32) && !(f.is_number) && (f.is_big_int)
            ==> python_conversion_of(f) == PythonConversion::BigInt,
        !(f.is_undefined || f.is_null) && !(f.is_boolean) && !(f.is_int32) && !(f.is_uint32) && !(f.is_number) && !(f.is_big_int) && (f.is_symbol)
            ==> python_conversion_of(f) == PythonConversion::Symbol,
        !(f.is_undefined || f.is_null) && !(f.is_boolean) && !(f.is_int32) && !(f.is_uint32) && !(f.is_number) && !(f.is_big_int) && !(f.is_symbol) && (f.is_string)
            ==> python_conversion_of(f) == PythonConversion::Str,
        !(f.is_undefined || f.is_null) && !(f.is_boolean) && !(f.is_int32) && !(f.is_uint32) && !(f.is_number) && !(f.is_big_int) && !(f.is_symbol) && !(f.is_string) && (f.is_external)
            ==> python_conversion_of(f) == PythonConversion::ExternalPayload,
        !(f.is_undefined || f.is_null) && !(f.is_boolean) && !(f.is_int32) && !(f.is_uint32) && !(f.is_number) && !(f.is_big_int) && !(f.is_symbol) && !(f.is_string) && !(f.is_external) && (f.is_array_buffer)
            ==> python_conversion_of(f) == PythonConversion::BufferBytes,
        !(f.is_undefined || f.is_null) && !(f.is_boolean) && !(f.is_int32) && !(f.is_uint32) && !(f.is_number) && !(f.is_big_int) && !(f.is_symbol) && !(f.is_string) && !(f.is_external) && !(f.is_array_buffer) && (f.is_array_buffer_view)
            ==> python_conversion_of(f) == PythonConversion::ViewBytes,
        !(f.is_undefined || f.is_null) && !(f.is_boolean) && !(f.is_int32) && !(f.is_uint32) && !(f.is_number) && !(f.is_big_int) && !(f.is_symbol) && !(f.is_string) && !(f.is_external) && !(f.is_array_buffer) && !(f.is_array_buffer_view) && (f.is_array)
            ==> python_conversion_of(f) == PythonConversion::List,
        !(f.is_undefined || f.is_null) && !(f.is_boolean) && !(f.is_int32) && !(f.is_uint32) && !(f.is_number) && !(f.is_big_int) && !(f.is_symbol) && !(f.is_string) && !(f.is_external) && !(f.is_array_buffer) && !(f.is_array_buffer_view) && !(f.is_array) && (f.is_map)
            ==> python_conversion_of(f) == PythonConversion::MapEntries,
        !(f.is_undefined || f.is_null) && !(f.is_boolean) && !(f.is_int32) && !(f.is_uint32) && !(f.is_number) && !(f.is_big_int) && !(f.is_symbol) && !(f.is_string) && !(f.is_external) && !(f.is_array_buffer) && !(f.is_array_buffer_view) && !(f.is_array) && !(f.is_map) && (f.is_set)
            ==> python_conversion_of(f) == PythonConversion::SetValues,
        !(f.is_undefined || f.is_null) && !(f.is_boolean) && !(f.is_int32) && !(f.is_uint32) && !(f.is_number) && !(f.is_big_int) && !(f.is_symbol) && !(f.is_string) && !(f.is_external) && !(f.is_array_buffer) && !(f.is_array_buffer_view) && !(f.is_array) && !(f.is_map) && !(f.is_set) && (f.is_date)
            ==> python_conversion_of(f) == PythonConversion::DateTime,
        !(f.is_undefined || f.is_null) && !(f.is_boolean) && !(f.is_int32) && !(f.is_uint32) && !(f.is_number) && !(f.is_big_int) && !(f.is_symbol) && !(f.is_string) && !(f.is_external) && !(f.is_array_buffer) && !(f.is_array_buffer_view) && !(f.is_array) && !(f.is_map) && !(f.is_set) && !(f.is_date) && (f.is_function)
            ==> python_conversion_of(f) == PythonConversion::FunctionInfo,
        !(f.is_undefined || f.is_null) && !(f.is_boolean) && !(f.is_int32) && !(f.is_uint32) && !(f.is_number) && !(f.is_big_int) && !(f.is_symbol) && !(f.is_string) && !(f.is_external) && !(f.is_array_buffer) && !(f.is_array_buffer_view) && !(f.is_array) && !(f.is_map) && !(f.is_set) && !(f.is_date) && !(f.is_function) && (f.is_promise)
            ==> python_conversion_of(f) == PythonConversion::PromiseInfo,
        !(f.is_undefined || f.is_null) && !(f.is_boolean) && !(f.is_int32) && !(f.is_uint32) && !(f.is_number) && !(f.is_big_int) && !(f.is_symbol) && !(f.is_string) && !(f.is_external) && !(f.is_array_buffer) && !(f.is_array_buffer_view) && !(f.is_array) && !(f.is_map) && !(f.is_set) && !(f.is_date) && !(f.is_function) && !(f.is_promise)
            ==> python_conversion_of(f) == PythonConversion::Dict,
{
}

/// What a JavaScript value becomes in Python.
pub fn python_conversion(f: &ValueTypeFlags) -> (r: PythonConversion)
    ensures
        r == python_conversion_of(*f),
{
    if f.is_undefined || f.is_null {
        PythonConversion::NoneValue
    } else if f.is_boolean {
        PythonConversion::Bool
    } else if f.is_int32 {
        PythonConversion::Int32
    } else if f.is_uint32 {
        PythonConversion::Uint32
    } else if f.is_number {
        PythonConversion::Float
    } else if f.is_big_int {
        PythonConversion::BigInt
    } else if f.is_symbol {
        PythonConversion::Symbol
    } else if f.is_string {
        PythonConversion::Str
    } else if f.is_external {
        PythonConversion::ExternalPayload
    } else if f.is_array_buffer {
        PythonConversion::BufferBytes
    } else if f.is_array_buffer_view {
        PythonConversion::ViewBytes
    } else if f.is_array {
        PythonConversion::List
    } else if f.is_map {
        PythonConversion::MapEntries
    } else if f.is_set {
        PythonConversion::SetValues
    } else if f.is_date {
        PythonConversion::DateTime
    } else if f.is_function {
        PythonConversion::FunctionInfo
    } else if f.is_promise {
        PythonConversion::PromiseInfo
    } else {
        PythonConversion::Dict
    }
}

/// Whether converting a value of this kind goes one level deeper: arrays,
/// maps, sets, promises and plain objects hold other values.
pub open spec fn nests(c: PythonConversion) -> bool {
    c == PythonConversion::List || c == PythonConversion::MapEntries || c == PythonConversion::SetValues
        || c == PythonConversion::PromiseInfo || c == PythonConversion::Dict
}

/// The depth at which the values inside a converted value are converted.
pub fn inner_depth(c: PythonConversion, depth: usize) -> (r: usize)
    requires
        depth <= MAX_CONVERSION_DEPTH,
    ensures
        r == (if nests(c) {
            depth + 1
        } else {
            depth as int
        }),
{
    match c {
        PythonConversion::List | PythonConversion::MapEntries | PythonConversion::SetValues
        | PythonConversion::PromiseInfo | PythonConversion::Dict => depth + 1,
        _ => depth,
    }
}

/// The step between the values of a Set in its flat array: the array holds
/// the values alone when it is as long as the set, and key-value pairs
/// otherwise.
pub fn set_value_step(entries_len: u32, size: usize) -> (r: u32)
    ensures
        r == (if entries_len as int == size as int {
            1u32
        } else {
            2u32
        }),
{
    if entries_len as usize == size {
        1
    } else {
        2
    }
}

/// The indices visited by a loop from 0 below `len` with step `step`.
pub open spec fn stepped_indices(len: nat, step: nat) -> Seq<nat>
    decreases len,
{
    if len == 0 || step == 0 {
        Seq::empty()
    } else {
        let last = (len - 1) as nat;
        if last % step == 0 {
            stepped_indices(last, step).push(last)
        } else {
            stepped_indices(last, step)
        }
    }
}

/// The indices from 0 below `len` with step `step`: those of a Map's keys
/// (step 2) or of a Set's values.
pub fn stepped(len: u32, step: u32) -> (r: Vec<u32>)
    requires
        step >= 1,
    ensures
        r@.map_values(|i: u32| i as nat) == stepped_indices(len as nat, step as nat),
{
    let mut out: Vec<u32> = Vec::new();
    let mut i: u32 = 0;
    while i < len
        invariant
            step >= 1,
            i <= len,
            out@.map_values(|x: u32| x as nat) == stepped_indices(i as nat, step as nat),
        decreases len - i,
    {
        proof {
            assert(stepped_indices((i + 1) as nat, step as nat) == if (i as nat) % (step as nat) == 0 {
                stepped_indices(i as nat, step as nat).push(i as nat)
            } else {
                stepped_indices(i as nat, step as nat)
            });
        }
        if i % step == 0 {
            let ghost before = out@;
            out.push(i);
            assert(out@.map_values(|x: u32| x as nat) =~= before.map_values(|x: u32| x as nat).push(i as nat));
        }
        i = i + 1;
    }
    out
}

/// The text of a symbol: `Symbol()` without a description, else
/// `Symbol(description)`.
pub open spec fn symbol_text(description: Option<Seq<char>>) -> Seq<char> {
    match description {
        None => "Symbol()"@,
        Some(d) => "Symbol("@ + d + ")"@,
    }
}

/// The text of a symbol.
pub fn symbol_to_string(description: Option<&str>) -> (r: String)
    ensures
        r@ == symbol_text(
            match description {
                Some(d) => Some(d@),
                None => None,
            },
        ),
{
    match description {
        None => String::from_str("Symbol()"),
        Some(d) => {
            let mut r = String::from_str("Symbol(");
            append_str(&mut r, d);
            append_str(&mut r, ")");
            r
        },
    }
}

/// Whether a promise's result is reported: once it is no longer pending.
pub fn promise_has_result(state: crate::kind::PromiseState) -> (r: bool)
    ensures
        r == (state != crate::kind::PromiseState::Pending),
{
    match state {
        crate::kind::PromiseState::Pending => false,
        _ => true,
    }
}

/// The shapes a Python argument list may have.
#[derive(Clone, Copy, Debug, PartialEq, Eq, Structural)]
pub enum ArgumentsShape {
    Missing,
    NoneValue,
    ListOrTuple,
    Other,
}

/// Function arguments were neither a list nor a tuple.
#[derive(Clone, Copy, Debug, PartialEq, Eq, Structural)]
pub struct BadArguments;

/// Whether the arguments of a call are converted one by one: no arguments
/// or `None` give none, a list or a tuple gives its items, and anything else
/// is refused.
pub fn arguments_are_items(shape: ArgumentsShape) -> (r: Result<bool, BadArguments>)
    ensures
        r == match shape {
            ArgumentsShape::Missing | ArgumentsShape::NoneValue => Ok::<bool, BadArguments>(false),
            ArgumentsShape::ListOrTuple => Ok::<bool, BadArguments>(true),
            ArgumentsShape::Other => Err::<bool, BadArguments>(BadArguments),
        },
{
    match shape {
        ArgumentsShape::Missing | ArgumentsShape::NoneValue => Ok(false),
        ArgumentsShape::ListOrTuple => Ok(true),
        ArgumentsShape::Other => Err(BadArguments),
    }
}

/// The message for a Python value that cannot be converted.
pub open spec fn unconvertible_text(kind_name: Seq<char>) -> Seq<char> {
    "Cannot convert Python value of type '"@ + kind_name + "' to a V8 value."@
}

/// The message for a Python value that cannot be converted.
pub fn unconvertible_message(kind_name: &str) -> (r: String)
    ensures
        r@ == unconvertible_text(kind_name@),
{
    let mut r = String::from_str("Cannot convert Python value of type '");
    append_str(&mut r, kind_name);
    append_str(&mut r, "' to a V8 value.");
    r
}

} // verus!
