//! Decisions of the generic value wrapper: where a value's length comes
//! from, how it is converted to a Python int or float, and which kinds of
//! values the `as_*` accessors accept.
use vstd::prelude::*;
use crate::kind::ValueTypeFlags;

verus! {

/// Where a value's length comes from.
#[derive(Clone, Copy, Debug, PartialEq, Eq, Structural)]
pub enum LengthSource {
    ArrayLength,
    StringLength,
    BufferByteLength,
    MapSize,
    SetSize,
    TypedArrayLength,
    ViewByteLength,
    /// The number of the object's own property names (for `len()` only).
    OwnKeyCount,
    /// The value has no length.
    NoLength,
}

/// Where a value's length comes from: arrays, strings, ArrayBuffers, Maps,
/// Sets, typed arrays and other views, in that order; for Python's `len()`
/// any other object counts its own property names.
pub open spec fn length_source_of(f: ValueTypeFlags, is_object: bool, for_len: bool) -> LengthSource {
    if f.is_array {
        LengthSource::ArrayLength
    } else if f.is_string {
        LengthSource::StringLength
    } else if f.is_array_buffer {
        LengthSource::BufferByteLength
    } else if f.is_map {
        LengthSource::MapSize
    } else if f.is_set {
        LengthSource::SetSize
    } else if f.is_typed_array {
        LengthSource::TypedArrayLength
    } else if f.is_array_buffer_view {
        LengthSource::ViewByteLength
    } else if for_len && is_object {
        LengthSource::OwnKeyCount
    } else {
        LengthSource::NoLength
    }
}

/// Where a value's length comes from.
pub fn length_source(f: &ValueTypeFlags, is_object: bool, for_len: bool) -> (r: LengthSource)
    ensures
        r == length_source_of(*f, is_object, for_len),
{
    if f.is_array {
        LengthSource::ArrayLength
    } else if f.is_string {
        LengthSource::StringLength
    } else if f.is_array_buffer {
        LengthSource::BufferByteLength
    } else if f.is_map {
        LengthSource::MapSize
    } else if f.is_set {
        LengthSource::SetSize
    } else if f.is_typed_array {
        LengthSource::TypedArrayLength
    } else if f.is_array_buffer_view {
        LengthSource::ViewByteLength
    } else if for_len && is_object {
        LengthSource::OwnKeyCount
    } else {
        LengthSource::NoLength
    }
}

/// A length did not fit the integer type asked for.
#[derive(Clone, Copy, Debug, PartialEq, Eq, Structural)]
pub struct LengthOverflow;

/// A length as a `u32` (the `length` property), refused when it does not
/// fit.
pub fn length_as_u32(size: usize) -> (r: Result<u32, LengthOverflow>)
    ensures
        size <= u32::MAX ==> r == Ok::<u32, LengthOverflow>(size as u32),
        size > u32::MAX ==> r == Err::<u32, LengthOverflow>(LengthOverflow),
{
    if size <= u32::MAX as usize {
        Ok(size as u32)
    } else {
        Err(LengthOverflow)
    }
}

/// How a value becomes a Python int.
#[derive(Clone, Copy, Debug, PartialEq, Eq, Structural)]
pub enum IntSource {
    Int32,
    Uint32,
    BigInt,
    /// The value cannot be converted to an int.
    NotAnInt,
}

/// How a value becomes a Python int: int32 and uint32 numbers and BigInts
/// convert; nothing else does, not even other numbers.
pub fn int_source(is_int32: bool, is_uint32: bool, is_big_int: bool) -> (r: IntSource)
    ensures
        r == (if is_int32 {
            IntSource::Int32
        } else if is_uint32 {
            IntSource::Uint32
        } else if is_big_int {
            IntSource::BigInt
        } else {
            IntSource::NotAnInt
        }),
{
    if is_int32 {
        IntSource::Int32
    } else if is_uint32 {
        IntSource::Uint32
    } else if is_big_int {
        IntSource::BigInt
    } else {
        IntSource::NotAnInt
    }
}

/// A value's exponentiation was given a modulo.
#[derive(Clone, Copy, Debug, PartialEq, Eq, Structural)]
pub struct ModuloUnsupported;

/// JavaScript exponentiation takes no modulo: `pow(a, b, m)` is refused.
pub fn check_pow_modulo(has_modulo: bool) -> (r: Result<(), ModuloUnsupported>)
    ensures
        r is Err <==> has_modulo,
{
    if has_modulo {
        Err(ModuloUnsupported)
    } else {
        Ok(())
    }
}

/// The outcome of a comparison that may fail.
#[derive(Clone, Copy, Debug, PartialEq, Eq, Structural)]
pub enum ComparisonOutcome {
    Value(bool),
    /// The operand could not be converted (a Python `TypeError`).
    TypeError,
    /// Any other failure.
    Failed,
}

/// The result of `==` (or, with `is_inequality`, `!=`) in Python: the
/// JavaScript comparison's result; an operand that cannot be converted makes
/// the values unequal rather than an error.
pub fn equality_result(outcome: ComparisonOutcome, is_inequality: bool) -> (r: Option<bool>)
    ensures
        r == match outcome {
            ComparisonOutcome::Value(b) => Some(b),
            ComparisonOutcome::TypeError => Some(is_inequality),
            ComparisonOutcome::Failed => None,
        },
{
    match outcome {
        ComparisonOutcome::Value(b) => Some(b),
        ComparisonOutcome::TypeError => Some(is_inequality),
        ComparisonOutcome::Failed => None,
    }
}

} // verus!
