//! Typed array kinds, how their names are read, and the offset and length
//! checks for views over an ArrayBuffer.
use vstd::prelude::*;
use crate::text::{append_str, chars_of};

verus! {

/// The element type of a typed array.
#[derive(Clone, Copy, Debug, PartialEq, Eq, Structural)]
pub enum TypedArrayKind {
    Int8,
    Uint8,
    Uint8Clamped,
    Int16,
    Uint16,
    Int32,
    Uint32,
    BigInt64,
    BigUint64,
    Float16,
    Float32,
    Float64,
}

/// The size in bytes of one element.
pub open spec fn element_bytes(k: TypedArrayKind) -> int {
    match k {
        TypedArrayKind::Int8 | TypedArrayKind::Uint8 | TypedArrayKind::Uint8Clamped => 1,
        TypedArrayKind::Int16 | TypedArrayKind::Uint16 | TypedArrayKind::Float16 => 2,
        TypedArrayKind::Int32 | TypedArrayKind::Uint32 | TypedArrayKind::Float32 => 4,
        TypedArrayKind::BigInt64 | TypedArrayKind::BigUint64 | TypedArrayKind::Float64 => 8,
    }
}

/// Whether a character is dropped from a kind's name before it is read.
pub open spec fn is_name_separator(c: char) -> bool {
    c == '_' || c == '-' || c == ' '
}

/// A character with ASCII upper case letters made lower case.
pub open spec fn ascii_lower(c: char) -> char {
    if 'A' <= c <= 'Z' {
        ((c as u32) + 32) as char
    } else {
        c
    }
}

/// A kind's name as it is read: separators dropped, letters lower-cased.
pub open spec fn normalized_name(s: Seq<char>) -> Seq<char>
    decreases s.len(),
{
    if s.len() == 0 {
        Seq::empty()
    } else {
        let rest = normalized_name(s.drop_last());
        if is_name_separator(s.last()) {
            rest
        } else {
            rest.push(ascii_lower(s.last()))
        }
    }
}

/// The kind that a normalized name stands for.
pub open spec fn kind_for_name(n: Seq<char>) -> Option<TypedArrayKind> {
    if n == "int8"@ || n == "i8"@ || n == "int8array"@ {
        Some(TypedArrayKind::Int8)
    } else if n == "uint8"@ || n == "u8"@ || n == "uint8array"@ {
        Some(TypedArrayKind::Uint8)
    } else if n == "uint8clamped"@ || n == "uint8clampedarray"@ {
        Some(TypedArrayKind::Uint8Clamped)
    } else if n == "int16"@ || n == "i16"@ || n == "int16array"@ {
        Some(TypedArrayKind::Int16)
    } else if n == "uint16"@ || n == "u16"@ || n == "uint16array"@ {
        Some(TypedArrayKind::Uint16)
    } else if n == "int32"@ || n == "i32"@ || n == "int32array"@ {
        Some(TypedArrayKind::Int32)
    } else if n == "uint32"@ || n == "u32"@ || n == "uint32array"@ {
        Some(TypedArrayKind::Uint32)
    } else if n == "bigint64"@ || n == "bigint64array"@ {
        Some(TypedArrayKind::BigInt64)
    } else if n == "biguint64"@ || n == "biguint64array"@ {
        Some(TypedArrayKind::BigUint64)
    } else if n == "float16"@ || n == "f16"@ || n == "float16array"@ {
        Some(TypedArrayKind::Float16)
    } else if n == "float32"@ || n == "f32"@ || n == "float32array"@ {
        Some(TypedArrayKind::Float32)
    } else if n == "float64"@ || n == "f64"@ || n == "float64array"@ {
        Some(TypedArrayKind::Float64)
    } else {
        None
    }
}

/// The message for a kind that is not known.
pub open spec fn unsupported_kind_message(kind: Seq<char>) -> Seq<char> {
    "Unsupported TypedArray kind: "@ + kind + "."@
}

/// Lower-cases an ASCII upper case letter.
fn to_ascii_lower(c: char) -> (r: char)
    ensures
        r == ascii_lower(c),
{
    if 'A' <= c && c <= 'Z' {
        let b: u8 = (c as u32 + 32) as u8;
        b as char
    } else {
        c
    }
}

/// The name of a kind as it is read.
pub fn normalize_kind_name(kind: &str) -> (r: Vec<char>)
    ensures
        r@ == normalized_name(kind@),
{
    let chars = chars_of(kind);
    let mut out: Vec<char> = Vec::new();
    for i in 0..chars.len()
        invariant
            chars@ == kind@,
            out@ == normalized_name(chars@.take(i as int)),
    {
        let c = chars[i];
        proof {
            assert(chars@.take(i + 1).drop_last() =~= chars@.take(i as int));
            assert(chars@.take(i + 1).last() == c);
        }
        if !(c == '_' || c == '-' || c == ' ') {
            out.push(to_ascii_lower(c));
        }
    }
    assert(chars@.take(chars@.len() as int) =~= chars@);
    out
}

/// Whether a vector of characters spells a string literal.
fn spells(v: &Vec<char>, s: &str) -> (r: bool)
    ensures
        r == (v@ == s@),
{
    let t = chars_of(s);
    if t.len() != v.len() {
        return false;
    }
    for i in 0..t.len()
        invariant
            t@ == s@,
            t@.len() == v@.len(),
            forall|j: int| 0 <= j < i ==> t@[j] == v@[j],
    {
        if t[i] != v[i] {
            return false;
        }
    }
    assert(t@ =~= v@);
    true
}

impl TypedArrayKind {
    /// Reads a kind's name: separators ('_', '-', ' ') are dropped and
    /// letters lower-cased, and then a short name ("u8"), a type name
    /// ("uint8") or the constructor's name ("uint8array") is accepted.
    /// Non-ASCII characters are kept as they are: lower-casing them could not
    /// give a name that is accepted, since the names are ASCII and have no
    /// letter that a non-ASCII character lower-cases to.  An unknown name is
    /// refused with a message that quotes it.
    pub fn parse(kind: &str) -> (r: Result<TypedArrayKind, String>)
        ensures
            match kind_for_name(normalized_name(kind@)) {
                Some(k) => r == Ok::<TypedArrayKind, String>(k),
                None => r matches Err(m) && m@ == unsupported_kind_message(kind@),
            },
    {
        let n = normalize_kind_name(kind);
        if spells(&n, "int8") || spells(&n, "i8") || spells(&n, "int8array") {
            Ok(TypedArrayKind::Int8)
        } else if spells(&n, "uint8") || spells(&n, "u8") || spells(&n, "uint8array") {
            Ok(TypedArrayKind::Uint8)
        } else if spells(&n, "uint8clamped") || spells(&n, "uint8clampedarray") {
            Ok(TypedArrayKind::Uint8Clamped)
        } else if spells(&n, "int16") || spells(&n, "i16") || spells(&n, "int16array") {
            Ok(TypedArrayKind::Int16)
        } else if spells(&n, "uint16") || spells(&n, "u16") || spells(&n, "uint16array") {
            Ok(TypedArrayKind::Uint16)
        } else if spells(&n, "int32") || spells(&n, "i32") || spells(&n, "int32array") {
            Ok(TypedArrayKind::Int32)
        } else if spells(&n, "uint32") || spells(&n, "u32") || spells(&n, "uint32array") {
            Ok(TypedArrayKind::Uint32)
        } else if spells(&n, "bigint64") || spells(&n, "bigint64array") {
            Ok(TypedArrayKind::BigInt64)
        } else if spells(&n, "biguint64") || spells(&n, "biguint64array") {
            Ok(TypedArrayKind::BigUint64)
        } else if spells(&n, "float16") || spells(&n, "f16") || spells(&n, "float16array") {
            Ok(TypedArrayKind::Float16)
        } else if spells(&n, "float32") || spells(&n, "f32") || spells(&n, "float32array") {
            Ok(TypedArrayKind::Float32)
        } else if spells(&n, "float64") || spells(&n, "f64") || spells(&n, "float64array") {
            Ok(TypedArrayKind::Float64)
        } else {
            let mut message = String::from_str("Unsupported TypedArray kind: ");
            append_str(&mut message, kind);
            append_str(&mut message, ".");
            Err(message)
        }
    }

    /// The size in bytes of one element.
    pub fn element_size(self) -> (r: usize)
        ensures
            r == element_bytes(self),
            r == 1 || r == 2 || r == 4 || r == 8,
    {
        match self {
            TypedArrayKind::Int8 | TypedArrayKind::Uint8 | TypedArrayKind::Uint8Clamped => 1,
            TypedArrayKind::Int16 | TypedArrayKind::Uint16 | TypedArrayKind::Float16 => 2,
            TypedArrayKind::Int32 | TypedArrayKind::Uint32 | TypedArrayKind::Float32 => 4,
            TypedArrayKind::BigInt64 | TypedArrayKind::BigUint64 | TypedArrayKind::Float64 => 8,
        }
    }
}

/// Why a view over an ArrayBuffer was refused.
#[derive(Clone, Copy, Debug, PartialEq, Eq, Structural)]
pub enum ViewError {
    /// The byte offset lies beyond the end of the buffer.
    OffsetBeyondBuffer,
    /// The byte offset is not a multiple of the element size.
    MisalignedOffset,
    /// The length in bytes does not fit in a `usize`.
    LengthOverflow,
    /// The view would reach beyond the end of the buffer.
    LengthBeyondBuffer,
    /// With no length given, the bytes after the offset are not a whole
    /// number of elements.
    UnalignedRemainder,
}

/// The bytes of a buffer from an offset on.
pub fn checked_view_available(byte_length: usize, byte_offset: usize) -> (r: Result<usize, ViewError>)
    ensures
        byte_offset <= byte_length ==> r == Ok::<usize, ViewError>((byte_length - byte_offset) as usize),
        byte_offset > byte_length ==> r == Err::<usize, ViewError>(ViewError::OffsetBeyondBuffer),
{
    if byte_offset > byte_length {
        return Err(ViewError::OffsetBeyondBuffer);
    }
    Ok(byte_length - byte_offset)
}

/// The number of elements of a typed array view, with the checks made in
/// this order: the offset lies within the buffer, is aligned to
/// the element size, and then either the given length fits (computed without
/// overflow) or, with none given, the rest of the buffer is a whole number of
/// elements.
pub open spec fn typed_array_length_spec(
    kind: TypedArrayKind,
    byte_length: usize,
    byte_offset: usize,
    length: Option<usize>,
) -> Result<usize, ViewError> {
    let size = element_bytes(kind);
    if byte_offset > byte_length {
        Err(ViewError::OffsetBeyondBuffer)
    } else if (byte_offset as int) % size != 0 {
        Err(ViewError::MisalignedOffset)
    } else {
        let available = byte_length - byte_offset;
        match length {
            Some(n) => if n * size > usize::MAX {
                Err(ViewError::LengthOverflow)
            } else if n * size > available {
                Err(ViewError::LengthBeyondBuffer)
            } else {
                Ok(n)
            },
            None => if available % size != 0 {
                Err(ViewError::UnalignedRemainder)
            } else {
                Ok((available / size) as usize)
            },
        }
    }
}

/// The number of elements of a typed array view over a buffer.
pub fn typed_array_length(
    kind: TypedArrayKind,
    byte_length: usize,
    byte_offset: usize,
    length: Option<usize>,
) -> (r: Result<usize, ViewError>)
    ensures
        r == typed_array_length_spec(kind, byte_length, byte_offset, length),
        r matches Ok(n) ==> byte_offset + n * element_bytes(kind) <= byte_length,
{
    let element_size = kind.element_size();
    let available = match checked_view_available(byte_length, byte_offset) {
        Ok(a) => a,
        Err(e) => return Err(e),
    };
    if byte_offset % element_size != 0 {
        return Err(ViewError::MisalignedOffset);
    }
    match length {
        Some(length) => {
            let required = match length.checked_mul(element_size) {
                Some(b) => b,
                None => return Err(ViewError::LengthOverflow),
            };
            if required > available {
                return Err(ViewError::LengthBeyondBuffer);
            }
            Ok(length)
        },
        None => {
            if available % element_size != 0 {
                return Err(ViewError::UnalignedRemainder);
            }
            proof {
                let s = element_size as int;
                let q = available as int / s;
                assert(q * s == available as int) by (nonlinear_arith)
                    requires
                        s > 0,
                        available as int % s == 0,
                        q == available as int / s,
                ;
            }
            Ok(available / element_size)
        },
    }
}

/// The byte length of a DataView over a buffer from an offset on: the given
/// length, or all of the rest of the buffer.
pub fn data_view_byte_length(byte_length: usize, byte_offset: usize, requested: Option<usize>) -> (r: Result<usize, ViewError>)
    ensures
        byte_offset > byte_length ==> r == Err::<usize, ViewError>(ViewError::OffsetBeyondBuffer),
        byte_offset <= byte_length ==> match requested {
            Some(n) => if n > byte_length - byte_offset {
                r == Err::<usize, ViewError>(ViewError::LengthBeyondBuffer)
            } else {
                r == Ok::<usize, ViewError>(n)
            },
            None => r == Ok::<usize, ViewError>((byte_length - byte_offset) as usize),
        },
{
    let available = match checked_view_available(byte_length, byte_offset) {
        Ok(a) => a,
        Err(e) => return Err(e),
    };
    let n = match requested {
        Some(n) => n,
        None => available,
    };
    if n > available {
        return Err(ViewError::LengthBeyondBuffer);
    }
    Ok(n)
}

/// What the engine answers about a typed array's element type.
#[derive(Clone, Copy, Debug, PartialEq, Eq, Structural)]
pub struct TypedArrayFlags {
    pub is_uint8_array: bool,
    pub is_uint8_clamped_array: bool,
    pub is_int8_array: bool,
    pub is_uint16_array: bool,
    pub is_int16_array: bool,
    pub is_uint32_array: bool,
    pub is_int32_array: bool,
    pub is_big_uint64_array: bool,
    pub is_big_int64_array: bool,
    pub is_float16_array: bool,
    pub is_float32_array: bool,
    pub is_float64_array: bool,
}

/// A typed array's constructor name: the first predicate that holds, in the
/// order listed in `TypedArrayFlags`, decides; "TypedArray" if none does.
pub open spec fn typed_array_name(f: TypedArrayFlags) -> Seq<char> {
    if f.is_uint8_array {
        "Uint8Array"@
    } else if f.is_uint8_clamped_array {
        "Uint8ClampedArray"@
    } else if f.is_int8_array {
        "Int8Array"@
    } else if f.is_uint16_array {
        "Uint16Array"@
    } else if f.is_int16_array {
        "Int16Array"@
    } else if f.is_uint32_array {
        "Uint32Array"@
    } else if f.is_int32_array {
        "Int32Array"@
    } else if f.is_big_uint64_array {
        "BigUint64Array"@
    } else if f.is_big_int64_array {
        "BigInt64Array"@
    } else if f.is_float16_array {
        "Float16Array"@
    } else if f.is_float32_array {
        "Float32Array"@
    } else if f.is_float64_array {
        "Float64Array"@
    } else {
        "TypedArray"@
    }
}

/// A typed array's constructor name.
pub fn typed_array_type_name(f: &TypedArrayFlags) -> (r: &'static str)
    ensures
        r@ == typed_array_name(*f),
{
    if f.is_uint8_array {
        "Uint8Array"
    } else if f.is_uint8_clamped_array {
        "Uint8ClampedArray"
    } else if f.is_int8_array {
        "Int8Array"
    } else if f.is_uint16_array {
        "Uint16Array"
    } else if f.is_int16_array {
        "Int16Array"
    } else if f.is_uint32_array {
        "Uint32Array"
    } else if f.is_int32_array {
        "Int32Array"
    } else if f.is_big_uint64_array {
        "BigUint64Array"
    } else if f.is_big_int64_array {
        "BigInt64Array"
    } else if f.is_float16_array {
        "Float16Array"
    } else if f.is_float32_array {
        "Float32Array"
    } else if f.is_float64_array {
        "Float64Array"
    } else {
        "TypedArray"
    }
}

/// An element takes as many bytes as its type's bit width divided by eight:
/// one for the 8-bit kinds, two for the 16-bit ones, four for the 32-bit
/// ones and eight for the 64-bit ones.
pub proof fn element_sizes_follow_bit_widths(kind: TypedArrayKind)
    ensures
        (kind == TypedArrayKind::Int8 || kind == TypedArrayKind::Uint8 || kind == TypedArrayKind::Uint8Clamped)
            ==> element_bytes(kind) * 8 == 8,
        (kind == TypedArrayKind::Int16 || kind == TypedArrayKind::Uint16 || kind == TypedArrayKind::Float16)
            ==> element_bytes(kind) * 8 == 16,
        (kind == TypedArrayKind::Int32 || kind == TypedArrayKind::Uint32 || kind == TypedArrayKind::Float32)
            ==> element_bytes(kind) * 8 == 32,
        (kind == TypedArrayKind::BigInt64 || kind == TypedArrayKind::BigUint64 || kind == TypedArrayKind::Float64)
            ==> element_bytes(kind) * 8 == 64,
{
}

/// A view that fits is accepted: with the offset inside the buffer and
/// aligned to the element size, a given length whose elements fit in the
/// rest of the buffer (exactly filling it included) is the view's length,
/// and with no length given, a rest of the buffer that is a whole number of
/// elements gives that number.  What is refused is refused for the first
/// check that fails.
pub proof fn fitting_views_are_accepted(kind: TypedArrayKind, byte_length: usize, byte_offset: usize, length: Option<usize>)
    ensures
        byte_offset > byte_length ==> typed_array_length_spec(kind, byte_length, byte_offset, length)
            == Err::<usize, ViewError>(ViewError::OffsetBeyondBuffer),
        byte_offset <= byte_length && (byte_offset as int) % element_bytes(kind) != 0
            ==> typed_array_length_spec(kind, byte_length, byte_offset, length) == Err::<usize, ViewError>(
            ViewError::MisalignedOffset,
        ),
        byte_offset <= byte_length && (byte_offset as int) % element_bytes(kind) == 0 ==> (
        length matches Some(n) ==> (n * element_bytes(kind) <= byte_length - byte_offset
            ==> typed_array_length_spec(kind, byte_length, byte_offset, length) == Ok::<usize, ViewError>(n))),
        byte_offset <= byte_length && (byte_offset as int) % element_bytes(kind) == 0 ==> (
        length matches Some(n) ==> (n * element_bytes(kind) > byte_length - byte_offset
            ==> typed_array_length_spec(kind, byte_length, byte_offset, length) is Err)),
        byte_offset <= byte_length && (byte_offset as int) % element_bytes(kind) == 0 && length is None ==> (
        ((byte_length - byte_offset) as int) % element_bytes(kind) == 0 ==> typed_array_length_spec(
            kind,
            byte_length,
            byte_offset,
            length,
        ) == Ok::<usize, ViewError>((((byte_length - byte_offset) as int) / element_bytes(kind)) as usize)),
{
}

/// A view that was accepted lies within its buffer, and with no length
/// given it covers the whole rest of the buffer.
pub proof fn accepted_views_fit(kind: TypedArrayKind, byte_length: usize, byte_offset: usize, length: Option<usize>)
    requires
        typed_array_length_spec(kind, byte_length, byte_offset, length) is Ok,
    ensures
        ({
            let n = typed_array_length_spec(kind, byte_length, byte_offset, length)->Ok_0;
            &&& byte_offset + n * element_bytes(kind) <= byte_length
            &&& (byte_offset as int) % element_bytes(kind) == 0
            &&& length is None ==> byte_offset + n * element_bytes(kind) == byte_length
        }),
{
    let size = element_bytes(kind);
    let available = byte_length - byte_offset;
    let n = typed_array_length_spec(kind, byte_length, byte_offset, length)->Ok_0;
    if length is None {
        assert(n * size == available) by (nonlinear_arith)
            requires
                size > 0,
                available % size == 0,
                n == available / size,
        ;
    }
}

/// What `new_array_buffer` was given.
#[derive(Clone, Copy, Debug, PartialEq, Eq, Structural)]
pub enum ArrayBufferSource {
    /// An int: the byte length of a zeroed buffer.
    ByteLength,
    /// A bytes-like object: the buffer's contents.
    Bytes,
}

/// `new_array_buffer` was given neither a byte length nor bytes.
#[derive(Clone, Copy, Debug, PartialEq, Eq, Structural)]
pub struct NotLengthOrBytes;

/// How `new_array_buffer` reads its argument: a `bool` is refused although
/// Python counts it as an int; an int is a byte length; a bytes-like object
/// gives the contents; anything else is refused.
pub fn array_buffer_source(is_exact_bool: bool, is_int: bool, is_bytes_like: bool) -> (r: Result<ArrayBufferSource, NotLengthOrBytes>)
    ensures
        r == (if is_exact_bool {
            Err::<ArrayBufferSource, NotLengthOrBytes>(NotLengthOrBytes)
        } else if is_int {
            Ok::<ArrayBufferSource, NotLengthOrBytes>(ArrayBufferSource::ByteLength)
        } else if is_bytes_like {
            Ok::<ArrayBufferSource, NotLengthOrBytes>(ArrayBufferSource::Bytes)
        } else {
            Err::<ArrayBufferSource, NotLengthOrBytes>(NotLengthOrBytes)
        }),
{
    if is_exact_bool {
        Err(NotLengthOrBytes)
    } else if is_int {
        Ok(ArrayBufferSource::ByteLength)
    } else if is_bytes_like {
        Ok(ArrayBufferSource::Bytes)
    } else {
        Err(NotLengthOrBytes)
    }
}

} // verus!
