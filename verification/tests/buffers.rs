use v8_python::snapshot::{not_bytes_like_message, StartupData};
use v8_python::typed_array::{
    array_buffer_source, checked_view_available, data_view_byte_length, normalize_kind_name, typed_array_length,
    typed_array_type_name, ArrayBufferSource, NotLengthOrBytes, TypedArrayFlags, TypedArrayKind,
    ViewError,
};
use v8_python::wasm::{bytes_eq, compile_route, copied_bytes, no_bytes_message, streaming_source_kind, CompileRoute, StreamingSourceKind, WasmModuleCache};

#[test]
fn typed_array_kind_names() {
    assert_eq!(TypedArrayKind::parse("Uint8Array"), Ok(TypedArrayKind::Uint8));
    assert_eq!(TypedArrayKind::parse("u8"), Ok(TypedArrayKind::Uint8));
    assert_eq!(TypedArrayKind::parse("uint8_clamped"), Ok(TypedArrayKind::Uint8Clamped));
    assert_eq!(TypedArrayKind::parse("Big Int-64"), Ok(TypedArrayKind::BigInt64));
    assert_eq!(TypedArrayKind::parse("F64"), Ok(TypedArrayKind::Float64));
    assert_eq!(TypedArrayKind::parse("float16array"), Ok(TypedArrayKind::Float16));
    assert_eq!(TypedArrayKind::parse("i64"), Err("Unsupported TypedArray kind: i64.".to_string()));
    assert_eq!(normalize_kind_name("A_b- C").iter().collect::<String>(), "abc");
}

#[test]
fn element_sizes() {
    assert_eq!(TypedArrayKind::Int8.element_size(), 1);
    assert_eq!(TypedArrayKind::Float16.element_size(), 2);
    assert_eq!(TypedArrayKind::Uint32.element_size(), 4);
    assert_eq!(TypedArrayKind::BigUint64.element_size(), 8);
}

#[test]
fn typed_array_lengths() {
    assert_eq!(typed_array_length(TypedArrayKind::Uint32, 16, 4, None), Ok(3));
    assert_eq!(typed_array_length(TypedArrayKind::Uint32, 16, 4, Some(2)), Ok(2));
    assert_eq!(typed_array_length(TypedArrayKind::Uint32, 16, 20, None), Err(ViewError::OffsetBeyondBuffer));
    assert_eq!(typed_array_length(TypedArrayKind::Uint32, 16, 2, None), Err(ViewError::MisalignedOffset));
    assert_eq!(typed_array_length(TypedArrayKind::Uint32, 16, 0, Some(5)), Err(ViewError::LengthBeyondBuffer));
    assert_eq!(typed_array_length(TypedArrayKind::Float64, 8, 0, Some(usize::MAX)), Err(ViewError::LengthOverflow));
    assert_eq!(typed_array_length(TypedArrayKind::Uint16, 5, 0, None), Err(ViewError::UnalignedRemainder));
    assert_eq!(typed_array_length(TypedArrayKind::Uint8, 5, 5, None), Ok(0));
}

#[test]
fn data_view_lengths() {
    assert_eq!(checked_view_available(10, 3), Ok(7));
    assert_eq!(checked_view_available(3, 10), Err(ViewError::OffsetBeyondBuffer));
    assert_eq!(data_view_byte_length(10, 2, None), Ok(8));
    assert_eq!(data_view_byte_length(10, 2, Some(8)), Ok(8));
    assert_eq!(data_view_byte_length(10, 2, Some(9)), Err(ViewError::LengthBeyondBuffer));
    assert_eq!(data_view_byte_length(1, 2, Some(0)), Err(ViewError::OffsetBeyondBuffer));
}

#[test]
fn typed_array_type_names() {
    let mut f = TypedArrayFlags {
        is_uint8_array: false,
        is_uint8_clamped_array: false,
        is_int8_array: false,
        is_uint16_array: false,
        is_int16_array: false,
        is_uint32_array: false,
        is_int32_array: false,
        is_big_uint64_array: false,
        is_big_int64_array: false,
        is_float16_array: false,
        is_float32_array: false,
        is_float64_array: false,
    };
    assert_eq!(typed_array_type_name(&f), "TypedArray");
    f.is_float32_array = true;
    assert_eq!(typed_array_type_name(&f), "Float32Array");
    f.is_int8_array = true;
    assert_eq!(typed_array_type_name(&f), "Int8Array");
}

#[test]
fn startup_data() {
    let s = StartupData::new(vec![1, 2, 3]);
    assert_eq!(s.byte_length(), 3);
    assert_eq!(s.__len__(), 3);
    assert_eq!(s.to_bytes(), vec![1, 2, 3]);
    assert_eq!(s.__repr__(), "v8.StartupData(byte_length=3)");
    assert_eq!(not_bytes_like_message("snapshot"), "snapshot must be bytes, bytearray, or memoryview.");
}

#[test]
fn wasm_cache_counts() {
    let mut c: WasmModuleCache<&str> = WasmModuleCache::new();
    assert!(c.is_empty());
    let key = vec![0, 97, 115, 109];
    assert!(c.get(&key).is_none());
    c.record_miss();
    c.insert(&key, "m1");
    assert!(c.contains(&key));
    assert_eq!(c.get(&key), Some(&"m1"));
    c.record_hit();
    c.insert(&key, "m2");
    assert_eq!(c.len(), 1);
    assert_eq!(c.get(&key), Some(&"m2"));
    c.insert(&vec![1], "n");
    assert_eq!(c.__repr__(), "v8.WasmModuleCache(size=2, hits=1, misses=1, stores=3)");
    c.clear();
    assert_eq!(c.len(), 0);
    assert_eq!((c.hits(), c.misses(), c.stores()), (1, 1, 3));
}

#[test]
fn wasm_decisions() {
    assert!(bytes_eq(&vec![1, 2], &vec![1, 2]));
    assert!(!bytes_eq(&vec![1, 2], &vec![1]));
    assert_eq!(compile_route(false, true), CompileRoute::Disallowed);
    assert_eq!(compile_route(true, true), CompileRoute::Cached);
    assert_eq!(compile_route(true, false), CompileRoute::Direct);
    assert_eq!(streaming_source_kind(true, false, false, false), StreamingSourceKind::View);
    assert_eq!(streaming_source_kind(false, false, false, true), StreamingSourceKind::LoaderKey);
    assert_eq!(streaming_source_kind(false, false, false, false), StreamingSourceKind::Invalid);
    assert_eq!(no_bytes_message("a.wasm"), "WebAssembly loader did not return bytes for 'a.wasm'.");
    assert_eq!(copied_bytes(vec![1, 2, 3], 2), Some(vec![1, 2]));
    assert_eq!(copied_bytes(vec![1, 2, 3], 4), None);
}

#[test]
fn array_buffer_sources() {
    assert_eq!(array_buffer_source(true, true, false), Err(NotLengthOrBytes));
    assert_eq!(array_buffer_source(false, true, false), Ok(ArrayBufferSource::ByteLength));
    assert_eq!(array_buffer_source(false, false, true), Ok(ArrayBufferSource::Bytes));
    assert_eq!(array_buffer_source(false, false, false), Err(NotLengthOrBytes));
}
