//! Startup snapshot data as the host holds it.
use vstd::prelude::*;
use crate::text::{append_decimal, append_str, decimal};

verus! {

/// The bytes of an engine startup snapshot.
pub struct StartupData {
    data: Vec<u8>,
}

impl StartupData {
    /// The snapshot's bytes.
    pub closed spec fn bytes(&self) -> Seq<u8> {
        self.data@
    }

    /// Wraps snapshot bytes.
    pub fn new(data: Vec<u8>) -> (r: Self)
        ensures
            r.bytes() == data@,
    {
        StartupData { data }
    }

    /// The number of bytes in the snapshot.
    pub fn byte_length(&self) -> (r: usize)
        ensures
            r == self.bytes().len(),
    {
        self.data.len()
    }

    /// The number of bytes in the snapshot (Python's `len`).
    pub fn __len__(&self) -> (r: usize)
        ensures
            r == self.bytes().len(),
    {
        self.data.len()
    }

    /// A copy of the snapshot's bytes.
    pub fn to_bytes(&self) -> (r: Vec<u8>)
        ensures
            r@ == self.bytes(),
    {
        let mut out: Vec<u8> = Vec::new();
        for i in 0..self.data.len()
            invariant
                out@ == self.data@.take(i as int),
        {
            out.push(self.data[i]);
            assert(self.data@.take(i + 1) =~= self.data@.take(i as int).push(self.data@[i as int]));
        }
        assert(self.data@.take(self.data@.len() as int) =~= self.data@);
        out
    }

    /// A representation that gives the byte length.
    pub fn __repr__(&self) -> (r: String)
        ensures
            r@ == "v8.StartupData(byte_length="@ + decimal(self.bytes().len()) + ")"@,
    {
        let mut r = String::from_str("v8.StartupData(byte_length=");
        append_decimal(&mut r, self.data.len() as u64);
        append_str(&mut r, ")");
        r
    }
}

/// The message for a value that is not bytes-like, naming what it was given
/// for.
pub open spec fn not_bytes_like_text(label: Seq<char>) -> Seq<char> {
    label + " must be bytes, bytearray, or memoryview."@
}

/// The message for a value that is not bytes-like.
pub fn not_bytes_like_message(label: &str) -> (r: String)
    ensures
        r@ == not_bytes_like_text(label@),
{
    let mut r = String::new();
    append_str(&mut r, label);
    append_str(&mut r, " must be bytes, bytearray, or memoryview.");
    r
}

} // verus!
