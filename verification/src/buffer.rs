//! Lengths checked once, before data crosses to the graphics API.
//!
//! The graphics API takes a pointer and a signed length. A length that does
//! not fit would be cut short silently, so it is checked here and the API is
//! handed a value that cannot be wrong.

use vstd::prelude::*;

verus! {

/// The source text of a shader, whose length fits a signed 32-bit integer.
pub struct ShaderSource {
    bytes: Vec<u8>,
}

impl View for ShaderSource {
    type V = Seq<u8>;

    closed spec fn view(&self) -> Seq<u8> {
        self.bytes@
    }
}

impl ShaderSource {
    #[verifier::type_invariant]
    spec fn length_fits(self) -> bool {
        self.bytes@.len() <= i32::MAX
    }

    /// Takes the source text, unless it is too long for the graphics API.
    pub fn new(bytes: Vec<u8>) -> (source: Option<ShaderSource>)
        ensures
            source is Some <==> bytes@.len() <= i32::MAX,
            source matches Some(s) ==> s@ == bytes@,
    {
        if bytes.len() > 0x7fff_ffff {
            None
        } else {
            Some(ShaderSource { bytes })
        }
    }

    /// The length in bytes, as the graphics API takes it.
    pub fn len(&self) -> (len: i32)
        ensures
            len == self@.len(),
    {
        proof {
            use_type_invariant(self);
        }
        self.bytes.len() as i32
    }

    /// The text.
    pub fn as_bytes(&self) -> (bytes: &[u8])
        ensures
            bytes@ == self@,
    {
        self.bytes.as_slice()
    }
}

/// The size in bytes of `count` elements of `element_size` bytes each, as
/// the graphics API takes it, unless that size does not fit.
pub fn buffer_size(count: usize, element_size: usize) -> (size: Option<isize>)
    ensures
        size is Some <==> count * element_size <= isize::MAX,
        size matches Some(n) ==> n == count * element_size,
{
    match count.checked_mul(element_size) {
        Some(bytes) => {
            if bytes > isize::MAX as usize {
                None
            } else {
                Some(bytes as isize)
            }
        },
        None => None,
    }
}

} // verus!
