//! Paths as the C HALs take them: a fixed array of C characters ending in zero.
use vstd::prelude::*;
use vstd::string::*;

verus! {

/// The C characters of `path` in an array of 64: its UTF-8 bytes, then zeros.
pub open spec fn c_path_array(bytes: Seq<u8>, a: [i8; 64]) -> bool {
    forall|i: int| 0 <= i < 64 ==> #[trigger] a[i] == if i < bytes.len() { bytes[i] as i8 } else { 0i8 }
}

/// The path `path` as 64 C characters with the terminating zero, or none when the
/// bytes and the zero do not fit.
pub fn c_path(path: &str) -> (r: Option<[i8; 64]>)
    requires
        !path.spec_bytes().contains(0u8),
    ensures
        r is Some <==> path.spec_bytes().len() + 1 <= 64,
        r matches Some(a) ==> c_path_array(path.spec_bytes(), a),
{
    let bytes = path.as_bytes();
    // the bytes with the terminating zero
    if bytes.len() >= 64 {
        return None;
    }
    let mut chars = [0i8; 64];
    let mut i: usize = 0;
    while i < bytes.len()
        invariant
            bytes@ == path.spec_bytes(),
            bytes@.len() < 64,
            i <= bytes@.len(),
            forall|j: int| 0 <= j < i ==> #[trigger] chars[j] == bytes@[j] as i8,
            forall|j: int| i <= j < 64 ==> #[trigger] chars[j] == 0i8,
        decreases bytes@.len() - i,
    {
        chars[i] = bytes[i] as i8;
        i += 1;
    }
    Some(chars)
}

} // verus!
