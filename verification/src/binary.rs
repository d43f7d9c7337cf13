//! The binary-file heuristic: a zero byte near the start of a file.

use vstd::prelude::*;

verus! {

/// How many leading bytes of a file the heuristic looks at.
pub const PROBE_LEN: usize = 1024;

/// Whether `bytes` holds a zero byte at an index below `limit`.
pub open spec fn has_zero_before(bytes: Seq<u8>, limit: int) -> bool {
    exists|i: int| 0 <= i < bytes.len() && i < limit && bytes[i] == 0u8
}

/// A file is binary when one of its first `PROBE_LEN` bytes is zero.
pub open spec fn is_binary_content(bytes: Seq<u8>) -> bool {
    has_zero_before(bytes, PROBE_LEN as int)
}

/// Classifies a file by its leading bytes. Bytes past the first `PROBE_LEN`
/// are not looked at, so the caller may hand over the whole file or only its
/// start.
pub fn is_binary(bytes: &[u8]) -> (binary: bool)
    ensures
        binary == is_binary_content(bytes@),
{
    let mut i: usize = 0;
    while i < bytes.len() && i < PROBE_LEN
        invariant
            i <= bytes.len(),
            i <= PROBE_LEN,
            !has_zero_before(bytes@, i as int),
        decreases bytes.len() - i,
    {
        if bytes[i] == 0 {
            assert(has_zero_before(bytes@, PROBE_LEN as int));
            return true;
        }
        i += 1;
    }
    false
}

} // verus!
