//! Small helpers on byte buffers.

use vstd::prelude::*;

verus! {

/// Appends `data` to `buffer`.
pub fn append(buffer: &mut Vec<u8>, data: &[u8])
    ensures
        final(buffer)@ == old(buffer)@ + data@,
{
    buffer.extend_from_slice(data);
    assert(buffer@ =~= old(buffer)@ + data@);
}

/// A copy of `data`.
pub fn copy(data: &[u8]) -> (out: Vec<u8>)
    ensures
        out@ == data@,
{
    let mut out: Vec<u8> = Vec::new();
    append(&mut out, data);
    assert(out@ =~= data@);
    out
}

} // verus!
