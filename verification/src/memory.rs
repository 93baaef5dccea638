//! The contract's sandbox memory: bounds and what reads and writes do to it.
use vstd::prelude::*;

verus! {

/// The value of an output pointer by which a contract declines to receive that output.
pub const SENTINEL: u32 = 0xffff_ffff;

/// The range `[ptr, ptr + len)` lies within a memory of `mem_len` bytes.
pub open spec fn fits(mem_len: int, ptr: int, len: int) -> bool {
    0 <= ptr && 0 <= len && ptr + len <= mem_len
}

/// `mem` with the bytes from `ptr` on replaced by `data`.
pub open spec fn splice(mem: Seq<u8>, ptr: int, data: Seq<u8>) -> Seq<u8> {
    mem.subrange(0, ptr) + data + mem.subrange(ptr + data.len(), mem.len() as int)
}

/// The `len` bytes of `mem` from `ptr` on.
pub open spec fn chunk(mem: Seq<u8>, ptr: int, len: int) -> Seq<u8> {
    mem.subrange(ptr, ptr + len)
}

/// Whether the ranges `[p, p + n)` and `[q, q + m)` do not share a byte.
pub open spec fn disjoint(p: int, n: int, q: int, m: int) -> bool {
    p + n <= q || q + m <= p
}

/// Checks that `[ptr, ptr + len)` lies within a memory of `mem_len` bytes, without overflow.
pub fn range_fits(mem_len: usize, ptr: u32, len: usize) -> (r: bool)
    ensures
        r == fits(mem_len as int, ptr as int, len as int),
{
    let p = ptr as usize;
    p <= mem_len && len <= mem_len - p
}

/// Copies `len` bytes of `memory` from `ptr` on into a new buffer.
pub fn copy_out(memory: &Vec<u8>, ptr: u32, len: usize) -> (r: Vec<u8>)
    requires
        fits(memory@.len() as int, ptr as int, len as int),
    ensures
        r@ == chunk(memory@, ptr as int, len as int),
{
    let start = ptr as usize;
    let mlen = memory.len();
    let mut out: Vec<u8> = Vec::new();
    let mut i: usize = 0;
    while i < len
        invariant
            mlen == memory@.len(),
            fits(memory@.len() as int, ptr as int, len as int),
            start == ptr as usize,
            i <= len,
            out@ == chunk(memory@, ptr as int, i as int),
        decreases len - i,
    {
        out.push(memory[start + i]);
        assert(chunk(memory@, ptr as int, (i + 1) as int) =~= chunk(memory@, ptr as int, i as int).push(
            memory@[ptr + i],
        ));
        i = i + 1;
    }
    out
}

/// Overwrites the bytes of `memory` from `ptr` on with `data`.
pub fn copy_in(memory: &mut Vec<u8>, ptr: u32, data: &[u8])
    requires
        fits(old(memory)@.len() as int, ptr as int, data@.len() as int),
    ensures
        final(memory)@ == splice(old(memory)@, ptr as int, data@),
{
    let start = ptr as usize;
    let mlen = memory.len();
    let mut i: usize = 0;
    while i < data.len()
        invariant
            mlen == memory@.len(),
            fits(old(memory)@.len() as int, ptr as int, data@.len() as int),
            start == ptr as usize,
            i <= data@.len(),
            memory@.len() == old(memory)@.len(),
            forall|k: int| 0 <= k < start ==> memory@[k] == old(memory)@[k],
            forall|k: int| 0 <= k < i ==> memory@[start + k] == data@[k],
            forall|k: int| start + i <= k < memory@.len() ==> memory@[k] == old(memory)@[k],
        decreases data@.len() - i,
    {
        memory.set(start + i, data[i]);
        i = i + 1;
    }
    assert(memory@ =~= splice(old(memory)@, ptr as int, data@));
}

} // verus!
