//! Integer fields of binary structures.
use vstd::prelude::*;

verus! {

/// The little-endian `u16` at `off`.
pub open spec fn le_u16(b: Seq<u8>, off: int) -> nat {
    b[off] as nat + b[off + 1] as nat * 256
}

/// The little-endian `u32` at `off`.
pub open spec fn le_u32(b: Seq<u8>, off: int) -> nat {
    le_u16(b, off) + le_u16(b, off + 2) * 65536
}

/// The little-endian `u64` at `off`.
pub open spec fn le_u64(b: Seq<u8>, off: int) -> nat {
    le_u32(b, off) + le_u32(b, off + 4) * 4294967296
}

/// Reads the little-endian `u16` at `off`.
pub fn read_le_u16(b: &[u8], off: usize) -> (r: u16)
    requires
        off + 2 <= b.len(),
    ensures
        r as nat == le_u16(b@, off as int),
{
    b[off] as u16 + (b[off + 1] as u16) * 256
}

/// Reads the little-endian `u32` at `off`.
pub fn read_le_u32(b: &[u8], off: usize) -> (r: u32)
    requires
        off + 4 <= b.len(),
    ensures
        r as nat == le_u32(b@, off as int),
{
    read_le_u16(b, off) as u32 + (read_le_u16(b, off + 2) as u32) * 65536
}

/// Reads the little-endian `u64` at `off`.
pub fn read_le_u64(b: &[u8], off: usize) -> (r: u64)
    requires
        off + 8 <= b.len(),
    ensures
        r as nat == le_u64(b@, off as int),
{
    read_le_u32(b, off) as u64 + (read_le_u32(b, off + 4) as u64) * 4294967296
}

/// The big-endian `u32` at `off`.
pub open spec fn be_u32(b: Seq<u8>, off: int) -> nat {
    b[off] as nat * 16777216 + b[off + 1] as nat * 65536 + b[off + 2] as nat * 256 + b[off + 3] as nat
}

/// Reads the big-endian `u32` at `off`.
pub fn read_be_u32(b: &[u8], off: usize) -> (r: u32)
    requires
        off + 4 <= b.len(),
    ensures
        r as nat == be_u32(b@, off as int),
{
    (b[off] as u32) * 16777216 + (b[off + 1] as u32) * 65536 + (b[off + 2] as u32) * 256 + b[off + 3] as u32
}

/// Copies `b[from..to]`.
pub fn copy_bytes(b: &[u8], from: usize, to: usize) -> (r: Vec<u8>)
    requires
        from <= to <= b@.len(),
    ensures
        r@ == b@.subrange(from as int, to as int),
{
    let mut r: Vec<u8> = Vec::new();
    let mut i: usize = from;
    while i < to
        invariant
            from <= i <= to <= b@.len(),
            r@ == b@.subrange(from as int, i as int),
        decreases to - i,
    {
        r.push(b[i]);
        assert(r@ =~= b@.subrange(from as int, i + 1));
        i = i + 1;
    }
    r
}

} // verus!
