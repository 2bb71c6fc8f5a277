//! Little-endian fields inside fixed-layout byte images.
use crate::errors::PimeError;
use pinocchio::pubkey::Pubkey;
use vstd::bytes::*;
use vstd::prelude::*;
use vstd::slice::slice_subrange;

verus! {

/// The eight-byte little-endian image of a signed integer (two's complement).
pub open spec fn le_i64(x: i64) -> Seq<u8> {
    spec_u64_to_le_bytes(x as u64)
}

/// The one-byte image of a flag.
pub open spec fn flag_byte(b: bool) -> u8 {
    if b { 1u8 } else { 0u8 }
}

pub proof fn lemma_le_lengths()
    ensures
        forall|x: u64| #[trigger] spec_u64_to_le_bytes(x).len() == 8,
        forall|x: u64| #[trigger] spec_u64_from_le_bytes(spec_u64_to_le_bytes(x)) == x,
        forall|s: Seq<u8>|
            s.len() == 8 ==> #[trigger] spec_u64_to_le_bytes(spec_u64_from_le_bytes(s)) == s,
{
    lemma_auto_spec_u64_to_from_le_bytes();
}

/// Appends the image of an unsigned integer.
pub fn push_u64(buf: &mut Vec<u8>, x: u64)
    ensures
        final(buf)@ == old(buf)@ + spec_u64_to_le_bytes(x),
{
    let mut b = u64_to_le_bytes(x);
    buf.append(&mut b);
}

/// Appends the image of a signed integer.
pub fn push_i64(buf: &mut Vec<u8>, x: i64)
    ensures
        final(buf)@ == old(buf)@ + le_i64(x),
{
    push_u64(buf, x as u64);
}

/// Appends the 32 bytes of a key.
pub fn push_key(buf: &mut Vec<u8>, k: &Pubkey)
    ensures
        final(buf)@ == old(buf)@ + k@,
{
    let ghost start = buf@;
    let mut i: usize = 0;
    while i < 32
        invariant
            0 <= i <= 32,
            k@.len() == 32,
            buf@ == start + k@.subrange(0, i as int),
        decreases 32 - i,
    {
        buf.push(k[i]);
        i = i + 1;
        assert(buf@ == start + k@.subrange(0, i as int));
    }
    assert(k@.subrange(0, 32) == k@);
}

/// Reads an unsigned integer at `off`.
pub fn read_u64(data: &[u8], off: usize) -> (r: u64)
    requires
        off + 8 <= data@.len(),
    ensures
        r == spec_u64_from_le_bytes(data@.subrange(off as int, off + 8)),
{
    let n = data.len();
    u64_from_le_bytes(slice_subrange(data, off, off + 8))
}

/// Reads a signed integer at `off`.
pub fn read_i64(data: &[u8], off: usize) -> (r: i64)
    requires
        off + 8 <= data@.len(),
    ensures
        le_i64(r) == data@.subrange(off as int, off + 8),
{
    let u = read_u64(data, off);
    let r: i64 = #[verifier::truncate] (u as i64);
    assert((r as u64) == u) by (bit_vector)
        requires
            r == #[verifier::truncate] (u as i64),
    ;
    proof {
        lemma_le_lengths();
    }
    r
}

/// Reads the 32-byte key at `off`.
pub fn read_key(data: &[u8], off: usize) -> (r: Pubkey)
    requires
        off + 32 <= data@.len(),
    ensures
        r@ == data@.subrange(off as int, off + 32),
{
    let n = data.len();
    let mut k: Pubkey = [0u8; 32];
    let mut i: usize = 0;
    while i < 32
        invariant
            0 <= i <= 32,
            off + 32 <= data@.len(),
            n == data@.len(),
            k@.len() == 32,
            forall|j: int| 0 <= j < i ==> k@[j] == data@[off + j],
        decreases 32 - i,
    {
        k[i] = data[off + i];
        i = i + 1;
    }
    assert(k@ =~= data@.subrange(off as int, off + 32));
    k
}

/// Reads the unsigned integer that leads `data`.
pub fn unpack_u64(data: &[u8]) -> (r: Result<u64, PimeError>)
    ensures
        match r {
            Ok(v) => data@.len() >= 8 && v == spec_u64_from_le_bytes(data@.subrange(0, 8)),
            Err(e) => data@.len() < 8 && e == PimeError::InvalidInstructionData,
        },
{
    if data.len() < 8 {
        Err(PimeError::InvalidInstructionData)
    } else {
        Ok(read_u64(data, 0))
    }
}

} // verus!
