//! Little-endian fields of a byte region.

use vstd::bytes::*;
use vstd::prelude::*;

verus! {

/// `region` with `bytes` written at `offset`.
pub open spec fn patched(region: Seq<u8>, offset: int, bytes: Seq<u8>) -> Seq<u8> {
    Seq::new(
        region.len(),
        |i: int|
            if offset <= i < offset + bytes.len() {
                bytes[i - offset]
            } else {
                region[i]
            },
    )
}

/// The 16-bit field at `offset`.
pub open spec fn u16_at(region: Seq<u8>, offset: int) -> u16 {
    spec_u16_from_le_bytes(region.subrange(offset, offset + 2))
}

/// The 32-bit field at `offset`.
pub open spec fn u32_at(region: Seq<u8>, offset: int) -> u32 {
    spec_u32_from_le_bytes(region.subrange(offset, offset + 4))
}

/// The 64-bit field at `offset`.
pub open spec fn u64_at(region: Seq<u8>, offset: int) -> u64 {
    spec_u64_from_le_bytes(region.subrange(offset, offset + 8))
}

/// A write does not change a range that it does not touch.
pub proof fn lemma_patch_elsewhere(
    region: Seq<u8>,
    offset: int,
    bytes: Seq<u8>,
    from: int,
    to: int,
)
    requires
        0 <= from <= to <= region.len(),
        to <= offset || offset + bytes.len() <= from,
    ensures
        patched(region, offset, bytes).subrange(from, to) == region.subrange(from, to),
{
    assert(patched(region, offset, bytes).subrange(from, to) =~= region.subrange(from, to));
}

/// What was written is read back.
pub proof fn lemma_patch_here(region: Seq<u8>, offset: int, bytes: Seq<u8>)
    requires
        0 <= offset,
        offset + bytes.len() <= region.len(),
    ensures
        patched(region, offset, bytes).subrange(offset, offset + bytes.len()) == bytes,
{
    assert(patched(region, offset, bytes).subrange(offset, offset + bytes.len()) =~= bytes);
}

/// Reads a 16-bit field.
pub fn read_u16(region: &[u8], offset: usize) -> (value: u16)
    requires
        offset + 2 <= region.len(),
    ensures
        value == u16_at(region@, offset as int),
{
    u16_from_le_bytes(&region[offset..offset + 2])
}

/// Reads a 32-bit field.
pub fn read_u32(region: &[u8], offset: usize) -> (value: u32)
    requires
        offset + 4 <= region.len(),
    ensures
        value == u32_at(region@, offset as int),
{
    u32_from_le_bytes(&region[offset..offset + 4])
}

/// Reads a 64-bit field.
pub fn read_u64(region: &[u8], offset: usize) -> (value: u64)
    requires
        offset + 8 <= region.len(),
    ensures
        value == u64_at(region@, offset as int),
{
    u64_from_le_bytes(&region[offset..offset + 8])
}

/// Writes bytes.
pub fn write_bytes(region: &mut [u8], offset: usize, bytes: &[u8])
    requires
        offset + bytes@.len() <= old(region).len(),
    ensures
        final(region)@ == patched(old(region)@, offset as int, bytes@),
{
    let mut index: usize = 0;
    proof {
        assert(region@ =~= patched(old(region)@, offset as int, bytes@.take(0)));
    }
    while index < bytes.len()
        invariant
            index <= bytes@.len(),
            offset + bytes@.len() <= region.len(),
            region@ == patched(old(region)@, offset as int, bytes@.take(index as int)),
        decreases bytes@.len() - index,
    {
        region[offset + index] = bytes[index];
        index += 1;
        proof {
            assert(region@ =~= patched(old(region)@, offset as int, bytes@.take(index as int)));
        }
    }
    proof {
        assert(bytes@.take(index as int) =~= bytes@);
    }
}

/// Writes a 16-bit field.
pub fn write_u16(region: &mut [u8], offset: usize, value: u16)
    requires
        offset + 2 <= old(region).len(),
    ensures
        final(region)@ == patched(old(region)@, offset as int, spec_u16_to_le_bytes(value)),
{
    let bytes = u16_to_le_bytes(value);
    write_bytes(region, offset, bytes.as_slice());
}

/// Writes a 32-bit field.
pub fn write_u32(region: &mut [u8], offset: usize, value: u32)
    requires
        offset + 4 <= old(region).len(),
    ensures
        final(region)@ == patched(old(region)@, offset as int, spec_u32_to_le_bytes(value)),
{
    let bytes = u32_to_le_bytes(value);
    write_bytes(region, offset, bytes.as_slice());
}

/// Writes a 64-bit field.
pub fn write_u64(region: &mut [u8], offset: usize, value: u64)
    requires
        offset + 8 <= old(region).len(),
    ensures
        final(region)@ == patched(old(region)@, offset as int, spec_u64_to_le_bytes(value)),
{
    let bytes = u64_to_le_bytes(value);
    write_bytes(region, offset, bytes.as_slice());
}

/// `bytes` is what stands in `region` at `offset`, compared to the end.
pub fn holds_bytes(region: &[u8], offset: usize, bytes: &[u8]) -> (same: bool)
    requires
        offset + bytes@.len() <= region.len(),
    ensures
        same == (region@.subrange(offset as int, offset + bytes@.len()) == bytes@),
{
    let mut index: usize = 0;
    while index < bytes.len()
        invariant
            index <= bytes@.len(),
            offset + bytes@.len() <= region.len(),
            forall|i: int| 0 <= i < index ==> region@[offset + i] == #[trigger] bytes@[i],
        decreases bytes@.len() - index,
    {
        if region[offset + index] != bytes[index] {
            proof {
                assert(region@.subrange(offset as int, offset + bytes@.len())[index as int]
                    != bytes@[index as int]);
            }
            return false;
        }
        index += 1;
    }
    proof {
        assert(region@.subrange(offset as int, offset + bytes@.len()) =~= bytes@);
    }
    true
}

} // verus!
