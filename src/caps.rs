use vstd::prelude::*;

verus! {

/// The allowed-0 settings: bits that the hardware reports in the low half of
/// a capability mask.
pub open spec fn low32(mask: u64) -> u64 {
    mask & 0xffff_ffff
}

/// The allowed-1 settings: bits that the hardware reports in the high half of
/// a capability mask.
pub open spec fn high32(mask: u64) -> u64 {
    mask >> 32
}

/// The value negotiated from a capability mask and desired control bits.
pub open spec fn negotiated(cap: u64, ctrl: u64) -> u64 {
    (ctrl | low32(cap)) & high32(cap)
}

/// Combines the desired control bits with a hardware capability mask: the
/// bits of the low half are ORed in, then the value is restricted to the
/// bits of the high half.
pub fn cap2ctrl(cap: u64, ctrl: u64) -> (r: u64)
    ensures
        r == negotiated(cap, ctrl),
{
    (ctrl | (cap & 0xffff_ffff)) & (cap >> 32)
}

/// The negotiated value never sets a bit outside the high half of the mask,
/// always holds every bit that both halves set, and keeps every desired bit
/// that the high half allows.
pub proof fn lemma_cap2ctrl_acceptable(cap: u64, ctrl: u64)
    ensures
        negotiated(cap, ctrl) & !high32(cap) == 0,
        negotiated(cap, ctrl) & (low32(cap) & high32(cap)) == low32(cap) & high32(cap),
        negotiated(cap, ctrl) & (ctrl & high32(cap)) == ctrl & high32(cap),
        negotiated(cap, ctrl) >> 32 == 0,
{
    assert(((ctrl | (cap & 0xffff_ffff)) & (cap >> 32)) & !(cap >> 32) == 0) by (bit_vector);
    assert(((ctrl | (cap & 0xffff_ffff)) & (cap >> 32)) & ((cap & 0xffff_ffff) & (cap >> 32))
        == (cap & 0xffff_ffff) & (cap >> 32)) by (bit_vector);
    assert(((ctrl | (cap & 0xffff_ffff)) & (cap >> 32)) & (ctrl & (cap >> 32)) == ctrl & (cap
        >> 32)) by (bit_vector);
    assert(((ctrl | (cap & 0xffff_ffff)) & (cap >> 32)) >> 32 == 0) by (bit_vector);
}

/// Where every bit of the high half is also set in the low half, the
/// negotiated value excludes every bit outside the low half and holds every
/// bit of the high half.
pub proof fn lemma_cap2ctrl_forced_bits(cap: u64, ctrl: u64)
    requires
        high32(cap) & !low32(cap) == 0,
    ensures
        negotiated(cap, ctrl) & !low32(cap) == 0,
        negotiated(cap, ctrl) & high32(cap) == high32(cap),
{
    assert((cap >> 32) & !(cap & 0xffff_ffff) == 0 ==> ((ctrl | (cap & 0xffff_ffff)) & (cap
        >> 32)) & !(cap & 0xffff_ffff) == 0) by (bit_vector);
    assert((cap >> 32) & !(cap & 0xffff_ffff) == 0 ==> ((ctrl | (cap & 0xffff_ffff)) & (cap
        >> 32)) & (cap >> 32) == (cap >> 32)) by (bit_vector);
}

} // verus!
