use vstd::prelude::*;
use vstd::string::StringSliceAdditionalSpecFns;

verus! {

/// The offset basis of 64-bit FNV-1a.
pub const FNV_OFFSET: u64 = 0xcbf29ce484222325;

/// The prime of 64-bit FNV-1a.
pub const FNV_PRIME: u64 = 0x100000001b3;

/// The 64-bit FNV-1a hash of `bytes`: starting from the offset basis, each
/// byte in turn is xored in and the hash multiplied by the prime, modulo 2^64.
pub open spec fn fnv1a_of(bytes: Seq<u8>) -> u64
    decreases bytes.len(),
{
    if bytes.len() == 0 {
        FNV_OFFSET
    } else {
        let h = fnv1a_of(bytes.drop_last()) ^ (bytes.last() as u64);
        ((h as int * FNV_PRIME as int) % 0x1_0000_0000_0000_0000) as u64
    }
}

/// A seed derived from a text label: the FNV-1a hash of its UTF-8 bytes.
pub fn fnv1a(text: &str) -> (r: u64)
    ensures
        r == fnv1a_of(text.spec_bytes()),
{
    let bytes = text.as_bytes();
    let mut hash: u64 = FNV_OFFSET;
    let mut i: usize = 0;
    while i < bytes.len()
        invariant
            bytes@ == text.spec_bytes(),
            i <= bytes@.len(),
            hash == fnv1a_of(bytes@.subrange(0, i as int)),
        decreases bytes@.len() - i,
    {
        assert(bytes@.subrange(0, i + 1).drop_last() =~= bytes@.subrange(0, i as int));
        hash = (hash ^ bytes[i] as u64).wrapping_mul(FNV_PRIME);
        i = i + 1;
    }
    assert(bytes@.subrange(0, i as int) =~= bytes@);
    hash
}

} // verus!
