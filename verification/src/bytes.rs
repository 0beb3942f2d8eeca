//! Little-endian integers and addresses in a byte buffer.
use vstd::prelude::*;
use crate::address::Address;

verus! {

/// The unsigned integer that the four bytes of `bytes` from `at` on hold,
/// least significant byte first.
pub open spec fn le_u32(bytes: Seq<u8>, at: int) -> int {
    bytes[at] + bytes[at + 1] * 0x100 + bytes[at + 2] * 0x1_0000 + bytes[at + 3] * 0x100_0000
}

/// The unsigned integer that the eight bytes of `bytes` from `at` on hold,
/// least significant byte first.
pub open spec fn le_u64(bytes: Seq<u8>, at: int) -> int {
    le_u32(bytes, at) + le_u32(bytes, at + 4) * 0x1_0000_0000
}

/// Reads a 32-bit little-endian integer.
pub(crate) fn read_u32(bytes: &[u8], at: usize) -> (x: u32)
    requires
        at + 4 <= bytes.len(),
    ensures
        x == le_u32(bytes@, at as int),
{
    let b0: u32 = bytes[at] as u32;
    let b1: u32 = bytes[at + 1] as u32;
    let b2: u32 = bytes[at + 2] as u32;
    let b3: u32 = bytes[at + 3] as u32;
    b0 + b1 * 0x100 + b2 * 0x1_0000 + b3 * 0x100_0000
}

/// Reads a 64-bit little-endian integer.
pub(crate) fn read_u64(bytes: &[u8], at: usize) -> (x: u64)
    requires
        at + 8 <= bytes.len(),
    ensures
        x == le_u64(bytes@, at as int),
{
    let low: u64 = read_u32(bytes, at) as u64;
    let high: u64 = read_u32(bytes, at + 4) as u64;
    low + high * 0x1_0000_0000
}

/// Reads a 32-byte address.
pub(crate) fn read_address(bytes: &[u8], at: usize) -> (address: Address)
    requires
        at + 32 <= bytes.len(),
    ensures
        address@ == bytes@.subrange(at as int, at + 32),
{
    let mut out: [u8; 32] = [0u8; 32];
    let mut i: usize = 0;
    while i < 32
        invariant
            i <= 32,
            at + 32 <= bytes.len(),
            forall|j: int| 0 <= j < i ==> out@[j] == bytes@[at + j],
        decreases 32 - i,
    {
        out[i] = bytes[at + i];
        i += 1;
    }
    assert(out@ =~= bytes@.subrange(at as int, at + 32));
    Address::new(out)
}

/// The 32-bit little-endian integer at `at`, if `bytes` reach that far.
pub fn le_u32_value(bytes: &[u8], at: usize) -> (res: Option<u32>)
    ensures
        match res {
            Some(x) => at + 4 <= bytes@.len() && x == le_u32(bytes@, at as int),
            None => at + 4 > bytes@.len(),
        },
{
    if bytes.len() >= 4 && at <= bytes.len() - 4 {
        Some(read_u32(bytes, at))
    } else {
        None
    }
}

/// The 64-bit little-endian integer at `at`, if `bytes` reach that far.
pub fn le_u64_value(bytes: &[u8], at: usize) -> (res: Option<u64>)
    ensures
        match res {
            Some(x) => at + 8 <= bytes@.len() && x == le_u64(bytes@, at as int),
            None => at + 8 > bytes@.len(),
        },
{
    if bytes.len() >= 8 && at <= bytes.len() - 8 {
        Some(read_u64(bytes, at))
    } else {
        None
    }
}

} // verus!
