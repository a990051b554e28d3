//! CRC-32 as ROM databases use it: the reflected polynomial 0xEDB88320,
//! all ones to start with and inverted at the end.

use vstd::prelude::*;

verus! {

/// The reflected CRC-32 polynomial.
pub const POLYNOMIAL: u32 = 0xEDB8_8320;

/// The register after `n` more bit steps: each step shifts right and,
/// where a one fell out, folds the polynomial in.
pub open spec fn after_bits(crc: u32, n: int) -> u32
    decreases n,
{
    if n <= 0 {
        crc
    } else {
        let prev = after_bits(crc, n - 1);
        if prev & 1 == 1 {
            (prev >> 1u32) ^ POLYNOMIAL
        } else {
            prev >> 1u32
        }
    }
}

/// The register after the first `n` bytes of `data`.
pub open spec fn after_bytes(data: Seq<u8>, n: int) -> u32
    decreases n,
{
    if n <= 0 {
        0xFFFF_FFFFu32
    } else {
        after_bits(after_bytes(data, n - 1) ^ (data[n - 1] as u32), 8)
    }
}

/// The CRC-32 of `data`.
pub open spec fn crc32_of(data: Seq<u8>) -> u32 {
    !after_bytes(data, data.len() as int)
}

/// Computes the CRC-32 of `data`.
pub fn calculate(data: &[u8]) -> (crc: u32)
    ensures
        crc == crc32_of(data@),
{
    let mut crc: u32 = 0xFFFF_FFFF;
    let n = data.len();
    let mut i: usize = 0;
    while i < n
        invariant
            i <= n,
            n == data@.len(),
            crc == after_bytes(data@, i as int),
        decreases n - i,
    {
        let start: u32 = crc ^ (data[i] as u32);
        crc = start;
        let mut k: u32 = 0;
        while k < 8
            invariant
                k <= 8,
                crc == after_bits(start, k as int),
            decreases 8 - k,
        {
            if crc & 1 == 1 {
                crc = (crc >> 1u32) ^ POLYNOMIAL;
            } else {
                crc = crc >> 1u32;
            }
            k = k + 1;
        }
        i = i + 1;
    }
    !crc
}

} // verus!
