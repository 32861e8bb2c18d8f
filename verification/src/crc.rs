//! The 8-bit shift-based checksum that protects every group of bytes read
//! from the sensor: polynomial 0x31, seed 0xFF, MSB first, no reflection.

use vstd::prelude::*;

verus! {

/// One shift-and-conditional-xor round of the checksum register.
pub open spec fn crc8_round(crc: u8) -> u8 {
    if crc & 0x80 != 0 {
        (crc << 1) ^ 0x31
    } else {
        crc << 1
    }
}

/// The checksum register after `n` rounds starting from `crc`.
pub open spec fn crc8_rounds(crc: u8, n: nat) -> u8
    decreases n,
{
    if n == 0 {
        crc
    } else {
        crc8_round(crc8_rounds(crc, (n - 1) as nat))
    }
}

/// Folding one data byte into the checksum register: xor it in, then
/// run eight rounds.
pub open spec fn crc8_byte(crc: u8, byte: u8) -> u8 {
    crc8_rounds(crc ^ byte, 8)
}

/// The checksum of a byte sequence, folded left to right from the seed 0xFF.
pub open spec fn crc8_spec(data: Seq<u8>) -> u8
    decreases data.len(),
{
    if data.len() == 0 {
        0xFF
    } else {
        crc8_byte(crc8_spec(data.drop_last()), data.last())
    }
}

/// Calculate the CRC8 checksum of `data`.
pub fn crc8(data: &[u8]) -> (r: u8)
    ensures
        r == crc8_spec(data@),
{
    let mut crc: u8 = u8::MAX;
    let mut i: usize = 0;

    assert(data@.subrange(0, 0) =~= Seq::<u8>::empty());

    while i < data.len()
        invariant
            i <= data@.len(),
            crc == crc8_spec(data@.subrange(0, i as int)),
        decreases data@.len() - i,
    {
        crc ^= data[i];
        i += 1;

        let ghost folded: u8 = crc;
        let mut c: usize = 0;
        while c < 8
            invariant
                c <= 8,
                crc == crc8_rounds(folded, c as nat),
            decreases 8 - c,
        {
            c += 1;
            if (crc & 0x80) > 0 {
                crc = (crc << 1) ^ 0x31;
            } else {
                crc <<= 1;
            }
        }

        assert(data@.subrange(0, i as int).drop_last() =~= data@.subrange(0, i - 1));
        assert(data@.subrange(0, i as int).last() == data@[i - 1]);
    }

    assert(data@.subrange(0, data@.len() as int) =~= data@);
    crc
}

} // verus!
