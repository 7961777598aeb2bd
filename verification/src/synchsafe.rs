//! Synchsafe integers: big-endian groups of seven bits, one group per byte.

use vstd::prelude::*;

verus! {

/// The value of four seven-bit groups, most significant first.
pub open spec fn synchsafe_value(b0: u8, b1: u8, b2: u8, b3: u8) -> nat {
    ((b0 % 128) * 0x20_0000 + (b1 % 128) * 0x4000 + (b2 % 128) * 0x80 + (b3 % 128)) as nat
}

/// What `synchsafe_u32_to_u32` computes, as bit operations on the raw word.
pub open spec fn spec_synchsafe_u32(sync_int: u32) -> u32 {
    let low = (sync_int & 0x0000_00ff) | ((sync_int & 0x0000_0100) >> 1);
    let mid_low = ((sync_int & 0x0000_fe00) >> 1) | ((sync_int & 0x0003_0000) >> 2);
    let mid_high = ((sync_int & 0x00fc_0000) >> 2) | ((sync_int & 0x0700_0000) >> 3);
    let high = (sync_int & 0xf800_0000) >> 3;
    high | mid_high | mid_low | low
}

/// True when the high bit of each of the four bytes of `sync_int` is clear.
pub open spec fn is_synchsafe(sync_int: u32) -> bool {
    sync_int & 0x8080_8080 == 0
}

/// The seven-bit-group value of a well-formed synchsafe word.
pub open spec fn synchsafe_decoded(sync_int: u32) -> nat {
    synchsafe_value(
        (sync_int >> 24) as u8,
        ((sync_int >> 16) & 0xff) as u8,
        ((sync_int >> 8) & 0xff) as u8,
        (sync_int & 0xff) as u8,
    )
}

/// Decodes a synchsafe integer of four bytes.
pub fn synchsafe_u32_to_u32(sync_int: u32) -> (r: u32)
    ensures
        r == spec_synchsafe_u32(sync_int),
        is_synchsafe(sync_int) ==> r == synchsafe_decoded(sync_int),
        is_synchsafe(sync_int) ==> r < 0x1000_0000,
{
    let low: u32 = (sync_int & 0x0000_00ff) | ((sync_int & 0x0000_0100) >> 1);
    let mid_low: u32 = ((sync_int & 0x0000_fe00) >> 1) | ((sync_int & 0x0003_0000) >> 2);
    let mid_high: u32 = ((sync_int & 0x00fc_0000) >> 2) | ((sync_int & 0x0700_0000) >> 3);
    let high: u32 = (sync_int & 0xf800_0000) >> 3;
    proof {
        lemma_synchsafe_u32(sync_int);
    }
    high | mid_high | mid_low | low
}

/// On four bytes with their high bits clear, the bit operations give the value of the
/// four seven-bit groups, which is below 2 to the 28th.
pub proof fn lemma_synchsafe_u32(s: u32)
    ensures
        is_synchsafe(s) ==> spec_synchsafe_u32(s) == synchsafe_decoded(s),
        is_synchsafe(s) ==> spec_synchsafe_u32(s) < 0x1000_0000,
{
    assert(s & 0x8080_8080 == 0 ==> ({
        let low = (s & 0x0000_00ff) | ((s & 0x0000_0100) >> 1);
        let mid_low = ((s & 0x0000_fe00) >> 1) | ((s & 0x0003_0000) >> 2);
        let mid_high = ((s & 0x00fc_0000) >> 2) | ((s & 0x0700_0000) >> 3);
        let high = (s & 0xf800_0000) >> 3;
        &&& (high | mid_high | mid_low | low) == ((((s >> 24) as u8) % 128) as u32) * 0x20_0000 + (((((s >> 16) & 0xff) as u8) % 128) as u32) * 0x4000
                + (((((s >> 8) & 0xff) as u8) % 128) as u32) * 0x80 + ((((s & 0xff) as u8) % 128) as u32)
        &&& (high | mid_high | mid_low | low) < 0x1000_0000
    })) by (bit_vector);
}

/// The largest synchsafe word decodes to the largest number of 28 bits.
pub proof fn lemma_synchsafe_largest()
    ensures
        is_synchsafe(0x7f7f_7f7f),
        spec_synchsafe_u32(0x7f7f_7f7f) == 0x0fff_ffff,
{
    assert(0x7f7f_7f7fu32 & 0x8080_8080 == 0) by (bit_vector);
    assert(spec_synchsafe_u32(0x7f7f_7f7f) == 0x0fff_ffff) by (bit_vector);
}

/// True when `sync_int` is five bytes with the high bit of each clear.
pub open spec fn is_synchsafe_u40(sync_int: u64) -> bool {
    sync_int & 0xffff_ff80_8080_8080 == 0
}

/// The value of five seven-bit groups, most significant first, as far as it fits in
/// 32 bits: the three highest of its 35 bits are dropped.
pub open spec fn synchsafe_u40_decoded(sync_int: u64) -> nat {
    (((((sync_int >> 32) & 0xff) % 128) * 0x1000_0000 + (((sync_int >> 24) & 0xff) % 128)
        * 0x20_0000 + (((sync_int >> 16) & 0xff) % 128) * 0x4000 + (((sync_int >> 8) & 0xff) % 128)
        * 0x80 + ((sync_int & 0xff) % 128)) % 0x1_0000_0000) as nat
}

/// What `synchsafe_u40_to_u32` computes, as bit operations on the raw word.
pub open spec fn spec_synchsafe_u40(sync_int: u64) -> u64 {
    let low = (sync_int & 0x0000_00ff) | ((sync_int & 0x0000_0100) >> 1);
    let mid_low = ((sync_int & 0x0000_fe00) >> 1) | ((sync_int & 0x0003_0000) >> 2);
    let mid_high = ((sync_int & 0x00fc_0000) >> 2) | ((sync_int & 0x0700_0000) >> 3);
    let high = ((sync_int & 0xf800_0000) >> 3) | ((sync_int & 0x0f_0000_0000) >> 4);
    high | mid_high | mid_low | low
}

/// On five bytes with their high bits clear, the bit operations give the value of the
/// five seven-bit groups, cut to 32 bits.
pub proof fn lemma_synchsafe_u40(s: u64)
    ensures
        spec_synchsafe_u40(s) <= 0xffff_ffff,
        is_synchsafe_u40(s) ==> spec_synchsafe_u40(s) == synchsafe_u40_decoded(s),
{
    assert(spec_synchsafe_u40(s) <= 0xffff_ffff) by (bit_vector);
    assert(s & 0xffff_ff80_8080_8080 == 0 ==> ({
        let low = (s & 0x0000_00ff) | ((s & 0x0000_0100) >> 1);
        let mid_low = ((s & 0x0000_fe00) >> 1) | ((s & 0x0003_0000) >> 2);
        let mid_high = ((s & 0x00fc_0000) >> 2) | ((s & 0x0700_0000) >> 3);
        let high = ((s & 0xf800_0000) >> 3) | ((s & 0x0f_0000_0000) >> 4);
        (high | mid_high | mid_low | low) == ((((s >> 32) & 0xff) % 128) * 0x1000_0000 + (((s >> 24)
            & 0xff) % 128) * 0x20_0000 + (((s >> 16) & 0xff) % 128) * 0x4000 + (((s >> 8) & 0xff)
            % 128) * 0x80 + ((s & 0xff) % 128)) % 0x1_0000_0000
    })) by (bit_vector);
}

/// Decodes a synchsafe integer of five bytes, of which the low 32 bits are kept.
pub fn synchsafe_u40_to_u32(sync_int: u64) -> (r: u32)
    ensures
        r == spec_synchsafe_u40(sync_int),
        is_synchsafe_u40(sync_int) ==> r == synchsafe_u40_decoded(sync_int),
{
    let low: u64 = (sync_int & 0x0000_00ff) | ((sync_int & 0x0000_0100) >> 1);
    let mid_low: u64 = ((sync_int & 0x0000_fe00) >> 1) | ((sync_int & 0x0003_0000) >> 2);
    let mid_high: u64 = ((sync_int & 0x00fc_0000) >> 2) | ((sync_int & 0x0700_0000) >> 3);
    let high: u64 = ((sync_int & 0xf800_0000) >> 3) | ((sync_int & 0x0f_0000_0000) >> 4);
    proof {
        lemma_synchsafe_u40(sync_int);
    }
    (high | mid_high | mid_low | low) as u32
}

} // verus!
