use vstd::prelude::*;

verus! {

/// What marks a device address as static and random: the two highest bits of
/// its highest byte.
pub const STATIC_MARK: u8 = 0xc0;

/// The six bytes of the device's radio address, lowest first, as they follow
/// from the two words of the chip's device identifier: the four bytes of the
/// low word, then the two low bytes of the high word, the last of them with
/// the static mark.
pub open spec fn spec_ble_addr(low: u32, high: u32) -> Seq<u8> {
    seq![
        (low % 0x100) as u8,
        (low / 0x100 % 0x100) as u8,
        (low / 0x1_0000 % 0x100) as u8,
        (low / 0x100_0000) as u8,
        (high % 0x100) as u8,
        (high / 0x100 % 0x100) as u8 | STATIC_MARK,
    ]
}

/// Derives the device's radio address from the two words of the chip's device
/// identifier.
pub fn ble_addr(low: u32, high: u32) -> (addr: [u8; 6])
    ensures
        addr@ == spec_ble_addr(low, high),
        addr@[5] & STATIC_MARK == STATIC_MARK,
{
    let wide: u64 = ((high as u64) << 32) | (low as u64);
    let wide: u64 = wide | 0x0000_c000_0000_0000;
    let addr: [u8; 6] = [
        #[verifier::truncate]
        (wide as u8),
        #[verifier::truncate]
        ((wide >> 8) as u8),
        #[verifier::truncate]
        ((wide >> 16) as u8),
        #[verifier::truncate]
        ((wide >> 24) as u8),
        #[verifier::truncate]
        ((wide >> 32) as u8),
        #[verifier::truncate]
        ((wide >> 40) as u8),
    ];
    proof {
        let w = (((high as u64) << 32) | (low as u64)) | 0x0000_c000_0000_0000;
        assert(w as u8 == (low % 0x100) as u8) by (bit_vector)
            requires
                w == (((high as u64) << 32) | (low as u64)) | 0x0000_c000_0000_0000,
        ;
        assert((w >> 8) as u8 == (low / 0x100 % 0x100) as u8) by (bit_vector)
            requires
                w == (((high as u64) << 32) | (low as u64)) | 0x0000_c000_0000_0000,
        ;
        assert((w >> 16) as u8 == (low / 0x1_0000 % 0x100) as u8) by (bit_vector)
            requires
                w == (((high as u64) << 32) | (low as u64)) | 0x0000_c000_0000_0000,
        ;
        assert((w >> 24) as u8 == (low / 0x100_0000) as u8) by (bit_vector)
            requires
                w == (((high as u64) << 32) | (low as u64)) | 0x0000_c000_0000_0000,
        ;
        assert((w >> 32) as u8 == (high % 0x100) as u8) by (bit_vector)
            requires
                w == (((high as u64) << 32) | (low as u64)) | 0x0000_c000_0000_0000,
        ;
        assert((w >> 40) as u8 == (high / 0x100 % 0x100) as u8 | 0xc0u8) by (bit_vector)
            requires
                w == (((high as u64) << 32) | (low as u64)) | 0x0000_c000_0000_0000,
        ;
        let top = (high / 0x100 % 0x100) as u8;
        assert((top | 0xc0u8) & 0xc0u8 == 0xc0u8) by (bit_vector);
        assert(addr@ =~= spec_ble_addr(low, high));
    }
    addr
}

} // verus!
