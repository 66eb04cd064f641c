//! 48-bit logical block addresses and the 16-bit sector count field.
//!
//! The ATA-48 register model splits an address into six 8-bit fields: a low
//! triad holding bits 0..24 and a high ("expanded") triad holding bits
//! 24..48. The sector count field is 16 bits wide, and a value of zero
//! encodes the maximum transfer of 65536 sectors.

use vstd::prelude::*;

verus! {

/// One past the largest 48-bit logical block address.
pub const LBA48_LIMIT: u64 = 0x1_0000_0000_0000;

/// Largest sector count one command can carry (encoded as zero).
pub const MAX_TRANSFER_SECTORS: u32 = 65536;

/// Address bits 0..8 (low triad, low register).
pub open spec fn lba_byte0(sector: u64) -> u8 {
    (sector & 0xff) as u8
}

/// Address bits 8..16 (low triad, mid register).
pub open spec fn lba_byte1(sector: u64) -> u8 {
    ((sector >> 8) & 0xff) as u8
}

/// Address bits 16..24 (low triad, high register).
pub open spec fn lba_byte2(sector: u64) -> u8 {
    ((sector >> 16) & 0xff) as u8
}

/// Address bits 24..32 (high triad, low register).
pub open spec fn lba_byte3(sector: u64) -> u8 {
    ((sector >> 24) & 0xff) as u8
}

/// Address bits 32..40 (high triad, mid register).
pub open spec fn lba_byte4(sector: u64) -> u8 {
    ((sector >> 32) & 0xff) as u8
}

/// Address bits 40..48 (high triad, high register).
pub open spec fn lba_byte5(sector: u64) -> u8 {
    ((sector >> 40) & 0xff) as u8
}

/// The address a device reads back from the six LBA registers.
pub open spec fn lba_assemble(b0: u8, b1: u8, b2: u8, b3: u8, b4: u8, b5: u8) -> u64 {
    (b0 as u64) | ((b1 as u64) << 8) | ((b2 as u64) << 16) | ((b3 as u64) << 24)
        | ((b4 as u64) << 32) | ((b5 as u64) << 40)
}

/// Splitting an address below `LBA48_LIMIT` into the six register bytes and
/// reassembling them reproduces the address exactly; the largest address
/// fills every register with 0xFF.
pub proof fn lemma_lba48_round_trip(sector: u64)
    requires
        sector < LBA48_LIMIT,
    ensures
        lba_assemble(
            lba_byte0(sector),
            lba_byte1(sector),
            lba_byte2(sector),
            lba_byte3(sector),
            lba_byte4(sector),
            lba_byte5(sector),
        ) == sector,
        sector == LBA48_LIMIT - 1 ==> lba_byte0(sector) == 0xff && lba_byte1(sector) == 0xff
            && lba_byte2(sector) == 0xff && lba_byte3(sector) == 0xff
            && lba_byte4(sector) == 0xff && lba_byte5(sector) == 0xff,
{
    assert(lba_assemble(
        lba_byte0(sector),
        lba_byte1(sector),
        lba_byte2(sector),
        lba_byte3(sector),
        lba_byte4(sector),
        lba_byte5(sector),
    ) == sector) by (bit_vector)
        requires
            sector < 0x1_0000_0000_0000u64,
    ;
    assert(sector == 0xffff_ffff_ffffu64 ==> lba_byte0(sector) == 0xff && lba_byte1(sector)
        == 0xff && lba_byte2(sector) == 0xff && lba_byte3(sector) == 0xff && lba_byte4(sector)
        == 0xff && lba_byte5(sector) == 0xff) by (bit_vector);
}

/// Low byte of the 16-bit sector count field.
pub open spec fn count_lo(nsect: u32) -> u8 {
    (nsect & 0xff) as u8
}

/// High byte of the 16-bit sector count field.
pub open spec fn count_hi(nsect: u32) -> u8 {
    ((nsect >> 8) & 0xff) as u8
}

/// The sector count a device reads back from the two count registers:
/// an all-zero field means the maximum transfer of 65536 sectors.
pub open spec fn count_assemble(hi: u8, lo: u8) -> u32 {
    if hi == 0 && lo == 0 {
        65536
    } else {
        ((hi as u32) << 8) | (lo as u32)
    }
}

/// Encoding a sector count between 1 and 65536 into the two count registers
/// and reading it back under the zero-means-65536 convention reproduces the
/// count exactly; in particular the maximum count encodes as an all-zero
/// field.
pub proof fn lemma_count_round_trip(nsect: u32)
    requires
        1 <= nsect <= MAX_TRANSFER_SECTORS,
    ensures
        count_assemble(count_hi(nsect), count_lo(nsect)) == nsect,
        nsect == MAX_TRANSFER_SECTORS ==> count_hi(nsect) == 0 && count_lo(nsect) == 0,
{
    assert(count_assemble(count_hi(nsect), count_lo(nsect)) == nsect) by (bit_vector)
        requires
            1 <= nsect <= 65536u32,
    ;
    assert(nsect == 65536u32 ==> count_hi(nsect) == 0 && count_lo(nsect) == 0) by (bit_vector);
}

} // verus!
