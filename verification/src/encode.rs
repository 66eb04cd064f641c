//! Command encoders for the two kernel pass-through transports.
//!
//! Both transports carry the same ATA command, derived by the same rules
//! (opcode, LBA48 split, 16-bit sector count with zero meaning 65536, fixed
//! timeout), but in materially different shapes: the generic-ioctl
//! transport takes a flat 16-byte ATA-16 command descriptor block whose LBA
//! bytes sit at non-contiguous, interleaved positions, while the
//! control-block transport takes named task-file registers. The byte
//! positions in the descriptor block are a transport contract and are
//! reproduced exactly.

use vstd::prelude::*;

use crate::error::AtaError;
use crate::lba::{
    count_hi, count_lo, lba_byte0, lba_byte1, lba_byte2, lba_byte3, lba_byte4, lba_byte5,
    LBA48_LIMIT,
};
use crate::SECTOR_BYTES;

verus! {

/// Largest byte length of a single transfer: 65536 sectors of 512 bytes.
pub const MAX_TRANSFER_BYTES: usize = 65536 * 512;

/// ATA command opcode READ DMA EXT.
pub const ATA_CMD_READ_DMA_EXT: u8 = 0x25;

/// ATA command opcode WRITE DMA EXT.
pub const ATA_CMD_WRITE_DMA_EXT: u8 = 0x35;

/// ATA command opcode IDENTIFY DEVICE.
pub const ATA_CMD_IDENTIFY: u8 = 0xEC;

/// SCSI operation code of the ATA-16 pass-through command.
pub const SG_ATA_16: u8 = 0x85;

/// Length in bytes of the ATA-16 command descriptor block.
pub const SG_ATA_16_LEN: u8 = 16;

/// Protocol byte flag: the command uses the 48-bit register set.
pub const SG_ATA_LBA48: u8 = 1;

/// Protocol byte field: DMA protocol (protocol number 6, shifted into place).
pub const SG_ATA_PROTO_DMA: u8 = 6 << 1;

/// Flags byte field: the transfer length stands in the sector count field.
pub const SG_CDB2_TLEN_NSECT: u8 = 2;

/// Flags byte field: the transfer length counts sectors, not bytes.
pub const SG_CDB2_TLEN_SECTORS: u8 = 1 << 2;

/// Flags byte field: data moves from the host to the device.
pub const SG_CDB2_TDIR_TO_DEV: u8 = 0;

/// Flags byte field: data moves from the device to the host.
pub const SG_CDB2_TDIR_FROM_DEV: u8 = 1 << 3;

/// Device register pattern: LBA mode, drive 0.
pub const SG_ATA_DEVICE_LBA: u8 = 0xE0;

/// Task-file device register pattern of the control-block transport:
/// LBA mode, drive 0.
pub const TF_DEVICE_LBA: u8 = 0x40;

/// Task-file flag: the completed command's result registers are wanted.
pub const TF_FLAG_NEEDRESULT: u8 = 0x08;

/// Task-file flag: the command is a DMA transfer.
pub const TF_FLAG_DMA: u8 = 0x10;

/// Task-file flag: the command uses the 48-bit register set.
pub const TF_FLAG_48BIT: u8 = 0x01;

/// Timeout in milliseconds attached to a generic-ioctl command. Fixed per
/// command, independent of transfer size.
pub const SG_TIMEOUT_MS: u32 = 1000;

/// Timeout in milliseconds attached to a control-block command. Fixed per
/// command, independent of transfer size.
pub const CCB_TIMEOUT_MS: u32 = 5000;

/// Which way the data of a command moves.
#[derive(Clone, Copy, Debug, PartialEq, Eq, Structural)]
pub enum Direction {
    /// The device fills the caller's buffer (read, identify).
    FromDevice,
    /// The device consumes the caller's buffer (write).
    ToDevice,
}

/// One encoded command for the generic-ioctl transport: the 16-byte ATA-16
/// descriptor block plus the submission parameters that accompany it.
#[derive(Debug)]
pub struct SgCommand {
    /// The ATA-16 command descriptor block, laid out exactly as the
    /// transport expects it.
    pub cdb: [u8; 16],
    /// Which way the data buffer moves.
    pub direction: Direction,
    /// Byte length of the data transfer.
    pub data_len: u32,
    /// Timeout in milliseconds.
    pub timeout_ms: u32,
    /// Tag the submission carries; derived from the low address bits.
    pub pack_id: u32,
}

/// One encoded command for the control-block transport: the named
/// task-file registers of the ATA I/O sub-structure, plus the submission
/// parameters. Every field of the block outside the header is derived
/// here, so populating a reused block from this value also restores the
/// fields an earlier command may have set.
#[derive(Debug)]
pub struct TaskFileCommand {
    /// ATA command opcode.
    pub command: u8,
    /// Task-file flags (DMA, 48-bit, result wanted).
    pub flags: u8,
    /// Low byte of the sector count.
    pub sector_count: u8,
    /// High byte of the sector count.
    pub sector_count_exp: u8,
    /// Address bits 0..8.
    pub lba_low: u8,
    /// Address bits 8..16.
    pub lba_mid: u8,
    /// Address bits 16..24.
    pub lba_high: u8,
    /// Address bits 24..32.
    pub lba_low_exp: u8,
    /// Address bits 32..40.
    pub lba_mid_exp: u8,
    /// Address bits 40..48.
    pub lba_high_exp: u8,
    /// Device register.
    pub device: u8,
    /// Control register; always zero here.
    pub control: u8,
    /// Feature register; always zero here.
    pub features: u8,
    /// Expanded feature register; always zero here.
    pub features_exp: u8,
    /// Which way the data buffer moves.
    pub direction: Direction,
    /// Byte length of the data transfer.
    pub data_len: u32,
    /// Timeout in milliseconds.
    pub timeout_ms: u32,
}

/// The identify request of the legacy drive-command ioctl: a four-byte
/// header the kernel reads (the response bytes follow it in the caller's
/// storage).
#[derive(Debug)]
pub struct DriveCmd {
    /// ATA command opcode.
    pub command: u8,
    /// Sector number register; zero for identify.
    pub sector: u8,
    /// Feature register; zero for identify.
    pub feature: u8,
    /// Sector count register; one response sector for identify.
    pub nsector: u8,
}

/// The exact ATA-16 descriptor block for a DMA transfer command. The LBA
/// bytes interleave: each high-triad byte precedes its low-triad partner,
/// in (low, mid, high) register order.
pub open spec fn spec_ata16_cdb(opcode: u8, tdir: u8, sector: u64, nsect: u32) -> Seq<u8> {
    seq![
        SG_ATA_16,
        SG_ATA_LBA48 | SG_ATA_PROTO_DMA,
        SG_CDB2_TLEN_NSECT | SG_CDB2_TLEN_SECTORS | tdir,
        0u8,
        0u8,
        count_hi(nsect),
        count_lo(nsect),
        lba_byte3(sector),
        lba_byte0(sector),
        lba_byte4(sector),
        lba_byte1(sector),
        lba_byte5(sector),
        lba_byte2(sector),
        SG_ATA_DEVICE_LBA,
        opcode,
        0u8,
    ]
}

/// Builds the ATA-16 descriptor block and submission parameters for one
/// DMA transfer command on the generic-ioctl transport.
fn encode_sg_transfer(opcode: u8, tdir: u8, direction: Direction, sector: u64, nsect: u32) -> (r:
    SgCommand)
    requires
        sector < LBA48_LIMIT,
        1 <= nsect <= 65536,
    ensures
        r.cdb@ == spec_ata16_cdb(opcode, tdir, sector, nsect),
        r.direction == direction,
        r.data_len == nsect * 512,
        r.timeout_ms == SG_TIMEOUT_MS,
        r.pack_id == (sector & 0xffff_ffff) as u32,
{
    let cdb: [u8; 16] = [
        SG_ATA_16,
        SG_ATA_LBA48 | SG_ATA_PROTO_DMA,
        SG_CDB2_TLEN_NSECT | SG_CDB2_TLEN_SECTORS | tdir,
        0u8,
        0u8,
        ((nsect >> 8) & 0xff) as u8,
        (nsect & 0xff) as u8,
        ((sector >> 24) & 0xff) as u8,
        (sector & 0xff) as u8,
        ((sector >> 32) & 0xff) as u8,
        ((sector >> 8) & 0xff) as u8,
        ((sector >> 40) & 0xff) as u8,
        ((sector >> 16) & 0xff) as u8,
        SG_ATA_DEVICE_LBA,
        opcode,
        0u8,
    ];
    proof {
        assert(cdb@ =~= spec_ata16_cdb(opcode, tdir, sector, nsect));
    }
    SgCommand {
        cdb,
        direction,
        data_len: nsect * 512,
        timeout_ms: SG_TIMEOUT_MS,
        pack_id: (sector & 0xffff_ffff) as u32,
    }
}

/// Encodes READ DMA EXT of `nsect` sectors starting at `sector` for the
/// generic-ioctl transport.
pub fn encode_sg_read(sector: u64, nsect: u32) -> (r: SgCommand)
    requires
        sector < LBA48_LIMIT,
        1 <= nsect <= 65536,
    ensures
        r.cdb@ == spec_ata16_cdb(ATA_CMD_READ_DMA_EXT, SG_CDB2_TDIR_FROM_DEV, sector, nsect),
        r.direction == Direction::FromDevice,
        r.data_len == nsect * 512,
        r.timeout_ms == SG_TIMEOUT_MS,
        r.pack_id == (sector & 0xffff_ffff) as u32,
{
    encode_sg_transfer(
        ATA_CMD_READ_DMA_EXT,
        SG_CDB2_TDIR_FROM_DEV,
        Direction::FromDevice,
        sector,
        nsect,
    )
}

/// Encodes WRITE DMA EXT of `nsect` sectors starting at `sector` for the
/// generic-ioctl transport.
pub fn encode_sg_write(sector: u64, nsect: u32) -> (r: SgCommand)
    requires
        sector < LBA48_LIMIT,
        1 <= nsect <= 65536,
    ensures
        r.cdb@ == spec_ata16_cdb(ATA_CMD_WRITE_DMA_EXT, SG_CDB2_TDIR_TO_DEV, sector, nsect),
        r.direction == Direction::ToDevice,
        r.data_len == nsect * 512,
        r.timeout_ms == SG_TIMEOUT_MS,
        r.pack_id == (sector & 0xffff_ffff) as u32,
{
    encode_sg_transfer(
        ATA_CMD_WRITE_DMA_EXT,
        SG_CDB2_TDIR_TO_DEV,
        Direction::ToDevice,
        sector,
        nsect,
    )
}

/// Encodes IDENTIFY DEVICE for the legacy drive-command ioctl.
pub fn encode_identify() -> (r: DriveCmd)
    ensures
        r.command == ATA_CMD_IDENTIFY,
        r.sector == 0,
        r.feature == 0,
        r.nsector == 1,
{
    DriveCmd { command: ATA_CMD_IDENTIFY, sector: 0, feature: 0, nsector: 1 }
}

/// Builds the task-file registers and submission parameters for one DMA
/// transfer command on the control-block transport.
fn encode_tf_transfer(opcode: u8, direction: Direction, sector: u64, nsect: u32) -> (r:
    TaskFileCommand)
    requires
        sector < LBA48_LIMIT,
        1 <= nsect <= 65536,
    ensures
        r.command == opcode,
        r.flags == TF_FLAG_NEEDRESULT | TF_FLAG_DMA | TF_FLAG_48BIT,
        r.sector_count == count_lo(nsect),
        r.sector_count_exp == count_hi(nsect),
        r.lba_low == lba_byte0(sector),
        r.lba_mid == lba_byte1(sector),
        r.lba_high == lba_byte2(sector),
        r.lba_low_exp == lba_byte3(sector),
        r.lba_mid_exp == lba_byte4(sector),
        r.lba_high_exp == lba_byte5(sector),
        r.device == TF_DEVICE_LBA,
        r.control == 0 && r.features == 0 && r.features_exp == 0,
        r.direction == direction,
        r.data_len == nsect * 512,
        r.timeout_ms == CCB_TIMEOUT_MS,
{
    TaskFileCommand {
        command: opcode,
        flags: TF_FLAG_NEEDRESULT | TF_FLAG_DMA | TF_FLAG_48BIT,
        sector_count: (nsect & 0xff) as u8,
        sector_count_exp: ((nsect >> 8) & 0xff) as u8,
        lba_low: (sector & 0xff) as u8,
        lba_mid: ((sector >> 8) & 0xff) as u8,
        lba_high: ((sector >> 16) & 0xff) as u8,
        lba_low_exp: ((sector >> 24) & 0xff) as u8,
        lba_mid_exp: ((sector >> 32) & 0xff) as u8,
        lba_high_exp: ((sector >> 40) & 0xff) as u8,
        device: TF_DEVICE_LBA,
        control: 0,
        features: 0,
        features_exp: 0,
        direction,
        data_len: nsect * 512,
        timeout_ms: CCB_TIMEOUT_MS,
    }
}

/// Encodes READ DMA EXT for the control-block transport.
pub fn encode_tf_read(sector: u64, nsect: u32) -> (r: TaskFileCommand)
    requires
        sector < LBA48_LIMIT,
        1 <= nsect <= 65536,
    ensures
        r == encode_tf_spec(ATA_CMD_READ_DMA_EXT, Direction::FromDevice, sector, nsect),
{
    encode_tf_transfer(ATA_CMD_READ_DMA_EXT, Direction::FromDevice, sector, nsect)
}

/// Encodes WRITE DMA EXT for the control-block transport.
pub fn encode_tf_write(sector: u64, nsect: u32) -> (r: TaskFileCommand)
    requires
        sector < LBA48_LIMIT,
        1 <= nsect <= 65536,
    ensures
        r == encode_tf_spec(ATA_CMD_WRITE_DMA_EXT, Direction::ToDevice, sector, nsect),
{
    encode_tf_transfer(ATA_CMD_WRITE_DMA_EXT, Direction::ToDevice, sector, nsect)
}

/// The task-file register block a DMA transfer command derives to: the
/// same field derivations as the descriptor block of the other transport,
/// placed into named registers.
pub open spec fn encode_tf_spec(opcode: u8, direction: Direction, sector: u64, nsect: u32)
    -> TaskFileCommand {
    TaskFileCommand {
        command: opcode,
        flags: TF_FLAG_NEEDRESULT | TF_FLAG_DMA | TF_FLAG_48BIT,
        sector_count: count_lo(nsect),
        sector_count_exp: count_hi(nsect),
        lba_low: lba_byte0(sector),
        lba_mid: lba_byte1(sector),
        lba_high: lba_byte2(sector),
        lba_low_exp: lba_byte3(sector),
        lba_mid_exp: lba_byte4(sector),
        lba_high_exp: lba_byte5(sector),
        device: TF_DEVICE_LBA,
        control: 0,
        features: 0,
        features_exp: 0,
        direction,
        data_len: (nsect * 512) as u32,
        timeout_ms: CCB_TIMEOUT_MS,
    }
}

/// Encodes IDENTIFY DEVICE for the control-block transport: one response
/// sector, no address, DMA without the 48-bit register set.
pub fn encode_tf_identify() -> (r: TaskFileCommand)
    ensures
        r.command == ATA_CMD_IDENTIFY,
        r.flags == TF_FLAG_NEEDRESULT | TF_FLAG_DMA,
        r.sector_count == 1,
        r.sector_count_exp == 0,
        r.lba_low == 0 && r.lba_mid == 0 && r.lba_high == 0,
        r.lba_low_exp == 0 && r.lba_mid_exp == 0 && r.lba_high_exp == 0,
        r.device == TF_DEVICE_LBA,
        r.control == 0 && r.features == 0 && r.features_exp == 0,
        r.direction == Direction::FromDevice,
        r.data_len == 512,
        r.timeout_ms == CCB_TIMEOUT_MS,
{
    TaskFileCommand {
        command: ATA_CMD_IDENTIFY,
        flags: TF_FLAG_NEEDRESULT | TF_FLAG_DMA,
        sector_count: 1,
        sector_count_exp: 0,
        lba_low: 0,
        lba_mid: 0,
        lba_high: 0,
        lba_low_exp: 0,
        lba_mid_exp: 0,
        lba_high_exp: 0,
        device: TF_DEVICE_LBA,
        control: 0,
        features: 0,
        features_exp: 0,
        direction: Direction::FromDevice,
        data_len: 512,
        timeout_ms: CCB_TIMEOUT_MS,
    }
}

/// What checking a transfer buffer length yields: the sector count it
/// stands for, or exactly the offending precondition. A valid length is a
/// positive multiple of the sector size, at most the largest single
/// transfer.
pub open spec fn spec_transfer_check(buffer_len: usize) -> Result<u32, AtaError> {
    if buffer_len == 0 {
        Err(AtaError::BufferEmpty)
    } else if buffer_len % 512 != 0 {
        Err(AtaError::BufferNotSectorMultiple)
    } else if buffer_len > MAX_TRANSFER_BYTES {
        Err(AtaError::BufferTooLarge)
    } else {
        Ok((buffer_len / 512) as u32)
    }
}

/// A sector count that passed the check is between 1 and 65536.
pub proof fn lemma_transfer_check_range(buffer_len: usize)
    ensures
        spec_transfer_check(buffer_len) matches Ok(nsect) ==> 1 <= nsect <= 65536,
{
    if buffer_len != 0 && buffer_len % 512 == 0 && buffer_len <= MAX_TRANSFER_BYTES {
        assert(buffer_len == 512 * (buffer_len / 512));
        assert(1 <= buffer_len / 512 <= 65536);
    }
}

/// Checks the transfer-buffer preconditions and turns a byte length into a
/// sector count: the length must be a positive multiple of the sector size
/// and at most the largest single transfer. Exactly the offending
/// precondition is reported.
pub fn validate_transfer_len(buffer_len: usize) -> (r: Result<u32, AtaError>)
    ensures
        r == spec_transfer_check(buffer_len),
{
    if buffer_len == 0 {
        Err(AtaError::BufferEmpty)
    } else if buffer_len % SECTOR_BYTES != 0 {
        Err(AtaError::BufferNotSectorMultiple)
    } else if buffer_len > MAX_TRANSFER_BYTES {
        Err(AtaError::BufferTooLarge)
    } else {
        Ok((buffer_len / SECTOR_BYTES) as u32)
    }
}

} // verus!
