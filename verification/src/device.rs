//! The device facade: one open disk and its handle state machine.
//!
//! A handle moves `Closed -> Open -> Closed` and nowhere else. Every
//! operation on a closed handle is rejected deterministically, and closing
//! releases the descriptor exactly once, however often `close` is called.
//!
//! The facade validates the transfer-buffer preconditions, encodes the
//! command, and judges the submission outcome; the kernel calls that carry
//! the encoded commands happen outside the crate, which hands their plain
//! results back in through [`Device::open`] and the outcome classifiers.

use vstd::prelude::*;

use crate::encode::{
    encode_identify, encode_sg_read, encode_sg_write, validate_transfer_len, DriveCmd, SgCommand,
};
use crate::error::AtaError;
use crate::lba::LBA48_LIMIT;

verus! {

/// An attached ATA device: the facade over one transport handle.
///
/// The descriptor inside is an opaque token of the kernel transport; the
/// facade only stores it while the handle is open and surrenders it once
/// on close.
pub struct Device {
    fd: i32,
    open: bool,
}

impl Device {
    /// Whether the handle is open: commands are encoded only in this
    /// state.
    pub closed spec fn is_open(&self) -> bool {
        self.open
    }

    /// The descriptor the handle was opened with.
    pub closed spec fn spec_fd(&self) -> i32 {
        self.fd
    }

    /// Wraps a descriptor the kernel transport handed out into an open
    /// handle. A failed open never reaches this point: it is classified
    /// by [`crate::error::classify_open_error`] and no handle exists.
    pub fn open(fd: i32) -> (r: Device)
        requires
            fd >= 0,
        ensures
            r.is_open(),
            r.spec_fd() == fd,
    {
        Device { fd, open: true }
    }

    /// Reports whether the handle is still open.
    pub fn opened(&self) -> (r: bool)
        ensures
            r == self.is_open(),
    {
        self.open
    }

    /// The descriptor to submit through, while the handle is open.
    pub fn descriptor(&self) -> (r: Option<i32>)
        ensures
            self.is_open() ==> r == Some(self.spec_fd()),
            !self.is_open() ==> r == None::<i32>,
    {
        if self.open {
            Some(self.fd)
        } else {
            None
        }
    }

    /// Closes the handle and surrenders the descriptor for release. The
    /// first close of an open handle returns the descriptor; any further
    /// close finds the handle already closed and returns nothing, so the
    /// descriptor can never be released twice.
    pub fn close(&mut self) -> (r: Option<i32>)
        ensures
            !final(self).is_open(),
            final(self).spec_fd() == old(self).spec_fd(),
            old(self).is_open() ==> r == Some(old(self).spec_fd()),
            !old(self).is_open() ==> r == None::<i32>,
    {
        if self.open {
            self.open = false;
            Some(self.fd)
        } else {
            None
        }
    }

    /// Encodes a read of `buffer_len` bytes starting at `sector` into a
    /// READ DMA EXT command for the generic-ioctl transport. Rejected on
    /// a closed handle and on a buffer that is empty, not a whole number
    /// of sectors, or beyond the largest single transfer; the handle
    /// state never changes.
    pub fn read(&mut self, sector: u64, buffer_len: usize) -> (r: Result<SgCommand, AtaError>)
        requires
            sector < LBA48_LIMIT,
        ensures
            *final(self) == *old(self),
            !old(self).is_open() ==> r == Result::<SgCommand, AtaError>::Err(AtaError::NotOpen),
            old(self).is_open() ==> match crate::encode::spec_transfer_check(buffer_len) {
                Ok(nsect) => r matches Ok(c) && c.cdb@ == crate::encode::spec_ata16_cdb(
                    crate::encode::ATA_CMD_READ_DMA_EXT,
                    crate::encode::SG_CDB2_TDIR_FROM_DEV,
                    sector,
                    nsect,
                ) && c.direction == crate::encode::Direction::FromDevice && c.data_len == nsect
                    * 512 && c.timeout_ms == crate::encode::SG_TIMEOUT_MS && c.pack_id == (sector
                    & 0xffff_ffff) as u32,
                Err(e) => r == Result::<SgCommand, AtaError>::Err(e),
            },
    {
        if !self.open {
            return Err(AtaError::NotOpen);
        }
        let nsect = match validate_transfer_len(buffer_len) {
            Ok(n) => n,
            Err(e) => {
                return Err(e);
            },
        };
        proof {
            crate::encode::lemma_transfer_check_range(buffer_len);
        }
        Ok(encode_sg_read(sector, nsect))
    }

    /// Encodes a write of `buffer_len` bytes starting at `sector` into a
    /// WRITE DMA EXT command for the generic-ioctl transport, under the
    /// same rejections as [`Device::read`].
    pub fn write(&mut self, sector: u64, buffer_len: usize) -> (r: Result<SgCommand, AtaError>)
        requires
            sector < LBA48_LIMIT,
        ensures
            *final(self) == *old(self),
            !old(self).is_open() ==> r == Result::<SgCommand, AtaError>::Err(AtaError::NotOpen),
            old(self).is_open() ==> match crate::encode::spec_transfer_check(buffer_len) {
                Ok(nsect) => r matches Ok(c) && c.cdb@ == crate::encode::spec_ata16_cdb(
                    crate::encode::ATA_CMD_WRITE_DMA_EXT,
                    crate::encode::SG_CDB2_TDIR_TO_DEV,
                    sector,
                    nsect,
                ) && c.direction == crate::encode::Direction::ToDevice && c.data_len == nsect * 512
                    && c.timeout_ms == crate::encode::SG_TIMEOUT_MS && c.pack_id == (sector
                    & 0xffff_ffff) as u32,
                Err(e) => r == Result::<SgCommand, AtaError>::Err(e),
            },
    {
        if !self.open {
            return Err(AtaError::NotOpen);
        }
        let nsect = match validate_transfer_len(buffer_len) {
            Ok(n) => n,
            Err(e) => {
                return Err(e);
            },
        };
        proof {
            crate::encode::lemma_transfer_check_range(buffer_len);
        }
        Ok(encode_sg_write(sector, nsect))
    }

    /// Encodes the IDENTIFY DEVICE request for the legacy drive-command
    /// ioctl. Rejected on a closed handle; the response bytes are decoded
    /// by [`crate::identify::IdentifyDeviceData::decode`].
    pub fn info(&mut self) -> (r: Result<DriveCmd, AtaError>)
        ensures
            *final(self) == *old(self),
            !old(self).is_open() ==> r == Result::<DriveCmd, AtaError>::Err(AtaError::NotOpen),
            old(self).is_open() ==> (r matches Ok(c) && c.command
                == crate::encode::ATA_CMD_IDENTIFY && c.sector == 0 && c.feature == 0 && c.nsector
                == 1),
    {
        if !self.open {
            return Err(AtaError::NotOpen);
        }
        Ok(encode_identify())
    }
}

} // verus!
