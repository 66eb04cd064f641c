//! Error taxonomy of the library.
//!
//! Four families of failure are kept apart: precondition violations on the
//! transfer buffer, failures to open a device, transport-level failures (the
//! kernel call itself failed) and device-level failures (the kernel call
//! went through but the drive reported a fault).

use vstd::prelude::*;

verus! {

/// The `errno` a kernel returns when the caller lacks privilege.
pub const ERRNO_EPERM: i32 = 1;

/// The `errno` a kernel returns when the device path does not exist.
pub const ERRNO_ENOENT: i32 = 2;

/// The `errno` a kernel returns when access to the device is denied.
pub const ERRNO_EACCES: i32 = 13;

/// Everything an operation of this library can fail with.
#[derive(Clone, Copy, Debug, PartialEq, Eq, Structural)]
pub enum AtaError {
    /// The transfer buffer is empty; a transfer moves at least one sector.
    BufferEmpty,
    /// The transfer buffer length is not a multiple of the sector size.
    BufferNotSectorMultiple,
    /// The transfer buffer is longer than the largest single transfer.
    BufferTooLarge,
    /// The handle is closed; no command can be submitted through it.
    NotOpen,
    /// Opening the device failed for lack of privilege.
    PermissionDenied { errno: i32 },
    /// Opening the device failed because the path names no device.
    NotFound { errno: i32 },
    /// The kernel call itself failed; the command never reached the drive.
    Transport { errno: i32 },
    /// The drive executed the command and reported a fault; the field holds
    /// the sense key (at most 15).
    Device { sense_key: u8 },
    /// The drive set the error bit in its returned status register.
    CommandFailed { status: u8 },
}

impl AtaError {
    /// True of the two error families that come back from a submitted
    /// command: a device-level fault, as opposed to a transport-level one.
    pub open spec fn spec_is_device_level(&self) -> bool {
        self is Device || self is CommandFailed
    }

    /// Tells a device-level fault (the drive answered and reported an
    /// error) from every other failure.
    pub fn is_device_level(&self) -> (r: bool)
        ensures
            r == self.spec_is_device_level(),
    {
        match self {
            AtaError::Device { .. } => true,
            AtaError::CommandFailed { .. } => true,
            _ => false,
        }
    }
}

/// The textual name of a SCSI sense key, as the generic transport reports
/// device-level faults.
pub open spec fn spec_sense_key_name(key: u8) -> Seq<char> {
    if key == 0 {
        "NO_SENSE"@
    } else if key == 1 {
        "RECOVERED_ERROR"@
    } else if key == 2 {
        "NOT_READY"@
    } else if key == 3 {
        "MEDIUM_ERROR"@
    } else if key == 4 {
        "HARDWARE_ERROR"@
    } else if key == 5 {
        "ILLEGAL_REQUEST"@
    } else if key == 6 {
        "UNIT_ATTENTION"@
    } else if key == 7 {
        "DATA_PROTECT"@
    } else if key == 8 {
        "BLANK_CHECK"@
    } else if key == 9 {
        "VENDOR_SPECIFIC"@
    } else if key == 10 {
        "COPY_ABORTED"@
    } else if key == 11 {
        "ABORTED_COMMAND"@
    } else if key == 12 {
        "OTHER"@
    } else if key == 13 {
        "VOLUME_OVERFLOW"@
    } else if key == 14 {
        "MISCOMPARE"@
    } else {
        "COMPLETE"@
    }
}

/// Returns the name of a sense key, as a diagnostic for the caller.
pub fn sense_key_name(key: u8) -> (r: String)
    requires
        key <= 15,
    ensures
        r@ == spec_sense_key_name(key),
{
    let name: &str = match key {
        0 => "NO_SENSE",
        1 => "RECOVERED_ERROR",
        2 => "NOT_READY",
        3 => "MEDIUM_ERROR",
        4 => "HARDWARE_ERROR",
        5 => "ILLEGAL_REQUEST",
        6 => "UNIT_ATTENTION",
        7 => "DATA_PROTECT",
        8 => "BLANK_CHECK",
        9 => "VENDOR_SPECIFIC",
        10 => "COPY_ABORTED",
        11 => "ABORTED_COMMAND",
        12 => "OTHER",
        13 => "VOLUME_OVERFLOW",
        14 => "MISCOMPARE",
        _ => "COMPLETE",
    };
    name.to_string()
}

/// Wraps a sense key reported by the drive into the device-level error kind.
pub fn sg_error_to_io(err: u8) -> (r: AtaError)
    requires
        err <= 15,
    ensures
        r == (AtaError::Device { sense_key: err }),
{
    AtaError::Device { sense_key: err }
}

/// Classifies a failed attempt to open a device from the `errno` the kernel
/// handed back: lack of privilege and a missing path each get their own
/// error kind, anything else surfaces as a transport failure.
pub fn classify_open_error(errno: i32) -> (r: AtaError)
    ensures
        (errno == ERRNO_EPERM || errno == ERRNO_EACCES) ==> r == (AtaError::PermissionDenied {
            errno,
        }),
        errno == ERRNO_ENOENT ==> r == (AtaError::NotFound { errno }),
        !(errno == ERRNO_EPERM || errno == ERRNO_EACCES || errno == ERRNO_ENOENT) ==> r == (
        AtaError::Transport { errno }),
{
    if errno == ERRNO_EPERM || errno == ERRNO_EACCES {
        AtaError::PermissionDenied { errno }
    } else if errno == ERRNO_ENOENT {
        AtaError::NotFound { errno }
    } else {
        AtaError::Transport { errno }
    }
}

/// Judges the outcome of one generic-transport submission: `rc` is the
/// kernel call's return value and `errno` its error code; `sb0` and `sb1`
/// are the first two sense buffer bytes. A negative `rc` is a transport
/// failure; a non-zero first sense byte is a device-level fault carrying
/// the sense key from the second byte's low nibble; anything else succeeded.
pub fn classify_sg_result(rc: i32, errno: i32, sb0: u8, sb1: u8) -> (r: Result<(), AtaError>)
    ensures
        rc < 0 ==> r == Result::<(), AtaError>::Err(AtaError::Transport { errno }),
        rc >= 0 && sb0 != 0 ==> r == Result::<(), AtaError>::Err(
            AtaError::Device { sense_key: (sb1 & 0x0f) as u8 },
        ),
        rc >= 0 && sb0 == 0 ==> r == Result::<(), AtaError>::Ok(()),
{
    if rc < 0 {
        Err(AtaError::Transport { errno })
    } else if sb0 != 0 {
        let key: u8 = sb1 & 0x0f;
        assert(key <= 15) by (bit_vector)
            requires
                key == sb1 & 0x0f,
        ;
        Err(sg_error_to_io(key))
    } else {
        Ok(())
    }
}

/// Judges the outcome of one control-block submission: `rc` is the kernel
/// call's return value and `errno` its error code; `status` is the status
/// register the drive returned. A negative `rc` is a transport failure; a
/// set error bit (bit 0) in the status register is a device-level fault.
pub fn classify_ccb_result(rc: i32, errno: i32, status: u8) -> (r: Result<(), AtaError>)
    ensures
        rc < 0 ==> r == Result::<(), AtaError>::Err(AtaError::Transport { errno }),
        rc >= 0 && status & 0x01 != 0 ==> r == Result::<(), AtaError>::Err(
            AtaError::CommandFailed { status },
        ),
        rc >= 0 && status & 0x01 == 0 ==> r == Result::<(), AtaError>::Ok(()),
{
    if rc < 0 {
        Err(AtaError::Transport { errno })
    } else if status & 0x01 != 0 {
        Err(AtaError::CommandFailed { status })
    } else {
        Ok(())
    }
}

} // verus!
