//! Tests of the command encoders, the transfer validation, the outcome
//! classifiers and the handle lifecycle.

use ata_raw::device::Device;
use ata_raw::encode::{
    encode_identify, encode_sg_read, encode_sg_write, encode_tf_identify, encode_tf_read,
    encode_tf_write, validate_transfer_len, Direction, MAX_TRANSFER_BYTES,
};
use ata_raw::error::{
    classify_ccb_result, classify_open_error, classify_sg_result, sense_key_name, sg_error_to_io,
    AtaError,
};

#[test]
fn read_cdb_layout_is_exact() {
    let a: u64 = 0x0123_4567_89AB;
    let c = encode_sg_read(a, 2);
    let cdb = c.cdb;
    assert_eq!(cdb[0], 0x85); // ATA-16 pass-through
    assert_eq!(cdb[1], 0x0D); // LBA48 | DMA protocol
    assert_eq!(cdb[2], 0x0E); // t_len in nsect, unit sectors, from device
    assert_eq!(cdb[3], 0);
    assert_eq!(cdb[4], 0);
    assert_eq!(cdb[5], 0); // count high
    assert_eq!(cdb[6], 2); // count low
    assert_eq!(cdb[7], 0x45); // address bits 24..32
    assert_eq!(cdb[8], 0xAB); // address bits 0..8
    assert_eq!(cdb[9], 0x23); // address bits 32..40
    assert_eq!(cdb[10], 0x89); // address bits 8..16
    assert_eq!(cdb[11], 0x01); // address bits 40..48
    assert_eq!(cdb[12], 0x67); // address bits 16..24
    assert_eq!(cdb[13], 0xE0); // LBA mode, drive 0
    assert_eq!(cdb[14], 0x25); // READ DMA EXT
    assert_eq!(cdb[15], 0);
    assert_eq!(c.direction, Direction::FromDevice);
    assert_eq!(c.data_len, 1024);
    assert_eq!(c.timeout_ms, 1000);
    assert_eq!(c.pack_id, 0x4567_89AB);
}

#[test]
fn lba48_bytes_reassemble_the_address() {
    let a: u64 = 0x0123_4567_89AB;
    let c = encode_sg_read(a, 1);
    let cdb = c.cdb;
    let back = (cdb[8] as u64)
        | ((cdb[10] as u64) << 8)
        | ((cdb[12] as u64) << 16)
        | ((cdb[7] as u64) << 24)
        | ((cdb[9] as u64) << 32)
        | ((cdb[11] as u64) << 40);
    assert_eq!(back, a);
}

#[test]
fn max_address_fills_every_lba_byte() {
    let c = encode_sg_write(0xFFFF_FFFF_FFFF, 1);
    let cdb = c.cdb;
    for i in [7, 8, 9, 10, 11, 12] {
        assert_eq!(cdb[i], 0xFF);
    }
    assert_eq!(cdb[14], 0x35); // WRITE DMA EXT
    assert_eq!(c.direction, Direction::ToDevice);
}

#[test]
fn max_transfer_encodes_count_zero() {
    let c = encode_sg_read(0, 65536);
    assert_eq!(c.cdb[5], 0);
    assert_eq!(c.cdb[6], 0);
    assert_eq!(c.data_len, 65536 * 512);
}

#[test]
fn transfer_validation_boundaries() {
    assert_eq!(validate_transfer_len(0), Err(AtaError::BufferEmpty));
    assert_eq!(validate_transfer_len(513), Err(AtaError::BufferNotSectorMultiple));
    assert_eq!(
        validate_transfer_len(MAX_TRANSFER_BYTES + 512),
        Err(AtaError::BufferTooLarge)
    );
    assert_eq!(validate_transfer_len(512), Ok(1));
    assert_eq!(validate_transfer_len(MAX_TRANSFER_BYTES), Ok(65536));
}

#[test]
fn single_sector_write_at_sector_zero() {
    let mut d = Device::open(4);
    let c = d.write(0, 512).expect("encoding must succeed");
    assert_eq!(c.cdb[5], 0);
    assert_eq!(c.cdb[6], 1);
    for i in [7, 8, 9, 10, 11, 12] {
        assert_eq!(c.cdb[i], 0);
    }
    assert_eq!(c.data_len, 512);
    assert_eq!(c.direction, Direction::ToDevice);
}

#[test]
fn facade_rejects_bad_buffers() {
    let mut d = Device::open(4);
    assert_eq!(d.read(0, 0).unwrap_err(), AtaError::BufferEmpty);
    assert_eq!(d.read(0, 100).unwrap_err(), AtaError::BufferNotSectorMultiple);
    assert_eq!(
        d.write(0, MAX_TRANSFER_BYTES + 512).unwrap_err(),
        AtaError::BufferTooLarge
    );
}

#[test]
fn identify_requests() {
    let q = encode_identify();
    assert_eq!(q.command, 0xEC);
    assert_eq!(q.sector, 0);
    assert_eq!(q.feature, 0);
    assert_eq!(q.nsector, 1);

    let t = encode_tf_identify();
    assert_eq!(t.command, 0xEC);
    assert_eq!(t.flags, 0x18); // result wanted | DMA
    assert_eq!(t.sector_count, 1);
    assert_eq!(t.sector_count_exp, 0);
    assert_eq!(t.device, 0x40);
    assert_eq!(t.data_len, 512);
    assert_eq!(t.timeout_ms, 5000);
}

#[test]
fn task_file_registers_match_the_derivation() {
    let a: u64 = 0x0123_4567_89AB;
    let r = encode_tf_read(a, 3);
    assert_eq!(r.command, 0x25);
    assert_eq!(r.flags, 0x19); // result wanted | DMA | 48-bit
    assert_eq!(r.sector_count, 3);
    assert_eq!(r.sector_count_exp, 0);
    assert_eq!(r.lba_low, 0xAB);
    assert_eq!(r.lba_mid, 0x89);
    assert_eq!(r.lba_high, 0x67);
    assert_eq!(r.lba_low_exp, 0x45);
    assert_eq!(r.lba_mid_exp, 0x23);
    assert_eq!(r.lba_high_exp, 0x01);
    assert_eq!(r.device, 0x40);
    assert_eq!((r.control, r.features, r.features_exp), (0, 0, 0));
    assert_eq!(r.direction, Direction::FromDevice);
    assert_eq!(r.data_len, 3 * 512);

    let w = encode_tf_write(0, 65536);
    assert_eq!(w.command, 0x35);
    assert_eq!(w.sector_count, 0);
    assert_eq!(w.sector_count_exp, 0);
    assert_eq!(w.direction, Direction::ToDevice);
}

#[test]
fn device_fault_is_distinct_from_transport_fault() {
    let device_side = classify_sg_result(0, 0, 1, 3).unwrap_err();
    assert_eq!(device_side, AtaError::Device { sense_key: 3 });
    assert!(device_side.is_device_level());

    let transport_side = classify_sg_result(-1, 5, 0, 0).unwrap_err();
    assert_eq!(transport_side, AtaError::Transport { errno: 5 });
    assert!(!transport_side.is_device_level());

    assert_ne!(device_side, transport_side);
    assert_eq!(classify_sg_result(0, 0, 0, 0), Ok(()));
}

#[test]
fn ccb_status_error_bit_is_device_level() {
    let fault = classify_ccb_result(0, 0, 0x41).unwrap_err();
    assert_eq!(fault, AtaError::CommandFailed { status: 0x41 });
    assert!(fault.is_device_level());
    assert_eq!(classify_ccb_result(0, 0, 0x40), Ok(()));
    assert_eq!(
        classify_ccb_result(-1, 9, 0),
        Err(AtaError::Transport { errno: 9 })
    );
}

#[test]
fn sense_keys_have_their_names() {
    assert_eq!(sense_key_name(0), "NO_SENSE");
    assert_eq!(sense_key_name(3), "MEDIUM_ERROR");
    assert_eq!(sense_key_name(5), "ILLEGAL_REQUEST");
    assert_eq!(sense_key_name(11), "ABORTED_COMMAND");
    assert_eq!(sense_key_name(15), "COMPLETE");
    assert_eq!(sg_error_to_io(7), AtaError::Device { sense_key: 7 });
}

#[test]
fn open_failures_classify_by_errno() {
    assert_eq!(classify_open_error(1), AtaError::PermissionDenied { errno: 1 });
    assert_eq!(classify_open_error(13), AtaError::PermissionDenied { errno: 13 });
    assert_eq!(classify_open_error(2), AtaError::NotFound { errno: 2 });
    assert_eq!(classify_open_error(16), AtaError::Transport { errno: 16 });
}

#[test]
fn close_is_idempotent_and_operations_after_close_fail() {
    let mut d = Device::open(7);
    assert!(d.opened());
    assert_eq!(d.descriptor(), Some(7));
    assert_eq!(d.close(), Some(7));
    assert!(!d.opened());
    assert_eq!(d.close(), None);
    assert_eq!(d.descriptor(), None);
    assert_eq!(d.read(0, 512).unwrap_err(), AtaError::NotOpen);
    assert_eq!(d.write(0, 512).unwrap_err(), AtaError::NotOpen);
    assert_eq!(d.info().unwrap_err(), AtaError::NotOpen);
}

#[test]
fn info_encodes_identify_when_open() {
    let mut d = Device::open(3);
    let q = d.info().expect("open handle must encode identify");
    assert_eq!(
        (q.command, q.sector, q.feature, q.nsector),
        (0xEC, 0, 0, 1)
    );
}
