//! Tests of the IDENTIFY DEVICE codec: record size, word-swapped strings
//! and the little-endian sector capacity field.

use std::mem;

use ata_raw::identify::IdentifyDeviceData;
use ata_raw::SECTOR_BYTES;

#[test]
fn check_struct_sizes() {
    assert_eq!(
        mem::size_of::<IdentifyDeviceData>(),
        SECTOR_BYTES,
        "IdentifyDeviceData size not 512"
    );
}

/// Packs a string into words under the word-swap convention: the first
/// character of each pair in the high byte, space-padded to `n` words.
fn pack_words(s: &str, n: usize) -> Vec<u16> {
    let mut bytes: Vec<u8> = s.as_bytes().to_vec();
    while bytes.len() < 2 * n {
        bytes.push(b' ');
    }
    let mut words = Vec::new();
    for i in 0..n {
        words.push(((bytes[2 * i] as u16) << 8) | (bytes[2 * i + 1] as u16));
    }
    words
}

#[test]
fn model_string_round_trip() {
    let mut words = [0u16; 256];
    let model = pack_words("Abcdef", 20);
    words[27..47].copy_from_slice(&model);
    let id = IdentifyDeviceData::from_words(words);
    assert_eq!(id.get_model(), "Abcdef");
}

#[test]
fn serial_and_firmware_round_trip() {
    let mut words = [0u16; 256];
    words[10..20].copy_from_slice(&pack_words("SER1234", 10));
    words[23..27].copy_from_slice(&pack_words("FW-1.0", 4));
    let id = IdentifyDeviceData::from_words(words);
    assert_eq!(id.get_serial(), "SER1234");
    assert_eq!(id.get_firmware(), "FW-1.0");
}

#[test]
fn swap_bytes_emits_high_byte_first() {
    // 'A' in the high byte, 'b' in the low byte: reading order "Ab".
    let out = IdentifyDeviceData::swap_bytes(&[0x4162, 0x6364]);
    assert_eq!(out, vec![0x41, 0x62, 0x63, 0x64]);
}

#[test]
fn swap_string_replaces_invalid_sequences() {
    // 0xFF is no valid UTF-8 sequence: the lossy decode must substitute
    // the replacement character, not pass the byte through.
    let s = IdentifyDeviceData::swap_string(&[0xFF41]);
    assert_eq!(s, "\u{FFFD}A");
}

#[test]
fn swap_string_trims_all_padding() {
    let s = IdentifyDeviceData::swap_string(&[0x2020, 0x2020]);
    assert_eq!(s, "");
}

#[test]
fn sector_count_assembles_words_little_endian() {
    let mut words = [0u16; 256];
    words[100] = 0x1234;
    words[101] = 0x5678;
    words[102] = 0x9ABC;
    words[103] = 0xDEF0;
    let id = IdentifyDeviceData::from_words(words);
    assert_eq!(id.get_sector_count(), 0xDEF0_9ABC_5678_1234);
}

#[test]
fn decode_reads_words_little_endian() {
    let mut raw = [0u8; 512];
    // Word 100 sits at bytes 200..202, low byte first.
    raw[200] = 0x34;
    raw[201] = 0x12;
    let id = IdentifyDeviceData::decode(&raw);
    assert_eq!(id.get_sector_count(), 0x1234);
}

#[test]
fn decode_then_strings() {
    let mut raw = [0u8; 512];
    // Model field: words 27..47 start at byte 54; "Ab" packs as the pair
    // ('A' high, 'b' low), which in little-endian bytes is (b, A).
    let model = b"MYDISK";
    for (i, pair) in model.chunks(2).enumerate() {
        raw[54 + 2 * i] = pair[1];
        raw[54 + 2 * i + 1] = pair[0];
    }
    for i in 3..20 {
        raw[54 + 2 * i] = b' ';
        raw[54 + 2 * i + 1] = b' ';
    }
    let id = IdentifyDeviceData::decode(&raw);
    assert_eq!(id.get_model(), "MYDISK");
}
