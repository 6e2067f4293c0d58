use ata_pio::{flip_bytes, AtaIdentifyData, RawString};

fn block_with(fill: &[(usize, u16)]) -> [u16; 256] {
    let mut block = [0u16; 256];
    for &(index, word) in fill {
        block[index] = word;
    }
    block
}

/// Stores `text` the way a drive does: two characters to a word, the first of
/// them in the high byte.
fn store(block: &mut [u16; 256], first: usize, text: &[u8]) {
    let mut bytes = text.to_vec();
    flip_bytes(&mut bytes);
    for (k, pair) in bytes.chunks(2).enumerate() {
        block[first + k] = u16::from_le_bytes([pair[0], pair[1]]);
    }
}

#[test]
fn serial_number_golden_fixture() {
    let mut block = [0u16; 256];
    store(&mut block, 10, b"ABCDEFGHIJKLMNOPQRST");
    assert_eq!(block[10], 0x4142);
    assert_eq!(block[19], 0x5354);
    let record = AtaIdentifyData::new(block);
    assert_eq!(&record.serial_number, b"ABCDEFGHIJKLMNOPQRST");
}

#[test]
fn firmware_and_model_are_read_from_their_words() {
    let mut block = [0u16; 256];
    store(&mut block, 23, b"FW 1.2.3");
    store(&mut block, 27, b"Some Disk Model 0123456789 abcdefghijklm");
    let record = AtaIdentifyData::new(block);
    assert_eq!(&record.firmware_ver, b"FW 1.2.3");
    assert_eq!(&record.model_number, b"Some Disk Model 0123456789 abcdefghijklm");
    assert_eq!(record.serial_number, [0u8; 20]);
}

#[test]
fn text_fields_do_not_reach_into_their_neighbours() {
    let mut block = [0u16; 256];
    block[9] = 0x5858;
    block[20] = 0x5959;
    block[22] = 0x5a5a;
    block[47] = 0x4141;
    let record = AtaIdentifyData::new(block);
    assert_eq!(record.serial_number, [0u8; 20]);
    assert_eq!(record.firmware_ver, [0u8; 8]);
    assert_eq!(record.model_number, [0u8; 40]);
    assert_eq!(record.sect_per_int, 0x4141);
}

#[test]
fn text_fields_have_fixed_lengths() {
    for fill in [0u16, 0xffff, 0x0a00, 0x4142] {
        let record = AtaIdentifyData::new([fill; 256]);
        assert_eq!(record.serial_number.len(), 20);
        assert_eq!(record.firmware_ver.len(), 8);
        assert_eq!(record.model_number.len(), 40);
    }
}

#[test]
fn text_is_kept_raw() {
    // Neither NUL nor bytes above 127 are touched.
    let record = AtaIdentifyData::new(block_with(&[(10, 0x00ff), (11, 0x8000)]));
    assert_eq!(&record.serial_number[..4], &[0x00, 0xff, 0x80, 0x00]);
}

#[test]
fn each_word_pair_is_swapped_on_its_own() {
    let record = AtaIdentifyData::new(block_with(&[(23, 0x0102), (24, 0x0304), (26, 0x0708)]));
    assert_eq!(record.firmware_ver, [1, 2, 3, 4, 0, 0, 7, 8]);
}

#[test]
fn numbers_are_read_from_their_words() {
    let record = AtaIdentifyData::new(block_with(&[
        (0, 0x0040),
        (47, 0x8010),
        (49, 0x0300),
        (50, 0x4001),
        (53, 0x0007),
        (59, 0x0110),
        (106, 0x6003),
    ]));
    assert_eq!(record.flags, 0x0040);
    assert_eq!(record.sect_per_int, 0x8010);
    assert_eq!(record.capabilities, [0x0300, 0x4001]);
    assert_eq!(record.valid_ext_data, 7);
    assert_eq!(record.size_of_rw_multiple, 0x0110);
    assert_eq!(record.physical_sector_size, 0x6003);
    assert_eq!(record.sector_count_28, 0);
    assert_eq!(record.sector_count_48, 0);
    assert_eq!(record.words_per_logical_sector, 0);
}

#[test]
fn wide_numbers_have_their_low_word_first() {
    let record = AtaIdentifyData::new(block_with(&[
        (60, 0x5678),
        (61, 0x1234),
        (100, 0xcdef),
        (101, 0x89ab),
        (102, 0x4567),
        (103, 0x0123),
        (117, 0x0100),
        (118, 0x0002),
    ]));
    assert_eq!(record.sector_count_28, 0x1234_5678);
    assert_eq!(record.sector_count_48, 0x0123_4567_89ab_cdef);
    assert_eq!(record.words_per_logical_sector, 0x0002_0100);
}

#[test]
fn wide_numbers_can_be_full() {
    let record = AtaIdentifyData::new([0xffff; 256]);
    assert_eq!(record.sector_count_28, u32::MAX);
    assert_eq!(record.sector_count_48, u64::MAX);
    assert_eq!(record.words_per_logical_sector, u32::MAX);
    assert_eq!(record.serial_number, [0xff; 20]);
}

#[test]
fn words_between_the_fields_are_ignored() {
    let mut block = [0u16; 256];
    for index in [1, 9, 20, 22, 48, 51, 52, 54, 58, 62, 99, 104, 105, 107, 116, 119, 255] {
        block[index] = 0xffff;
    }
    assert_eq!(AtaIdentifyData::new(block), AtaIdentifyData::new([0; 256]));
}

#[test]
fn decoding_twice_gives_the_same_record() {
    let mut block = [0u16; 256];
    for (index, word) in block.iter_mut().enumerate() {
        *word = (index as u16).wrapping_mul(0x0101).rotate_left(3);
    }
    let first = AtaIdentifyData::new(block);
    let second = AtaIdentifyData::new(block);
    assert_eq!(first, second);
    let copy = block;
    assert_eq!(AtaIdentifyData::new(copy), first);
}

#[test]
fn default_is_the_record_of_the_zero_block() {
    let record = AtaIdentifyData::default();
    assert_eq!(record, AtaIdentifyData::new([0; 256]));
    assert_eq!(record.flags, 0);
    assert_eq!(record.serial_number, [0u8; 20]);
    assert_eq!(record.firmware_ver, [0u8; 8]);
    assert_eq!(record.model_number, [0u8; 40]);
    assert_eq!(record.capabilities, [0, 0]);
    assert_eq!(record.sector_count_48, 0);
}

#[test]
fn record_on_one_line() {
    let mut block = block_with(&[
        (0, 0x0040),
        (47, 0x8010),
        (49, 0x0300),
        (50, 0x4001),
        (53, 7),
        (59, 272),
        (60, 0x5678),
        (61, 0x1234),
        (100, 0xcdef),
        (101, 0x89ab),
        (106, 24579),
        (117, 256),
    ]);
    store(&mut block, 10, b"ABCDEFGHIJKLMNOPQRST");
    store(&mut block, 23, b"1.0\0\0\0\0\0");
    let mut model = b"Disk \"A\"\\".to_vec();
    model.resize(40, b' ');
    store(&mut block, 27, &model);
    let record = AtaIdentifyData::new(block);
    let expected = [
        "AtaIdentifyData {",
        " flags: 0x40",
        " serial_number: b\"ABCDEFGHIJKLMNOPQRST\"",
        " firmware_ver: b\"1.0\\0\\0\\0\\0\\0\"",
        " model_number: b\"Disk \\\"A\\\"\\\\                               \"",
        " sect_per_int: 16",
        " capabilities: [0x300,0x4001]",
        " valid_ext_data: 7",
        " size_of_rw_multiple: 272",
        " sector_count_28: 0x12345678",
        " sector_count_48: 0x89abcdef",
        " physical_sector_size: 24579",
        " words_per_logical_sector: 256",
        "}",
    ]
    .concat();
    assert_eq!(record.fmt(), expected);
}

#[test]
fn record_on_one_line_follows_the_standard_formats() {
    for fill in [0u16, 1, 9, 10, 15, 16, 0x00ff, 0x0100, 0x7fff, 0x8000, 0xfffe, 0xffff, 0x2241] {
        let record = AtaIdentifyData::new([fill; 256]);
        let mut expected = String::from("AtaIdentifyData {");
        expected += &format!(" flags: {:#x}", record.flags);
        expected += &format!(" serial_number: {}", RawString(&record.serial_number).quoted());
        expected += &format!(" firmware_ver: {}", RawString(&record.firmware_ver).quoted());
        expected += &format!(" model_number: {}", RawString(&record.model_number).quoted());
        expected += &format!(" sect_per_int: {}", record.sect_per_int & 0xFF);
        expected += &format!(
            " capabilities: [{:#x},{:#x}]",
            record.capabilities[0], record.capabilities[1]
        );
        expected += &format!(" valid_ext_data: {}", record.valid_ext_data);
        expected += &format!(" size_of_rw_multiple: {}", record.size_of_rw_multiple);
        expected += &format!(" sector_count_28: {:#x}", record.sector_count_28);
        expected += &format!(" sector_count_48: {:#x}", record.sector_count_48);
        expected += &format!(" physical_sector_size: {}", record.physical_sector_size);
        expected += &format!(" words_per_logical_sector: {}", record.words_per_logical_sector);
        expected += "}";
        assert_eq!(record.fmt(), expected);
    }
}

#[test]
fn default_record_on_one_line() {
    let nul20 = "\\0".repeat(20);
    let nul8 = "\\0".repeat(8);
    let nul40 = "\\0".repeat(40);
    assert_eq!(
        AtaIdentifyData::default().fmt(),
        format!(
            "AtaIdentifyData {{ flags: 0x0 serial_number: b\"{}\" firmware_ver: b\"{}\" \
             model_number: b\"{}\" sect_per_int: 0 capabilities: [0x0,0x0] valid_ext_data: 0 \
             size_of_rw_multiple: 0 sector_count_28: 0x0 sector_count_48: 0x0 \
             physical_sector_size: 0 words_per_logical_sector: 0}}",
            nul20, nul8, nul40
        )
    );
}

#[test]
fn record_on_one_line_escapes_delete() {
    let record = AtaIdentifyData::new(block_with(&[(23, 0x7f41), (24, 0x7e7f)]));
    let line = record.fmt();
    assert!(line.contains(" firmware_ver: b\"\\x7fA~\\x7f\\0\\0\\0\\0\" "));
    assert!(line.bytes().all(|c| (0x20..=0x7e).contains(&c)));
}
