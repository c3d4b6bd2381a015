use libmonitor::ddc::edid::{cp437_forward, parse_edid, parse_vendor, Descriptor, EdidParseError};

fn text_descriptor(tag: u8, text: &[u8]) -> [u8; 18] {
    let mut d = [0u8; 18];
    d[3] = tag;
    for (i, b) in text.iter().enumerate() {
        d[5 + i] = *b;
    }
    d
}

fn sample_block() -> Vec<u8> {
    let mut b = vec![0u8; 128];
    b[0..8].copy_from_slice(&[0x00, 0xff, 0xff, 0xff, 0xff, 0xff, 0xff, 0x00]);
    b[8] = 0x06;
    b[9] = 0xb3;
    b[10] = 0x34;
    b[11] = 0x12;
    b[12..16].copy_from_slice(&[0x78, 0x56, 0x34, 0x12]);
    b[16] = 12;
    b[17] = 30;
    b[18] = 1;
    b[19] = 4;
    b[20..25].copy_from_slice(&[0xb5, 60, 34, 0x78, 0x3a]);
    let timing: [u8; 18] = [
        0x02, 0x3a, 0x80, 0x18, 0x71, 0x38, 0x2d, 0x40, 0x58, 0x2c, 0x45, 0x00, 0x56, 0x50, 0x21,
        0x00, 0x00, 0x1e,
    ];
    b[54..72].copy_from_slice(&timing);
    b[72..90].copy_from_slice(&text_descriptor(0xff, b"  SN1234\n    "));
    b[90..108].copy_from_slice(&text_descriptor(0xfc, b"VG27A\n       "));
    b[108..126].copy_from_slice(&text_descriptor(0x05, &[1, 2, 3, 4, 5, 6, 7, 8, 9, 10, 11, 12, 13]));
    b[126] = 0;
    let sum: u32 = b[..127].iter().map(|x| *x as u32).sum();
    b[127] = ((256 - sum % 256) % 256) as u8;
    b
}

#[test]
fn vendor_decode() {
    // five bits per letter, each counted from 'A' = 1
    assert_eq!(parse_vendor(0x04d9), ['A', 'F', 'Y']);
    assert_eq!(parse_vendor(0x06b3), ['A', 'U', 'S']);
    assert_eq!(parse_vendor((1 << 10) | (21 << 5) | 19), ['A', 'U', 'S']);
}

#[test]
fn edid_block_parses() {
    let b = sample_block();
    let e = parse_edid(&b).unwrap();
    assert_eq!(e.header.vendor, ['A', 'U', 'S']);
    assert_eq!(e.header.product, 0x1234);
    assert_eq!(e.header.serial, 0x12345678);
    assert_eq!(e.header.week, 12);
    assert_eq!(e.header.year, 30);
    assert_eq!(e.header.version, 1);
    assert_eq!(e.header.revision, 4);
    assert_eq!(e.display.width, 60);
    assert_eq!(e.display.height, 34);
    assert_eq!(e.num_extr, 0);
    assert_eq!(e.descriptors.len(), 4);
    match &e.descriptors[0] {
        Descriptor::DetailedTiming(t) => {
            assert_eq!(t.pixel_clock, 148500);
            assert_eq!(t.horizontal_active_pixels, 1920);
            assert_eq!(t.horizontal_blanking_pixels, 280);
            assert_eq!(t.vertical_active_lines, 1080);
            assert_eq!(t.vertical_blanking_lines, 45);
            assert_eq!(t.horizontal_front_porch, 88);
            assert_eq!(t.horizontal_sync_width, 44);
            assert_eq!(t.vertical_front_porch, 4);
            assert_eq!(t.vertical_sync_width, 5);
            assert_eq!(t.horizontal_size, 0x256);
            assert_eq!(t.vertical_size, 0x150);
            assert_eq!(t.features, 0x1e);
        }
        other => panic!("unexpected descriptor {other:?}"),
    }
    assert_eq!(e.descriptors[1], Descriptor::SerialNumber("SN1234".to_string()));
    assert_eq!(e.descriptors[2], Descriptor::ProductName("VG27A".to_string()));
    assert_eq!(e.descriptors[3], Descriptor::Unknown([1, 2, 3, 4, 5, 6, 7, 8, 9, 10, 11, 12, 13]));
}

#[test]
fn edid_sum_is_zero_when_parsed() {
    let b = sample_block();
    assert!(parse_edid(&b).is_ok());
    let sum: u32 = b.iter().map(|x| *x as u32).sum();
    assert_eq!(sum % 256, 0);
}

#[test]
fn edid_rejects_bad_checksum() {
    let mut b = sample_block();
    b[127] = b[127].wrapping_add(1);
    assert_eq!(parse_edid(&b), Err(EdidParseError::InvalidChecksum));
}

#[test]
fn edid_rejects_bad_preamble_and_short_input() {
    let mut b = sample_block();
    b[1] = 0xfe;
    assert!(matches!(parse_edid(&b), Err(EdidParseError::NomParserError(_))));
    let b = sample_block();
    assert!(matches!(parse_edid(&b[..100]), Err(EdidParseError::NomParserError(_))));
}

#[test]
fn descriptor_text_decodes_cp437_and_trims() {
    let mut b = sample_block();
    b[72..90].copy_from_slice(&text_descriptor(0xfe, &[0x20, 0x81, 0x41, 0x0a, 0x42, 0xff, 0x20, 0x20, 0x20, 0x20, 0x20, 0x20, 0x20]));
    let sum: u32 = b[..127].iter().map(|x| *x as u32).sum();
    b[127] = ((256 - sum % 256) % 256) as u8;
    let e = parse_edid(&b).unwrap();
    assert_eq!(e.descriptors[1], Descriptor::UnspecifiedText("\u{fc}AB".to_string()));
}

#[test]
fn cp437_table_entries() {
    assert_eq!(cp437_forward(0x41), 'A');
    assert_eq!(cp437_forward(0x00), '\u{0000}');
    assert_eq!(cp437_forward(0x01), '\u{263a}');
    assert_eq!(cp437_forward(0x81), '\u{fc}');
    assert_eq!(cp437_forward(0xff), '\u{a0}');
    let all: Vec<char> = (0..=255u8).map(cp437_forward).collect();
    assert_eq!(all.len(), 256);
}
