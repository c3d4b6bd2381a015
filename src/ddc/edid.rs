//! EDID: the 128 byte block in which a monitor describes itself.
use vstd::prelude::*;

verus! {

#[derive(Debug, PartialEq, Copy, Clone)]
pub struct Header {
    pub vendor: [char; 3],
    pub product: u16,
    pub serial: u32,
    pub week: u8,
    /// Years since 1990
    pub year: u8,
    pub version: u8,
    pub revision: u8,
}

/// One letter of a manufacturer code: five bits counted from 'A' = 1.
pub open spec fn vendor_letter(v: u16, shift: u16) -> char {
    ((((v >> shift) & 0x1f) as u8) + 0x40) as char
}

/// The three letters packed, five bits each, in a big endian manufacturer code.
pub open spec fn vendor_of(v: u16) -> Seq<char> {
    seq![vendor_letter(v, 10), vendor_letter(v, 5), vendor_letter(v, 0)]
}

pub fn parse_vendor(v: u16) -> (r: [char; 3])
    ensures
        r@ == vendor_of(v),
{
    let mask: u16 = 0x1f;
    assert(forall|s: u16| (v >> s) & 0x1f <= 0x1f) by (bit_vector);
    let a = ((((v >> 10u16) & mask) as u8) + 0x40) as char;
    let b = ((((v >> 5u16) & mask) as u8) + 0x40) as char;
    let c = ((((v >> 0u16) & mask) as u8) + 0x40) as char;
    let r = [a, b, c];
    assert(r@ =~= vendor_of(v));
    r
}

pub open spec fn le_u16_at(b: Seq<u8>, i: int) -> u16 {
    ((b[i] as u16) | ((b[i + 1] as u16) << 8u16)) as u16
}

pub open spec fn le_u32_at(b: Seq<u8>, i: int) -> u32 {
    ((b[i] as u32) | ((b[i + 1] as u32) << 8u32) | ((b[i + 2] as u32) << 16u32) | ((b[i + 3] as u32)
        << 24u32)) as u32
}

pub open spec fn be_u16_at(b: Seq<u8>, i: int) -> u16 {
    (((b[i] as u16) << 8u16) | (b[i + 1] as u16)) as u16
}

/// The header fields at their fixed offsets after the 8 byte preamble.
pub open spec fn header_matches(h: Header, b: Seq<u8>) -> bool {
    &&& h.vendor@ == vendor_of(be_u16_at(b, 8))
    &&& h.product == le_u16_at(b, 10)
    &&& h.serial == le_u32_at(b, 12)
    &&& h.week == b[16]
    &&& h.year == b[17]
    &&& h.version == b[18]
    &&& h.revision == b[19]
}

#[derive(Debug, PartialEq, Copy, Clone)]
pub struct Display {
    pub video_input: u8,
    /// cm
    pub width: u8,
    /// cm
    pub height: u8,
    /// (gamma * 100) - 100
    pub gamma: u8,
    pub features: u8,
}

pub open spec fn display_of(b: Seq<u8>) -> Display {
    Display { video_input: b[20], width: b[21], height: b[22], gamma: b[23], features: b[24] }
}

#[derive(Debug, PartialEq, Copy, Clone)]
pub struct DetailedTiming {
    /// Pixel clock in kHz.
    pub pixel_clock: u32,
    pub horizontal_active_pixels: u16,
    pub horizontal_blanking_pixels: u16,
    pub vertical_active_lines: u16,
    pub vertical_blanking_lines: u16,
    pub horizontal_front_porch: u16,
    pub horizontal_sync_width: u16,
    pub vertical_front_porch: u16,
    pub vertical_sync_width: u16,
    /// Horizontal size in millimeters
    pub horizontal_size: u16,
    /// Vertical size in millimeters
    pub vertical_size: u16,
    /// Border pixels on one side of screen (i.e. total number is twice this)
    pub horizontal_border_pixels: u8,
    /// Border pixels on one side of screen (i.e. total number is twice this)
    pub vertical_border_pixels: u8,
    pub features: u8,
}

/// A low byte joined with the bits above it, taken from a packed byte.
pub open spec fn joined(lo: u16, hi: u16) -> u16 {
    lo | (hi << 8u16)
}

/// The detailed timing descriptor in the 18 bytes of `b` from `at`.
pub open spec fn detailed_timing_of(b: Seq<u8>, at: int) -> DetailedTiming {
    let d = |k: int| b[at + k];
    DetailedTiming {
        pixel_clock: (((d(0) as u16) | ((d(1) as u16) << 8u16)) as u32 * 10) as u32,
        horizontal_active_pixels: joined(d(2) as u16, (d(4) >> 4u8) as u16),
        horizontal_blanking_pixels: joined(d(3) as u16, (d(4) & 0xf) as u16),
        vertical_active_lines: joined(d(5) as u16, (d(7) >> 4u8) as u16),
        vertical_blanking_lines: joined(d(6) as u16, (d(7) & 0xf) as u16),
        horizontal_front_porch: joined(d(8) as u16, (d(11) >> 6u8) as u16),
        horizontal_sync_width: joined(d(9) as u16, ((d(11) >> 4u8) & 0x3) as u16),
        vertical_front_porch: joined((d(10) >> 4u8) as u16, ((d(11) >> 2u8) & 0x3) as u16),
        vertical_sync_width: joined((d(10) & 0xf) as u16, (d(11) & 0x3) as u16),
        horizontal_size: joined(d(12) as u16, (d(14) >> 4u8) as u16),
        vertical_size: joined(d(13) as u16, (d(14) & 0xf) as u16),
        horizontal_border_pixels: d(15),
        vertical_border_pixels: d(16),
        features: d(17),
    }
}

fn parse_detailed_timing(b: &[u8], at: usize) -> (r: DetailedTiming)
    requires
        at + 18 <= b@.len(),
    ensures
        r == detailed_timing_of(b@, at as int),
{
    let pixel_clock_10khz = (b[at] as u16) | ((b[at + 1] as u16) << 8u16);
    let horizontal_px_hi = b[at + 4];
    let vertical_px_hi = b[at + 7];
    let vertical_lo = b[at + 10];
    let porch_sync_hi = b[at + 11];
    let size_hi = b[at + 14];
    DetailedTiming {
        pixel_clock: pixel_clock_10khz as u32 * 10,
        horizontal_active_pixels: (b[at + 2] as u16) | (((horizontal_px_hi >> 4u8) as u16) << 8u16),
        horizontal_blanking_pixels: (b[at + 3] as u16) | (((horizontal_px_hi & 0xf) as u16) << 8u16),
        vertical_active_lines: (b[at + 5] as u16) | (((vertical_px_hi >> 4u8) as u16) << 8u16),
        vertical_blanking_lines: (b[at + 6] as u16) | (((vertical_px_hi & 0xf) as u16) << 8u16),
        horizontal_front_porch: (b[at + 8] as u16) | (((porch_sync_hi >> 6u8) as u16) << 8u16),
        horizontal_sync_width: (b[at + 9] as u16) | ((((porch_sync_hi >> 4u8) & 0x3) as u16) << 8u16),
        vertical_front_porch: ((vertical_lo >> 4u8) as u16) | ((((porch_sync_hi >> 2u8) & 0x3) as u16)
            << 8u16),
        vertical_sync_width: ((vertical_lo & 0xf) as u16) | (((porch_sync_hi & 0x3) as u16) << 8u16),
        horizontal_size: (b[at + 12] as u16) | (((size_hi >> 4u8) as u16) << 8u16),
        vertical_size: (b[at + 13] as u16) | (((size_hi & 0xf) as u16) << 8u16),
        horizontal_border_pixels: b[at + 15],
        vertical_border_pixels: b[at + 16],
        features: b[at + 17],
    }
}

#[derive(Debug, PartialEq, Clone)]
pub enum Descriptor {
    DetailedTiming(DetailedTiming),
    SerialNumber(String),
    UnspecifiedText(String),
    RangeLimits,
    ProductName(String),
    WhitePoint,
    StandardTiming,
    ColorManagement,
    TimingCodes,
    EstablishedTimings,
    Dummy,
    Unknown([u8; 13]),
}

/// The character that code page 437 puts at a byte.
pub open spec fn cp437_char(code: u8) -> char {
    match code {
        0x00 => '\u{0000}',
        0x01 => '\u{263A}',
        0x02 => '\u{263B}',
        0x03 => '\u{2665}',
        0x04 => '\u{2666}',
        0x05 => '\u{2663}',
        0x06 => '\u{2660}',
        0x07 => '\u{2022}',
        0x08 => '\u{25D8}',
        0x09 => '\u{25CB}',
        0x0A => '\u{25D9}',
        0x0B => '\u{2642}',
        0x0C => '\u{2640}',
        0x0D => '\u{266A}',
        0x0E => '\u{266B}',
        0x0F => '\u{263C}',
        0x10 => '\u{25BA}',
        0x11 => '\u{25C4}',
        0x12 => '\u{2195}',
        0x13 => '\u{203C}',
        0x14 => '\u{00B6}',
        0x15 => '\u{00A7}',
        0x16 => '\u{25AC}',
        0x17 => '\u{21A8}',
        0x18 => '\u{2191}',
        0x19 => '\u{2193}',
        0x1A => '\u{2192}',
        0x1B => '\u{2190}',
        0x1C => '\u{221F}',
        0x1D => '\u{2194}',
        0x1E => '\u{25B2}',
        0x1F => '\u{25BC}',
        0x20 => '\u{0020}',
        0x21 => '\u{0021}',
        0x22 => '\u{0022}',
        0x23 => '\u{0023}',
        0x24 => '\u{0024}',
        0x25 => '\u{0025}',
        0x26 => '\u{0026}',
        0x27 => '\u{0027}',
        0x28 => '\u{0028}',
        0x29 => '\u{0029}',
        0x2A => '\u{002A}',
        0x2B => '\u{002B}',
        0x2C => '\u{002C}',
        0x2D => '\u{002D}',
        0x2E => '\u{002E}',
        0x2F => '\u{002F}',
        0x30 => '\u{0030}',
        0x31 => '\u{0031}',
        0x32 => '\u{0032}',
        0x33 => '\u{0033}',
        0x34 => '\u{0034}',
        0x35 => '\u{0035}',
        0x36 => '\u{0036}',
        0x37 => '\u{0037}',
        0x38 => '\u{0038}',
        0x39 => '\u{0039}',
        0x3A => '\u{003A}',
        0x3B => '\u{003B}',
        0x3C => '\u{003C}',
        0x3D => '\u{003D}',
        0x3E => '\u{003E}',
        0x3F => '\u{003F}',
        0x40 => '\u{0040}',
        0x41 => '\u{0041}',
        0x42 => '\u{0042}',
        0x43 => '\u{0043}',
        0x44 => '\u{0044}',
        0x45 => '\u{0045}',
        0x46 => '\u{0046}',
        0x47 => '\u{0047}',
        0x48 => '\u{0048}',
        0x49 => '\u{0049}',
        0x4A => '\u{004A}',
        0x4B => '\u{004B}',
        0x4C => '\u{004C}',
        0x4D => '\u{004D}',
        0x4E => '\u{004E}',
        0x4F => '\u{004F}',
        0x50 => '\u{0050}',
        0x51 => '\u{0051}',
        0x52 => '\u{0052}',
        0x53 => '\u{0053}',
        0x54 => '\u{0054}',
        0x55 => '\u{0055}',
        0x56 => '\u{0056}',
        0x57 => '\u{0057}',
        0x58 => '\u{0058}',
        0x59 => '\u{0059}',
        0x5A => '\u{005A}',
        0x5B => '\u{005B}',
        0x5C => '\u{005C}',
        0x5D => '\u{005D}',
        0x5E => '\u{005E}',
        0x5F => '\u{005F}',
        0x60 => '\u{0060}',
        0x61 => '\u{0061}',
        0x62 => '\u{0062}',
        0x63 => '\u{0063}',
        0x64 => '\u{0064}',
        0x65 => '\u{0065}',
        0x66 => '\u{0066}',
        0x67 => '\u{0067}',
        0x68 => '\u{0068}',
        0x69 => '\u{0069}',
        0x6A => '\u{006A}',
        0x6B => '\u{006B}',
        0x6C => '\u{006C}',
        0x6D => '\u{006D}',
        0x6E => '\u{006E}',
        0x6F => '\u{006F}',
        0x70 => '\u{0070}',
        0x71 => '\u{0071}',
        0x72 => '\u{0072}',
        0x73 => '\u{0073}',
        0x74 => '\u{0074}',
        0x75 => '\u{0075}',
        0x76 => '\u{0076}',
        0x77 => '\u{0077}',
        0x78 => '\u{0078}',
        0x79 => '\u{0079}',
        0x7A => '\u{007A}',
        0x7B => '\u{007B}',
        0x7C => '\u{007C}',
        0x7D => '\u{007D}',
        0x7E => '\u{007E}',
        0x7F => '\u{2302}',
        0x80 => '\u{00C7}',
        0x81 => '\u{00FC}',
        0x82 => '\u{00E9}',
        0x83 => '\u{00E2}',
        0x84 => '\u{00E4}',
        0x85 => '\u{00E0}',
        0x86 => '\u{00E5}',
        0x87 => '\u{00E7}',
        0x88 => '\u{00EA}',
        0x89 => '\u{00EB}',
        0x8A => '\u{00E8}',
        0x8B => '\u{00EF}',
        0x8C => '\u{00EE}',
        0x8D => '\u{00EC}',
        0x8E => '\u{00C4}',
        0x8F => '\u{00C5}',
        0x90 => '\u{00C9}',
        0x91 => '\u{00E6}',
        0x92 => '\u{00C6}',
        0x93 => '\u{00F4}',
        0x94 => '\u{00F6}',
        0x95 => '\u{00F2}',
        0x96 => '\u{00FB}',
        0x97 => '\u{00F9}',
        0x98 => '\u{00FF}',
        0x99 => '\u{00D6}',
        0x9A => '\u{00DC}',
        0x9B => '\u{00A2}',
        0x9C => '\u{00A3}',
        0x9D => '\u{00A5}',
        0x9E => '\u{20A7}',
        0x9F => '\u{0192}',
        0xA0 => '\u{00E1}',
        0xA1 => '\u{00ED}',
        0xA2 => '\u{00F3}',
        0xA3 => '\u{00FA}',
        0xA4 => '\u{00F1}',
        0xA5 => '\u{00D1}',
        0xA6 => '\u{00AA}',
        0xA7 => '\u{00BA}',
        0xA8 => '\u{00BF}',
        0xA9 => '\u{2310}',
        0xAA => '\u{00AC}',
        0xAB => '\u{00BD}',
        0xAC => '\u{00BC}',
        0xAD => '\u{00A1}',
        0xAE => '\u{00AB}',
        0xAF => '\u{00BB}',
        0xB0 => '\u{2591}',
        0xB1 => '\u{2592}',
        0xB2 => '\u{2593}',
        0xB3 => '\u{2502}',
        0xB4 => '\u{2524}',
        0xB5 => '\u{2561}',
        0xB6 => '\u{2562}',
        0xB7 => '\u{2556}',
        0xB8 => '\u{2555}',
        0xB9 => '\u{2563}',
        0xBA => '\u{2551}',
        0xBB => '\u{2557}',
        0xBC => '\u{255D}',
        0xBD => '\u{255C}',
        0xBE => '\u{255B}',
        0xBF => '\u{2510}',
        0xC0 => '\u{2514}',
        0xC1 => '\u{2534}',
        0xC2 => '\u{252C}',
        0xC3 => '\u{251C}',
        0xC4 => '\u{2500}',
        0xC5 => '\u{253C}',
        0xC6 => '\u{255E}',
        0xC7 => '\u{255F}',
        0xC8 => '\u{255A}',
        0xC9 => '\u{2554}',
        0xCA => '\u{2569}',
        0xCB => '\u{2566}',
        0xCC => '\u{2560}',
        0xCD => '\u{2550}',
        0xCE => '\u{256C}',
        0xCF => '\u{2567}',
        0xD0 => '\u{2568}',
        0xD1 => '\u{2564}',
        0xD2 => '\u{2565}',
        0xD3 => '\u{2559}',
        0xD4 => '\u{2558}',
        0xD5 => '\u{2552}',
        0xD6 => '\u{2553}',
        0xD7 => '\u{256B}',
        0xD8 => '\u{256A}',
        0xD9 => '\u{2518}',
        0xDA => '\u{250C}',
        0xDB => '\u{2588}',
        0xDC => '\u{2584}',
        0xDD => '\u{258C}',
        0xDE => '\u{2590}',
        0xDF => '\u{2580}',
        0xE0 => '\u{03B1}',
        0xE1 => '\u{00DF}',
        0xE2 => '\u{0393}',
        0xE3 => '\u{03C0}',
        0xE4 => '\u{03A3}',
        0xE5 => '\u{03C3}',
        0xE6 => '\u{00B5}',
        0xE7 => '\u{03C4}',
        0xE8 => '\u{03A6}',
        0xE9 => '\u{0398}',
        0xEA => '\u{03A9}',
        0xEB => '\u{03B4}',
        0xEC => '\u{221E}',
        0xED => '\u{03C6}',
        0xEE => '\u{03B5}',
        0xEF => '\u{2229}',
        0xF0 => '\u{2261}',
        0xF1 => '\u{00B1}',
        0xF2 => '\u{2265}',
        0xF3 => '\u{2264}',
        0xF4 => '\u{2320}',
        0xF5 => '\u{2321}',
        0xF6 => '\u{00F7}',
        0xF7 => '\u{2248}',
        0xF8 => '\u{00B0}',
        0xF9 => '\u{2219}',
        0xFA => '\u{00B7}',
        0xFB => '\u{221A}',
        0xFC => '\u{207F}',
        0xFD => '\u{00B2}',
        0xFE => '\u{25A0}',
        _ => '\u{00A0}',
    }
}

/// The whole code page, one character for each byte value.
pub open spec fn cp437_table() -> Seq<char> {
    Seq::new(256, |i: int| cp437_char(i as u8))
}

pub fn cp437_forward(code: u8) -> (r: char)
    ensures
        r == cp437_char(code),
{
    match code {
        0x00 => '\u{0000}',
        0x01 => '\u{263A}',
        0x02 => '\u{263B}',
        0x03 => '\u{2665}',
        0x04 => '\u{2666}',
        0x05 => '\u{2663}',
        0x06 => '\u{2660}',
        0x07 => '\u{2022}',
        0x08 => '\u{25D8}',
        0x09 => '\u{25CB}',
        0x0A => '\u{25D9}',
        0x0B => '\u{2642}',
        0x0C => '\u{2640}',
        0x0D => '\u{266A}',
        0x0E => '\u{266B}',
        0x0F => '\u{263C}',
        0x10 => '\u{25BA}',
        0x11 => '\u{25C4}',
        0x12 => '\u{2195}',
        0x13 => '\u{203C}',
        0x14 => '\u{00B6}',
        0x15 => '\u{00A7}',
        0x16 => '\u{25AC}',
        0x17 => '\u{21A8}',
        0x18 => '\u{2191}',
        0x19 => '\u{2193}',
        0x1A => '\u{2192}',
        0x1B => '\u{2190}',
        0x1C => '\u{221F}',
        0x1D => '\u{2194}',
        0x1E => '\u{25B2}',
        0x1F => '\u{25BC}',
        0x20 => '\u{0020}',
        0x21 => '\u{0021}',
        0x22 => '\u{0022}',
        0x23 => '\u{0023}',
        0x24 => '\u{0024}',
        0x25 => '\u{0025}',
        0x26 => '\u{0026}',
        0x27 => '\u{0027}',
        0x28 => '\u{0028}',
        0x29 => '\u{0029}',
        0x2A => '\u{002A}',
        0x2B => '\u{002B}',
        0x2C => '\u{002C}',
        0x2D => '\u{002D}',
        0x2E => '\u{002E}',
        0x2F => '\u{002F}',
        0x30 => '\u{0030}',
        0x31 => '\u{0031}',
        0x32 => '\u{0032}',
        0x33 => '\u{0033}',
        0x34 => '\u{0034}',
        0x35 => '\u{0035}',
        0x36 => '\u{0036}',
        0x37 => '\u{0037}',
        0x38 => '\u{0038}',
        0x39 => '\u{0039}',
        0x3A => '\u{003A}',
        0x3B => '\u{003B}',
        0x3C => '\u{003C}',
        0x3D => '\u{003D}',
        0x3E => '\u{003E}',
        0x3F => '\u{003F}',
        0x40 => '\u{0040}',
        0x41 => '\u{0041}',
        0x42 => '\u{0042}',
        0x43 => '\u{0043}',
        0x44 => '\u{0044}',
        0x45 => '\u{0045}',
        0x46 => '\u{0046}',
        0x47 => '\u{0047}',
        0x48 => '\u{0048}',
        0x49 => '\u{0049}',
        0x4A => '\u{004A}',
        0x4B => '\u{004B}',
        0x4C => '\u{004C}',
        0x4D => '\u{004D}',
        0x4E => '\u{004E}',
        0x4F => '\u{004F}',
        0x50 => '\u{0050}',
        0x51 => '\u{0051}',
        0x52 => '\u{0052}',
        0x53 => '\u{0053}',
        0x54 => '\u{0054}',
        0x55 => '\u{0055}',
        0x56 => '\u{0056}',
        0x57 => '\u{0057}',
        0x58 => '\u{0058}',
        0x59 => '\u{0059}',
        0x5A => '\u{005A}',
        0x5B => '\u{005B}',
        0x5C => '\u{005C}',
        0x5D => '\u{005D}',
        0x5E => '\u{005E}',
        0x5F => '\u{005F}',
        0x60 => '\u{0060}',
        0x61 => '\u{0061}',
        0x62 => '\u{0062}',
        0x63 => '\u{0063}',
        0x64 => '\u{0064}',
        0x65 => '\u{0065}',
        0x66 => '\u{0066}',
        0x67 => '\u{0067}',
        0x68 => '\u{0068}',
        0x69 => '\u{0069}',
        0x6A => '\u{006A}',
        0x6B => '\u{006B}',
        0x6C => '\u{006C}',
        0x6D => '\u{006D}',
        0x6E => '\u{006E}',
        0x6F => '\u{006F}',
        0x70 => '\u{0070}',
        0x71 => '\u{0071}',
        0x72 => '\u{0072}',
        0x73 => '\u{0073}',
        0x74 => '\u{0074}',
        0x75 => '\u{0075}',
        0x76 => '\u{0076}',
        0x77 => '\u{0077}',
        0x78 => '\u{0078}',
        0x79 => '\u{0079}',
        0x7A => '\u{007A}',
        0x7B => '\u{007B}',
        0x7C => '\u{007C}',
        0x7D => '\u{007D}',
        0x7E => '\u{007E}',
        0x7F => '\u{2302}',
        0x80 => '\u{00C7}',
        0x81 => '\u{00FC}',
        0x82 => '\u{00E9}',
        0x83 => '\u{00E2}',
        0x84 => '\u{00E4}',
        0x85 => '\u{00E0}',
        0x86 => '\u{00E5}',
        0x87 => '\u{00E7}',
        0x88 => '\u{00EA}',
        0x89 => '\u{00EB}',
        0x8A => '\u{00E8}',
        0x8B => '\u{00EF}',
        0x8C => '\u{00EE}',
        0x8D => '\u{00EC}',
        0x8E => '\u{00C4}',
        0x8F => '\u{00C5}',
        0x90 => '\u{00C9}',
        0x91 => '\u{00E6}',
        0x92 => '\u{00C6}',
        0x93 => '\u{00F4}',
        0x94 => '\u{00F6}',
        0x95 => '\u{00F2}',
        0x96 => '\u{00FB}',
        0x97 => '\u{00F9}',
        0x98 => '\u{00FF}',
        0x99 => '\u{00D6}',
        0x9A => '\u{00DC}',
        0x9B => '\u{00A2}',
        0x9C => '\u{00A3}',
        0x9D => '\u{00A5}',
        0x9E => '\u{20A7}',
        0x9F => '\u{0192}',
        0xA0 => '\u{00E1}',
        0xA1 => '\u{00ED}',
        0xA2 => '\u{00F3}',
        0xA3 => '\u{00FA}',
        0xA4 => '\u{00F1}',
        0xA5 => '\u{00D1}',
        0xA6 => '\u{00AA}',
        0xA7 => '\u{00BA}',
        0xA8 => '\u{00BF}',
        0xA9 => '\u{2310}',
        0xAA => '\u{00AC}',
        0xAB => '\u{00BD}',
        0xAC => '\u{00BC}',
        0xAD => '\u{00A1}',
        0xAE => '\u{00AB}',
        0xAF => '\u{00BB}',
        0xB0 => '\u{2591}',
        0xB1 => '\u{2592}',
        0xB2 => '\u{2593}',
        0xB3 => '\u{2502}',
        0xB4 => '\u{2524}',
        0xB5 => '\u{2561}',
        0xB6 => '\u{2562}',
        0xB7 => '\u{2556}',
        0xB8 => '\u{2555}',
        0xB9 => '\u{2563}',
        0xBA => '\u{2551}',
        0xBB => '\u{2557}',
        0xBC => '\u{255D}',
        0xBD => '\u{255C}',
        0xBE => '\u{255B}',
        0xBF => '\u{2510}',
        0xC0 => '\u{2514}',
        0xC1 => '\u{2534}',
        0xC2 => '\u{252C}',
        0xC3 => '\u{251C}',
        0xC4 => '\u{2500}',
        0xC5 => '\u{253C}',
        0xC6 => '\u{255E}',
        0xC7 => '\u{255F}',
        0xC8 => '\u{255A}',
        0xC9 => '\u{2554}',
        0xCA => '\u{2569}',
        0xCB => '\u{2566}',
        0xCC => '\u{2560}',
        0xCD => '\u{2550}',
        0xCE => '\u{256C}',
        0xCF => '\u{2567}',
        0xD0 => '\u{2568}',
        0xD1 => '\u{2564}',
        0xD2 => '\u{2565}',
        0xD3 => '\u{2559}',
        0xD4 => '\u{2558}',
        0xD5 => '\u{2552}',
        0xD6 => '\u{2553}',
        0xD7 => '\u{256B}',
        0xD8 => '\u{256A}',
        0xD9 => '\u{2518}',
        0xDA => '\u{250C}',
        0xDB => '\u{2588}',
        0xDC => '\u{2584}',
        0xDD => '\u{258C}',
        0xDE => '\u{2590}',
        0xDF => '\u{2580}',
        0xE0 => '\u{03B1}',
        0xE1 => '\u{00DF}',
        0xE2 => '\u{0393}',
        0xE3 => '\u{03C0}',
        0xE4 => '\u{03A3}',
        0xE5 => '\u{03C3}',
        0xE6 => '\u{00B5}',
        0xE7 => '\u{03C4}',
        0xE8 => '\u{03A6}',
        0xE9 => '\u{0398}',
        0xEA => '\u{03A9}',
        0xEB => '\u{03B4}',
        0xEC => '\u{221E}',
        0xED => '\u{03C6}',
        0xEE => '\u{03B5}',
        0xEF => '\u{2229}',
        0xF0 => '\u{2261}',
        0xF1 => '\u{00B1}',
        0xF2 => '\u{2265}',
        0xF3 => '\u{2264}',
        0xF4 => '\u{2320}',
        0xF5 => '\u{2321}',
        0xF6 => '\u{00F7}',
        0xF7 => '\u{2248}',
        0xF8 => '\u{00B0}',
        0xF9 => '\u{2219}',
        0xFA => '\u{00B7}',
        0xFB => '\u{221A}',
        0xFC => '\u{207F}',
        0xFD => '\u{00B2}',
        0xFE => '\u{25A0}',
        _ => '\u{00A0}',
    }
}

/// The code page has a character for each of the 256 byte values, and each
/// of them is a Unicode scalar value.
pub proof fn lemma_cp437_total(c: u8)
    ensures
        cp437_table().len() == 256,
        cp437_table()[c as int] == cp437_char(c),
        vstd::utf8::is_scalar(cp437_char(c) as u32),
{
}

/// Bytes of descriptor text decoded through code page 437, line feeds left out.
pub open spec fn decode_text(b: Seq<u8>) -> Seq<char>
    decreases b.len(),
{
    if b.len() == 0 {
        Seq::empty()
    } else if b.last() == 0x0a {
        decode_text(b.drop_last())
    } else {
        decode_text(b.drop_last()).push(cp437_char(b.last()))
    }
}

/// The white space characters that code page 437 can produce: the space and
/// the no-break space.
pub open spec fn is_text_space(c: char) -> bool {
    c == ' ' || c == '\u{a0}'
}

pub open spec fn trim_end(s: Seq<char>) -> Seq<char>
    decreases s.len(),
{
    if s.len() > 0 && is_text_space(s.last()) {
        trim_end(s.drop_last())
    } else {
        s
    }
}

pub open spec fn trim_start(s: Seq<char>) -> Seq<char>
    decreases s.len(),
{
    if s.len() > 0 && is_text_space(s[0]) {
        trim_start(s.drop_first())
    } else {
        s
    }
}

/// The text of a descriptor: its 13 bytes decoded, white space trimmed from
/// both ends.
pub open spec fn descriptor_text(b: Seq<u8>) -> Seq<char> {
    trim_start(trim_end(decode_text(b)))
}

/// Relies on String::push: the string grows by the one character.
#[verifier::external_body]
fn push_char(s: &mut String, c: char)
    ensures
        final(s)@ == old(s)@.push(c),
{
    s.push(c)
}

fn parse_descriptor_text(b: &[u8], at: usize) -> (r: String)
    requires
        at + 13 <= b@.len(),
    ensures
        r@ == descriptor_text(b@.subrange(at as int, at + 13)),
{
    let ghost t = b@.subrange(at as int, at + 13);
    let len = b.len();
    let mut chars: Vec<char> = Vec::new();
    let mut i: usize = 0;
    while i < 13
        invariant
            i <= 13,
            at + 13 <= len,
            len == b@.len(),
            t == b@.subrange(at as int, at + 13),
            chars@ == decode_text(t.take(i as int)),
        decreases 13 - i,
    {
        assert(t.take(i as int + 1).drop_last() =~= t.take(i as int));
        let x = b[at + i];
        if x != 0x0a {
            chars.push(cp437_forward(x));
        }
        i += 1;
    }
    assert(t.take(13) =~= t);
    let mut end: usize = chars.len();
    assert(chars@.take(end as int) =~= chars@);
    while end > 0 && (chars[end - 1] == ' ' || chars[end - 1] == '\u{a0}')
        invariant
            end <= chars@.len(),
            trim_end(chars@) == trim_end(chars@.take(end as int)),
        decreases end,
    {
        assert(chars@.take(end as int).drop_last() =~= chars@.take(end - 1));
        end -= 1;
    }
    let ghost kept = chars@.take(end as int);
    let mut start: usize = 0;
    while start < end && (chars[start] == ' ' || chars[start] == '\u{a0}')
        invariant
            start <= end <= chars@.len(),
            kept == chars@.take(end as int),
            trim_start(kept) == trim_start(chars@.subrange(start as int, end as int)),
        decreases end - start,
    {
        assert(chars@.subrange(start as int, end as int).drop_first() =~= chars@.subrange(
            start + 1,
            end as int,
        ));
        start += 1;
    }
    assert(start == 0 ==> chars@.subrange(start as int, end as int) =~= kept);
    let mut s = String::new();
    let mut k: usize = start;
    while k < end
        invariant
            start <= k <= end <= chars@.len(),
            s@ == chars@.subrange(start as int, k as int),
        decreases end - k,
    {
        push_char(&mut s, chars[k]);
        k += 1;
        assert(s@ =~= chars@.subrange(start as int, k as int));
    }
    s
}

/// What the 18 byte descriptor at `at` is. Three zero bytes mark a monitor
/// descriptor, whose tag is the byte after them and whose data is the 13
/// bytes from offset 5; anything else is a detailed timing.
pub open spec fn descriptor_matches(r: Descriptor, b: Seq<u8>, at: int) -> bool {
    let data = b.subrange(at + 5, at + 18);
    if b[at] == 0 && b[at + 1] == 0 && b[at + 2] == 0 {
        match b[at + 3] {
            0xff => r matches Descriptor::SerialNumber(s) && s@ == descriptor_text(data),
            0xfe => r matches Descriptor::UnspecifiedText(s) && s@ == descriptor_text(data),
            0xfd => r is RangeLimits,
            0xfc => r matches Descriptor::ProductName(s) && s@ == descriptor_text(data),
            0xfb => r is WhitePoint,
            0xfa => r is StandardTiming,
            0xf9 => r is ColorManagement,
            0xf8 => r is TimingCodes,
            0xf7 => r is EstablishedTimings,
            0x10 => r is Dummy,
            _ => r matches Descriptor::Unknown(a) && a@ == data,
        }
    } else {
        r == Descriptor::DetailedTiming(detailed_timing_of(b, at))
    }
}

fn parse_descriptor(b: &[u8], at: usize) -> (r: Descriptor)
    requires
        at + 18 <= b@.len(),
    ensures
        descriptor_matches(r, b@, at as int),
{
    if b[at] == 0 && b[at + 1] == 0 && b[at + 2] == 0 {
        match b[at + 3] {
            0xff => Descriptor::SerialNumber(parse_descriptor_text(b, at + 5)),
            0xfe => Descriptor::UnspecifiedText(parse_descriptor_text(b, at + 5)),
            0xfd => Descriptor::RangeLimits,
            0xfc => Descriptor::ProductName(parse_descriptor_text(b, at + 5)),
            0xfb => Descriptor::WhitePoint,
            0xfa => Descriptor::StandardTiming,
            0xf9 => Descriptor::ColorManagement,
            0xf8 => Descriptor::TimingCodes,
            0xf7 => Descriptor::EstablishedTimings,
            0x10 => Descriptor::Dummy,
            _ => {
                let len = b.len();
                let mut data: [u8; 13] = [0u8; 13];
                let mut k: usize = 0;
                while k < 13
                    invariant
                        k <= 13,
                        at + 18 <= len,
                        len == b@.len(),
                        forall|j: int| 0 <= j < k ==> data@[j] == b@[at + 5 + j],
                    decreases 13 - k,
                {
                    data[k] = b[at + 5 + k];
                    k += 1;
                }
                assert(data@ =~= b@.subrange(at + 5, at + 18));
                Descriptor::Unknown(data)
            },
        }
    } else {
        Descriptor::DetailedTiming(parse_detailed_timing(b, at))
    }
}

#[derive(Debug, PartialEq, Clone)]
pub struct Edid {
    pub header: Header,
    pub display: Display,
    pub descriptors: Vec<Descriptor>,
    pub num_extr: u8,
}

#[derive(Debug, Clone, PartialEq, Eq)]
pub enum EdidParseError {
    /// The bytes of the block do not sum to 0 mod 256.
    InvalidChecksum,
    /// The block is too short or does not start with the EDID preamble.
    NomParserError(String),
}

/// `00 FF FF FF FF FF FF 00`
pub open spec fn has_preamble(b: Seq<u8>) -> bool {
    &&& b[0] == 0x00
    &&& forall|i: int| 1 <= i < 7 ==> b[i] == 0xff
    &&& b[7] == 0x00
}

pub open spec fn byte_sum(s: Seq<u8>) -> nat
    decreases s.len(),
{
    if s.len() == 0 {
        0
    } else {
        byte_sum(s.drop_last()) + (s.last() as nat)
    }
}

/// The layout holds: 128 bytes or more, starting with the preamble.
pub open spec fn is_edid_layout(b: Seq<u8>) -> bool {
    b.len() >= 128 && has_preamble(b)
}

/// The first 128 bytes sum to 0 mod 256.
pub open spec fn edid_checksum_ok(b: Seq<u8>) -> bool {
    byte_sum(b.take(128)) % 256 == 0
}

/// The block parses: its layout holds and its bytes sum to 0 mod 256.
pub open spec fn edid_parses(b: Seq<u8>) -> bool {
    is_edid_layout(b) && edid_checksum_ok(b)
}

/// What a parsed block holds of the bytes: header, display block, the four
/// descriptors at 0x36, 0x48, 0x5a and 0x6c, and the extension count.
pub open spec fn edid_matches(e: Edid, b: Seq<u8>) -> bool {
    &&& header_matches(e.header, b)
    &&& e.display == display_of(b)
    &&& e.descriptors@.len() == 4
    &&& forall|i: int| 0 <= i < 4 ==> descriptor_matches(e.descriptors@[i], b, 54 + 18 * i)
    &&& e.num_extr == b[126]
}

fn parse_header(b: &[u8]) -> (r: Header)
    requires
        b@.len() >= 128,
    ensures
        header_matches(r, b@),
{
    Header {
        vendor: parse_vendor(((b[8] as u16) << 8u16) | (b[9] as u16)),
        product: (b[10] as u16) | ((b[11] as u16) << 8u16),
        serial: (b[12] as u32) | ((b[13] as u32) << 8u32) | ((b[14] as u32) << 16u32) | ((
        b[15] as u32) << 24u32),
        week: b[16],
        year: b[17],
        version: b[18],
        revision: b[19],
    }
}

pub fn parse_edid(full_input: &[u8]) -> (r: Result<Edid, EdidParseError>)
    ensures
        r is Ok <==> edid_parses(full_input@),
        !is_edid_layout(full_input@) ==> r is Err && r->Err_0 is NomParserError,
        is_edid_layout(full_input@) && !edid_checksum_ok(full_input@) ==> r == Err::<
            Edid,
            EdidParseError,
        >(EdidParseError::InvalidChecksum),
        is_edid_layout(full_input@) && edid_checksum_ok(full_input@) ==> r is Ok && edid_matches(
            r->Ok_0,
            full_input@,
        ),
{
    let b = full_input;
    if b.len() < 128 {
        return Err(EdidParseError::NomParserError(String::new()));
    }
    if !(b[0] == 0x00 && b[1] == 0xff && b[2] == 0xff && b[3] == 0xff && b[4] == 0xff && b[5]
        == 0xff && b[6] == 0xff && b[7] == 0x00) {
        return Err(EdidParseError::NomParserError(String::new()));
    }
    let header = parse_header(b);
    let display = Display {
        video_input: b[20],
        width: b[21],
        height: b[22],
        gamma: b[23],
        features: b[24],
    };
    let mut descriptors: Vec<Descriptor> = Vec::new();
    let mut i: usize = 0;
    while i < 4
        invariant
            i <= 4,
            b@.len() >= 128,
            descriptors@.len() == i,
            forall|j: int| 0 <= j < i ==> descriptor_matches(descriptors@[j], b@, 54 + 18 * j),
        decreases 4 - i,
    {
        let d = parse_descriptor(b, 54 + 18 * i);
        descriptors.push(d);
        i += 1;
    }
    let num_extr = b[126];
    let mut sum: u32 = 0;
    let mut k: usize = 0;
    while k < 128
        invariant
            k <= 128,
            b@.len() >= 128,
            sum == byte_sum(b@.take(k as int)),
            sum <= 255 * k,
        decreases 128 - k,
    {
        assert(b@.take(k as int + 1).drop_last() =~= b@.take(k as int));
        sum = sum + b[k] as u32;
        k += 1;
    }
    if sum % 256 == 0 {
        Ok(Edid { header, display, descriptors, num_extr })
    } else {
        Err(EdidParseError::InvalidChecksum)
    }
}

/// Every block that parses sums to 0 mod 256 over its 128 bytes, so its
/// checksum byte is fixed by the 127 bytes before it.
pub proof fn lemma_parsed_edid_checksum(b: Seq<u8>)
    requires
        edid_parses(b),
    ensures
        byte_sum(b.take(128)) % 256 == 0,
        b[127] as nat == (256 - byte_sum(b.take(127)) % 256) % 256,
{
    assert(b.take(128).drop_last() =~= b.take(127));
    let x = byte_sum(b.take(127));
    let c = b[127] as nat;
    assert(byte_sum(b.take(128)) == x + c);
    assert((x + c) % 256 == 0 && c < 256 ==> c == (256 - x % 256) % 256) by (nonlinear_arith);
}

} // verus!
