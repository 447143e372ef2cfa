use memory_editor::options::PreviewDataFormat;
use memory_editor::render::PreviewValue;
use memory_editor::render::format_preview_value;
use memory_editor::text::ascii_row;
use memory_editor::text::byte_hex_lower;
use memory_editor::text::dec_i64;
use memory_editor::text::dec_u64;
use memory_editor::text::hex_upper6;
use memory_editor::text::parse_hex;

fn chars(s: &str) -> Vec<char> {
    s.chars().collect()
}

#[test]
fn u32_preview_reads_exactly_four_bytes() {
    let data = vec![0x78, 0x56, 0x34, 0x12, 0xAA, 0xBB];
    assert_eq!(
        format_preview_value(&data, 0, &PreviewDataFormat::U32),
        PreviewValue::Unsigned(0x12345678)
    );
    // a window of exactly four bytes suffices
    let tight = vec![0x78, 0x56, 0x34, 0x12];
    assert_eq!(
        format_preview_value(&tight, 0, &PreviewDataFormat::U32),
        PreviewValue::Unsigned(0x12345678)
    );
    // three bytes are too few
    let short = vec![0x78, 0x56, 0x34];
    assert_eq!(
        format_preview_value(&short, 0, &PreviewDataFormat::U32),
        PreviewValue::Error
    );
}

#[test]
fn f64_preview_reads_exactly_eight_bytes() {
    let bits: u64 = 1.5f64.to_bits();
    let data: Vec<u8> = bits.to_le_bytes().to_vec();
    assert_eq!(
        format_preview_value(&data, 0, &PreviewDataFormat::F64),
        PreviewValue::F64Bits(bits)
    );
    let short = vec![0u8; 7];
    assert_eq!(
        format_preview_value(&short, 0, &PreviewDataFormat::F64),
        PreviewValue::Error
    );
}

#[test]
fn f32_preview_carries_the_raw_bits() {
    let bits: u32 = 3.25f32.to_bits();
    let data: Vec<u8> = bits.to_le_bytes().to_vec();
    assert_eq!(
        format_preview_value(&data, 0, &PreviewDataFormat::F32),
        PreviewValue::F32Bits(bits)
    );
}

#[test]
fn preview_respects_the_offset() {
    let data = vec![0xFF, 0x01, 0x02];
    assert_eq!(
        format_preview_value(&data, 1, &PreviewDataFormat::U16),
        PreviewValue::Unsigned(0x0201)
    );
    assert_eq!(
        format_preview_value(&data, 2, &PreviewDataFormat::U16),
        PreviewValue::Error
    );
}

#[test]
fn signed_previews_wrap_the_upper_half() {
    assert_eq!(
        format_preview_value(&vec![0xFF], 0, &PreviewDataFormat::I8),
        PreviewValue::Signed(-1)
    );
    assert_eq!(
        format_preview_value(&vec![0x00, 0x80], 0, &PreviewDataFormat::I16),
        PreviewValue::Signed(-32768)
    );
    assert_eq!(
        format_preview_value(&vec![0x7F], 0, &PreviewDataFormat::I8),
        PreviewValue::Signed(127)
    );
    assert_eq!(
        format_preview_value(
            &vec![0xFF, 0xFF, 0xFF, 0xFF, 0xFF, 0xFF, 0xFF, 0xFF],
            0,
            &PreviewDataFormat::I64
        ),
        PreviewValue::Signed(-1)
    );
    assert_eq!(
        format_preview_value(
            &vec![0x00, 0x00, 0x00, 0x00, 0x00, 0x00, 0x00, 0x80],
            0,
            &PreviewDataFormat::I64
        ),
        PreviewValue::Signed(i64::MIN)
    );
}

#[test]
fn unsigned_previews_decode_little_endian() {
    assert_eq!(
        format_preview_value(&vec![0x2A], 0, &PreviewDataFormat::U8),
        PreviewValue::Unsigned(42)
    );
    assert_eq!(
        format_preview_value(&vec![0x01, 0x00], 0, &PreviewDataFormat::U16),
        PreviewValue::Unsigned(1)
    );
    assert_eq!(
        format_preview_value(
            &vec![0xEF, 0xCD, 0xAB, 0x89, 0x67, 0x45, 0x23, 0x01],
            0,
            &PreviewDataFormat::U64
        ),
        PreviewValue::Unsigned(0x0123456789ABCDEF)
    );
}

#[test]
fn empty_window_always_errors() {
    let data: Vec<u8> = Vec::new();
    assert_eq!(
        format_preview_value(&data, 0, &PreviewDataFormat::U8),
        PreviewValue::Error
    );
}

#[test]
fn address_labels_are_uppercase_and_padded() {
    assert_eq!(hex_upper6(0), chars("000000"));
    assert_eq!(hex_upper6(0xABC), chars("000ABC"));
    assert_eq!(hex_upper6(0x100A), chars("00100A"));
    assert_eq!(hex_upper6(0x12345678), chars("12345678"));
}

#[test]
fn byte_cells_are_lowercase_hex() {
    assert_eq!(byte_hex_lower(0x00), chars("00"));
    assert_eq!(byte_hex_lower(0xAF), chars("af"));
    assert_eq!(byte_hex_lower(0x09), chars("09"));
}

#[test]
fn decimal_renderings() {
    assert_eq!(dec_u64(0), chars("0"));
    assert_eq!(dec_u64(12345), chars("12345"));
    assert_eq!(dec_u64(u64::MAX), chars("18446744073709551615"));
    assert_eq!(dec_i64(-42), chars("-42"));
    assert_eq!(dec_i64(i64::MIN), chars("-9223372036854775808"));
    assert_eq!(dec_i64(7), chars("7"));
}

#[test]
fn hex_parsing_round_trip() {
    assert_eq!(parse_hex(&chars("00100A")), Some(0x100A));
    assert_eq!(parse_hex(&chars("ff")), Some(255));
    assert_eq!(parse_hex(&chars("FF")), Some(255));
    assert_eq!(parse_hex(&chars("")), None);
}

#[test]
fn ascii_column_renders_printables_verbatim() {
    assert_eq!(ascii_row(&[0x41, 0x00, 0x7E, 0x20, 0x7F]), chars("A.~ ."));
    assert_eq!(ascii_row(&[31, 32, 126, 127]), chars(". ~."));
}
