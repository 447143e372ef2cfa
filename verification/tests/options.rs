use memory_editor::options::MemoryEditorOptions;
use memory_editor::options::PreviewDataFormat;
use memory_editor::options::decreased_row_length;
use memory_editor::options::increased_row_length;
use memory_editor::options::MAX_ROW_LENGTH;

fn all_formats() -> Vec<PreviewDataFormat> {
    vec![
        PreviewDataFormat::U8,
        PreviewDataFormat::U16,
        PreviewDataFormat::U32,
        PreviewDataFormat::U64,
        PreviewDataFormat::I8,
        PreviewDataFormat::I16,
        PreviewDataFormat::I32,
        PreviewDataFormat::I64,
        PreviewDataFormat::F32,
        PreviewDataFormat::F64,
    ]
}

fn with_format(format: PreviewDataFormat) -> MemoryEditorOptions {
    MemoryEditorOptions {
        row_length: 16,
        preview_data_format: format,
        show_ascii: true,
    }
}

#[test]
fn format_cycle_next_of_previous_is_identity() {
    for f in all_formats() {
        let back = with_format(f).previous_data_format();
        let there = with_format(back).next_data_format();
        assert_eq!(there, f);
        let forward = with_format(f).next_data_format();
        let back_again = with_format(forward).previous_data_format();
        assert_eq!(back_again, f);
    }
}

#[test]
fn format_cycle_has_period_ten() {
    for f in all_formats() {
        let mut cur = f;
        for _ in 0..10 {
            cur = with_format(cur).next_data_format();
        }
        assert_eq!(cur, f);
    }
}

#[test]
fn format_cycle_order() {
    assert_eq!(
        with_format(PreviewDataFormat::U8).next_data_format(),
        PreviewDataFormat::U16
    );
    assert_eq!(
        with_format(PreviewDataFormat::I64).next_data_format(),
        PreviewDataFormat::F32
    );
    assert_eq!(
        with_format(PreviewDataFormat::F64).next_data_format(),
        PreviewDataFormat::U8
    );
    assert_eq!(
        with_format(PreviewDataFormat::U8).previous_data_format(),
        PreviewDataFormat::F64
    );
}

#[test]
fn row_length_never_drops_below_eight() {
    let mut len: u64 = 64;
    for _ in 0..20 {
        len = decreased_row_length(len);
        assert!(len >= 8);
        assert_eq!(len % 8, 0);
    }
    assert_eq!(len, 8);
}

#[test]
fn row_length_decrease_steps_by_eight() {
    assert_eq!(decreased_row_length(16), 8);
    assert_eq!(decreased_row_length(8), 8);
    assert_eq!(decreased_row_length(24), 16);
}

#[test]
fn row_length_increase_is_capped() {
    assert_eq!(increased_row_length(8), 16);
    assert_eq!(increased_row_length(MAX_ROW_LENGTH), MAX_ROW_LENGTH);
    assert_eq!(increased_row_length(MAX_ROW_LENGTH - 8), MAX_ROW_LENGTH);
}

#[test]
fn default_options() {
    let opts = MemoryEditorOptions::default();
    assert_eq!(opts.row_length, 16);
    assert_eq!(opts.preview_data_format, PreviewDataFormat::U8);
    assert!(opts.show_ascii);
}

#[test]
fn required_bytes_per_format() {
    assert_eq!(PreviewDataFormat::U8.required_bytes(), 1);
    assert_eq!(PreviewDataFormat::I8.required_bytes(), 1);
    assert_eq!(PreviewDataFormat::U16.required_bytes(), 2);
    assert_eq!(PreviewDataFormat::I16.required_bytes(), 2);
    assert_eq!(PreviewDataFormat::U32.required_bytes(), 4);
    assert_eq!(PreviewDataFormat::I32.required_bytes(), 4);
    assert_eq!(PreviewDataFormat::F32.required_bytes(), 4);
    assert_eq!(PreviewDataFormat::U64.required_bytes(), 8);
    assert_eq!(PreviewDataFormat::I64.required_bytes(), 8);
    assert_eq!(PreviewDataFormat::F64.required_bytes(), 8);
}

#[test]
fn format_names() {
    let name: String = PreviewDataFormat::U8.name().into_iter().collect();
    assert_eq!(name, "U8");
    let name: String = PreviewDataFormat::F64.name().into_iter().collect();
    assert_eq!(name, "F64");
    let name: String = PreviewDataFormat::I32.name().into_iter().collect();
    assert_eq!(name, "I32");
}
