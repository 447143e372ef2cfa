use memory_editor::buffer::BufferContext;
use memory_editor::context::Content;
use memory_editor::geometry::Position;
use memory_editor::geometry::Rect;
use memory_editor::memory_editor::Event;
use memory_editor::memory_editor::Status;
use memory_editor::memory_editor::calculate_byte_index;
use memory_editor::memory_editor::layout;
use memory_editor::memory_editor::update;
use memory_editor::options::MemoryEditorOptions;
use memory_editor::options::PreviewDataFormat;
use memory_editor::state::State;

const CHAR_WIDTH: u64 = 512;
const CHAR_HEIGHT: u64 = 1024;

fn viewport() -> Rect {
    Rect { x: 0, y: 0, width: 51200, height: 38400 }
}

fn setup(bytes: Vec<u8>) -> (Content<BufferContext>, State) {
    let context = BufferContext::new(
        bytes,
        MemoryEditorOptions {
            row_length: 16,
            preview_data_format: PreviewDataFormat::U8,
            show_ascii: true,
        },
    );
    let mut content = Content::new(context);
    let mut state = State::default();
    layout(&content, &mut state, CHAR_WIDTH, CHAR_HEIGHT, viewport());
    update(&mut content, &mut state, Event::Other, viewport());
    (content, state)
}

fn click(content: &mut Content<BufferContext>, state: &mut State, x: i64, y: i64) -> Status {
    update(
        content,
        state,
        Event::LeftButtonPressed { cursor: Some(Position { x, y }) },
        viewport(),
    )
    .status
}

/// The x coordinate, relative to the data column, of the centre of byte
/// cell `k`: the forward layout places cell `k` after `k` byte widths plus
/// one group spacing per completed 8-byte group, and its glyph pair is two
/// character widths wide.
fn cell_center_x(k: u64) -> u64 {
    let byte_width = CHAR_WIDTH * 5 / 2;
    let group_spacing = CHAR_WIDTH;
    k * byte_width + (k / 8) * group_spacing + CHAR_WIDTH
}

#[test]
fn hit_test_inverts_layout_for_every_cell() {
    let (_content, state) = setup(vec![0u8; 256]);
    for k in 0..16u64 {
        let got = calculate_byte_index(cell_center_x(k), &state.dimensions);
        assert_eq!(got, k, "cell {k} did not round-trip");
    }
}

#[test]
fn hit_test_round_trips_across_group_boundary() {
    let (_content, state) = setup(vec![0u8; 256]);
    // the boundary between byte 7 (end of the first group) and byte 8
    assert_eq!(calculate_byte_index(cell_center_x(7), &state.dimensions), 7);
    assert_eq!(calculate_byte_index(cell_center_x(8), &state.dimensions), 8);
}

#[test]
fn click_selects_byte_and_formats_label() {
    let (mut content, mut state) = setup(vec![0u8; 256]);
    // row 1, byte 10: data column starts at 8 character widths
    let x = (8 * CHAR_WIDTH + cell_center_x(10)) as i64;
    let y = (CHAR_HEIGHT + CHAR_HEIGHT / 2) as i64;
    let status = click(&mut content, &mut state, x, y);
    assert_eq!(status, Status::Captured);
    assert_eq!(state.selected_address, Some(26));
    let label: String = state.text.value_text.iter().collect();
    assert_eq!(label, "00001A =");
}

#[test]
fn click_below_last_row_clears_selection() {
    let (mut content, mut state) = setup(vec![0u8; 256]);
    state.selected_address = Some(3);
    // 36 rows are visible; a click on row 36 is below the last one
    let y = (36 * CHAR_HEIGHT + 10) as i64;
    let status = click(&mut content, &mut state, 8 * CHAR_WIDTH as i64, y);
    assert_eq!(status, Status::Captured);
    assert_eq!(state.selected_address, None);
    assert!(state.text.value_text.is_empty());
}

#[test]
fn click_left_of_data_column_clears_selection() {
    let (mut content, mut state) = setup(vec![0u8; 256]);
    state.selected_address = Some(3);
    // inside the address label column
    let status = click(&mut content, &mut state, 100, 100);
    assert_eq!(status, Status::Captured);
    assert_eq!(state.selected_address, None);
}

#[test]
fn click_right_of_last_cell_clears_selection() {
    let (mut content, mut state) = setup(vec![0u8; 256]);
    state.selected_address = Some(3);
    // far right of the 16th byte cell, but above the status bar
    let status = click(&mut content, &mut state, 45000, 100);
    assert_eq!(status, Status::Captured);
    assert_eq!(state.selected_address, None);
}

#[test]
fn click_without_cursor_defocuses_only() {
    let (mut content, mut state) = setup(vec![0u8; 256]);
    state.selected_address = Some(3);
    state.addr_input.focused = true;
    let status = update(
        &mut content,
        &mut state,
        Event::LeftButtonPressed { cursor: None },
        viewport(),
    )
    .status;
    assert_eq!(status, Status::Ignored);
    assert!(!state.addr_input.focused);
    assert_eq!(state.selected_address, Some(3));
}

#[test]
fn row_count_reserves_status_bar_and_panel() {
    let (content, mut state) = setup(vec![0u8; 256]);
    // 38400 / 1024 = 37.5 rows; one is reserved for the status bar
    assert_eq!(state.dimensions.row_count, 36);
    state.options_open = true;
    layout(&content, &mut state, CHAR_WIDTH, CHAR_HEIGHT, viewport());
    // four more rows are reserved while the options panel is open
    assert_eq!(state.dimensions.row_count, 32);
}

#[test]
fn tiny_viewport_clamps_to_zero_rows() {
    let context = BufferContext::new(
        vec![0u8; 16],
        MemoryEditorOptions {
            row_length: 16,
            preview_data_format: PreviewDataFormat::U8,
            show_ascii: true,
        },
    );
    let content = Content::new(context);
    let mut state = State::default();
    let tiny = Rect { x: 0, y: 0, width: 1000, height: 900 };
    layout(&content, &mut state, CHAR_WIDTH, CHAR_HEIGHT, tiny);
    assert_eq!(state.dimensions.row_count, 0);
}

#[test]
fn control_rectangles_line_up() {
    let (_content, state) = setup(vec![0u8; 256]);
    // the "Options" button fills the bottom-left corner of the status bar
    assert_eq!(
        state.bounds.options,
        Rect { x: 0, y: 36864, width: 3584, height: 1536 }
    );
    // the two inputs sit on the status bar, centred by equal spacing
    assert_eq!(
        state.bounds.addr_input,
        Rect { x: 17856, y: 37069, width: 3801, height: 1126 }
    );
    assert_eq!(
        state.bounds.byte_input,
        Rect { x: 35417, y: 37069, width: 2534, height: 1126 }
    );
    // the ASCII checkbox sits on the third options-panel row
    assert_eq!(
        state.bounds.show_ascii_checkbox,
        Rect { x: 9984, y: 35328, width: 819, height: 819 }
    );
}

#[test]
fn derived_offsets_follow_the_row_length() {
    let (_content, state) = setup(vec![0u8; 256]);
    let d = &state.dimensions;
    assert_eq!(d.byte_width, CHAR_WIDTH * 5 / 2);
    assert_eq!(d.group_spacing, CHAR_WIDTH);
    assert_eq!(d.section_data_start, 8 * CHAR_WIDTH);
    assert_eq!(d.address_separator_x, 7 * CHAR_WIDTH);
    // 16 bytes per row: the ASCII column starts after the byte cells, one
    // inter-group gap and the separator spacing
    let expected_ascii = 8 * CHAR_WIDTH + d.byte_width * 16 + d.group_spacing + 2 * CHAR_WIDTH;
    assert_eq!(d.section_ascii_start, expected_ascii);
    assert_eq!(d.ascii_separator_x, expected_ascii - CHAR_WIDTH);
}
