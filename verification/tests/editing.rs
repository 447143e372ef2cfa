use memory_editor::buffer::BufferContext;
use memory_editor::context::Content;
use memory_editor::geometry::Position;
use memory_editor::geometry::Rect;
use memory_editor::memory_editor::Event;
use memory_editor::memory_editor::Key;
use memory_editor::memory_editor::Status;
use memory_editor::memory_editor::layout;
use memory_editor::memory_editor::options;
use memory_editor::memory_editor::update;
use memory_editor::options::MemoryEditorOptions;
use memory_editor::options::PreviewDataFormat;
use memory_editor::state::State;

const CHAR_WIDTH: u64 = 512; // 8 px in subpixel units
const CHAR_HEIGHT: u64 = 1024; // 16 px

fn viewport() -> Rect {
    // 800 x 600 px
    Rect { x: 0, y: 0, width: 51200, height: 38400 }
}

fn default_options() -> MemoryEditorOptions {
    MemoryEditorOptions {
        row_length: 16,
        preview_data_format: PreviewDataFormat::U8,
        show_ascii: true,
    }
}

/// A widget over `bytes`, laid out and with its first data window fetched.
fn setup(bytes: Vec<u8>) -> (Content<BufferContext>, State) {
    let context = BufferContext::new(bytes, default_options());
    let mut content = Content::new(context);
    let mut state = State::default();
    layout(&content, &mut state, CHAR_WIDTH, CHAR_HEIGHT, viewport());
    let first = update(&mut content, &mut state, Event::Other, viewport());
    assert_eq!(first.status, Status::Captured);
    (content, state)
}

fn press(content: &mut Content<BufferContext>, state: &mut State, key: Key) -> Status {
    update(content, state, Event::KeyPressed { key }, viewport()).status
}

#[test]
fn first_update_fetches_window() {
    let (_content, state) = setup(vec![7u8; 256]);
    assert_eq!(state.data.len(), 256);
    assert!(state.data.iter().all(|&b| b == 7));
}

#[test]
fn jump_input_parses_hex_address() {
    let (mut content, mut state) = setup(vec![0u8; 64]);
    state.addr_input.focused = true;
    for c in "00100A".chars() {
        let status = press(&mut content, &mut state, Key::Character(c));
        assert_eq!(status, Status::Captured);
    }
    let status = press(&mut content, &mut state, Key::Enter);
    assert_eq!(status, Status::Captured);
    assert_eq!(state.start_address, 0x00100A);
    assert!(state.addr_input.value.is_empty());
    assert!(!state.addr_input.focused);
}

#[test]
fn jump_input_rejects_non_hex_and_overflow() {
    let (mut content, mut state) = setup(vec![0u8; 64]);
    state.addr_input.focused = true;
    assert_eq!(
        press(&mut content, &mut state, Key::Character('g')),
        Status::Ignored
    );
    for c in "ABCDEF".chars() {
        press(&mut content, &mut state, Key::Character(c));
    }
    // seventh digit is refused: the buffer is capped at six
    assert_eq!(
        press(&mut content, &mut state, Key::Character('1')),
        Status::Ignored
    );
    assert_eq!(state.addr_input.value.len(), 6);
}

#[test]
fn jump_input_backspace_and_escape() {
    let (mut content, mut state) = setup(vec![0u8; 64]);
    state.addr_input.focused = true;
    press(&mut content, &mut state, Key::Character('1'));
    press(&mut content, &mut state, Key::Character('2'));
    press(&mut content, &mut state, Key::Backspace);
    assert_eq!(state.addr_input.value, vec!['1']);
    press(&mut content, &mut state, Key::Escape);
    assert!(!state.addr_input.focused);
    assert_eq!(state.addr_input.value, vec!['1']);
    assert_eq!(state.start_address, 0);
}

#[test]
fn empty_jump_buffer_discards_silently() {
    let (mut content, mut state) = setup(vec![0u8; 64]);
    state.addr_input.focused = true;
    let status = press(&mut content, &mut state, Key::Enter);
    assert_eq!(status, Status::Captured);
    assert_eq!(state.start_address, 0);
    assert!(!state.addr_input.focused);
}

#[test]
fn byte_write_round_trip() {
    let (mut content, mut state) = setup(vec![0u8; 256]);
    state.selected_address = Some(5);
    state.byte_input.focused = true;
    press(&mut content, &mut state, Key::Character('F'));
    press(&mut content, &mut state, Key::Character('F'));
    let status = press(&mut content, &mut state, Key::Enter);
    assert_eq!(status, Status::Captured);
    // the write went through the adapter and the refetched window reads it
    assert_eq!(state.data[5], 0xFF);
    assert!(state.byte_input.value.is_empty());
    assert!(!state.byte_input.focused);
}

#[test]
fn byte_write_without_selection_is_dropped() {
    let (mut content, mut state) = setup(vec![0u8; 256]);
    state.byte_input.focused = true;
    press(&mut content, &mut state, Key::Character('7'));
    press(&mut content, &mut state, Key::Enter);
    assert!(state.data.iter().all(|&b| b == 0));
    assert!(!state.byte_input.focused);
}

#[test]
fn byte_input_caps_at_two_digits() {
    let (mut content, mut state) = setup(vec![0u8; 256]);
    state.selected_address = Some(0);
    state.byte_input.focused = true;
    press(&mut content, &mut state, Key::Character('1'));
    press(&mut content, &mut state, Key::Character('2'));
    assert_eq!(
        press(&mut content, &mut state, Key::Character('3')),
        Status::Ignored
    );
    assert_eq!(state.byte_input.value, vec!['1', '2']);
}

#[test]
fn wheel_scroll_clamps_at_zero() {
    let (mut content, mut state) = setup(vec![0u8; 256]);
    state.start_address = 5;
    // one line up is a 16-byte step, larger than the start address
    let r = update(
        &mut content,
        &mut state,
        Event::WheelScrolled { delta_lines: -1 },
        viewport(),
    );
    assert_eq!(r.status, Status::Captured);
    assert_eq!(state.start_address, 0);
}

#[test]
fn wheel_scroll_moves_by_rows() {
    let (mut content, mut state) = setup(vec![0u8; 256]);
    update(
        &mut content,
        &mut state,
        Event::WheelScrolled { delta_lines: 3 },
        viewport(),
    );
    assert_eq!(state.start_address, 48);
    update(
        &mut content,
        &mut state,
        Event::WheelScrolled { delta_lines: -2 },
        viewport(),
    );
    assert_eq!(state.start_address, 16);
}

#[test]
fn wheel_scroll_keeps_selection() {
    let (mut content, mut state) = setup(vec![0u8; 256]);
    state.selected_address = Some(9);
    update(
        &mut content,
        &mut state,
        Event::WheelScrolled { delta_lines: 1 },
        viewport(),
    );
    assert_eq!(state.selected_address, Some(9));
}

#[test]
fn options_button_toggles_panel_and_relayouts() {
    let (mut content, mut state) = setup(vec![0u8; 256]);
    // bottom-left corner, inside the "Options" button
    let r = update(
        &mut content,
        &mut state,
        Event::LeftButtonPressed { cursor: Some(Position { x: 100, y: 37000 }) },
        viewport(),
    );
    assert_eq!(r.status, Status::Captured);
    assert!(r.relayout);
    assert!(state.options_open);
}

#[test]
fn panel_row_length_stepper_updates_options() {
    let (mut content, mut state) = setup(vec![0u8; 256]);
    state.options_open = true;
    // the "<" button of the row-length stepper
    let r = update(
        &mut content,
        &mut state,
        Event::LeftButtonPressed { cursor: Some(Position { x: 8500, y: 33500 }) },
        viewport(),
    );
    assert_eq!(r.status, Status::Captured);
    assert!(r.relayout);
    assert_eq!(options(&content).row_length, 8);
}

#[test]
fn panel_format_stepper_updates_options() {
    let (mut content, mut state) = setup(vec![0u8; 256]);
    state.options_open = true;
    // the ">" button of the format stepper
    let r = update(
        &mut content,
        &mut state,
        Event::LeftButtonPressed { cursor: Some(Position { x: 11600, y: 34400 }) },
        viewport(),
    );
    assert_eq!(r.status, Status::Captured);
    assert_eq!(
        options(&content).preview_data_format,
        PreviewDataFormat::U16
    );
}

#[test]
fn panel_checkbox_toggles_ascii() {
    let (mut content, mut state) = setup(vec![0u8; 256]);
    state.options_open = true;
    let r = update(
        &mut content,
        &mut state,
        Event::LeftButtonPressed { cursor: Some(Position { x: 10000, y: 35400 }) },
        viewport(),
    );
    assert_eq!(r.status, Status::Captured);
    assert!(r.relayout);
    assert!(!options(&content).show_ascii);
}

#[test]
fn click_on_jump_input_focuses_and_clears_it() {
    let (mut content, mut state) = setup(vec![0u8; 256]);
    state.addr_input.value = vec!['1', '2'];
    let x = state.bounds.addr_input.x as i64 + 10;
    let y = state.bounds.addr_input.y as i64 + 10;
    let r = update(
        &mut content,
        &mut state,
        Event::LeftButtonPressed { cursor: Some(Position { x, y }) },
        viewport(),
    );
    assert_eq!(r.status, Status::Captured);
    assert!(state.addr_input.focused);
    assert!(state.addr_input.value.is_empty());
}

#[test]
fn click_on_byte_input_needs_writable_selection() {
    let (mut content, mut state) = setup(vec![0u8; 256]);
    state.selected_address = Some(5);
    let x = state.bounds.byte_input.x as i64 + 10;
    let y = state.bounds.byte_input.y as i64 + 10;
    update(
        &mut content,
        &mut state,
        Event::LeftButtonPressed { cursor: Some(Position { x, y }) },
        viewport(),
    );
    assert!(state.byte_input.focused);

    // an address outside the buffer is not writable: the same click only
    // defocuses
    state.selected_address = Some(1_000_000);
    update(
        &mut content,
        &mut state,
        Event::LeftButtonPressed { cursor: Some(Position { x, y }) },
        viewport(),
    );
    assert!(!state.byte_input.focused);
}

#[test]
fn key_press_without_focus_is_ignored() {
    let (mut content, mut state) = setup(vec![0u8; 256]);
    let status = press(&mut content, &mut state, Key::Character('1'));
    assert_eq!(status, Status::Ignored);
    assert!(state.addr_input.value.is_empty());
    assert!(state.byte_input.value.is_empty());
}
