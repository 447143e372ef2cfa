use memory_editor::buffer::BufferContext;
use memory_editor::context::Content;
use memory_editor::geometry::Rect;
use memory_editor::memory_editor::Event;
use memory_editor::memory_editor::layout;
use memory_editor::memory_editor::update;
use memory_editor::options::MemoryEditorOptions;
use memory_editor::options::PreviewDataFormat;
use memory_editor::render::ColorRole;
use memory_editor::render::DrawCommand;
use memory_editor::render::PreviewValue;
use memory_editor::render::draw;
use memory_editor::state::State;

const CHAR_WIDTH: u64 = 512;
const CHAR_HEIGHT: u64 = 1024;

fn viewport() -> Rect {
    Rect { x: 0, y: 0, width: 51200, height: 38400 }
}

fn setup(bytes: Vec<u8>, show_ascii: bool) -> (Content<BufferContext>, State) {
    let context = BufferContext::new(
        bytes,
        MemoryEditorOptions {
            row_length: 16,
            preview_data_format: PreviewDataFormat::U8,
            show_ascii,
        },
    );
    let mut content = Content::new(context);
    let mut state = State::default();
    layout(&content, &mut state, CHAR_WIDTH, CHAR_HEIGHT, viewport());
    update(&mut content, &mut state, Event::Other, viewport());
    (content, state)
}

fn texts(commands: &[DrawCommand]) -> Vec<String> {
    let mut out = Vec::new();
    for c in commands {
        if let DrawCommand::Text { chars, .. } = c {
            out.push(chars.iter().collect::<String>());
        }
    }
    out
}

#[test]
fn first_command_is_the_background() {
    let (content, state) = setup(vec![0u8; 32], true);
    let commands = draw(&content, &state, viewport());
    match &commands[0] {
        DrawCommand::Quad { x, y, width, height, color } => {
            assert_eq!((*x, *y, *width, *height), (0, 0, 51200, 38400));
            assert_eq!(*color, ColorRole::Background);
        },
        other => panic!("expected the background quad, got {other:?}"),
    }
}

#[test]
fn separators_follow_the_ascii_toggle() {
    let (content, state) = setup(vec![0u8; 32], true);
    let commands = draw(&content, &state, viewport());
    let seps = commands
        .iter()
        .filter(|c| matches!(c, DrawCommand::Quad { width: 64, .. }))
        .count();
    assert_eq!(seps, 2);

    let (content, state) = setup(vec![0u8; 32], false);
    let commands = draw(&content, &state, viewport());
    let seps = commands
        .iter()
        .filter(|c| matches!(c, DrawCommand::Quad { width: 64, .. }))
        .count();
    assert_eq!(seps, 1);
}

#[test]
fn rows_carry_address_labels_and_byte_cells() {
    let (content, state) = setup(vec![0xAB; 32], true);
    let commands = draw(&content, &state, viewport());
    let all = texts(&commands);
    // 32 bytes fill two 16-byte rows
    assert!(all.contains(&"000000".to_string()));
    assert!(all.contains(&"000010".to_string()));
    assert!(!all.contains(&"000020".to_string()));
    assert_eq!(all.iter().filter(|t| t.as_str() == "ab").count(), 32);
}

#[test]
fn ascii_column_text_appears_only_when_enabled() {
    let bytes = b"Hello, world! xx".to_vec();
    let (content, state) = setup(bytes.clone(), true);
    let all = texts(&draw(&content, &state, viewport()));
    assert!(all.contains(&"Hello, world! xx".to_string()));

    let (content, state) = setup(bytes, false);
    let all = texts(&draw(&content, &state, viewport()));
    assert!(!all.contains(&"Hello, world! xx".to_string()));
}

#[test]
fn selection_paints_highlight_quads() {
    let (mut content, mut state) = setup(vec![0u8; 32], true);
    state.selected_address = Some(3);
    // refresh the cached label as an update pass would
    update(&mut content, &mut state, Event::Other, viewport());
    let commands = draw(&content, &state, viewport());
    let highlights = commands
        .iter()
        .filter(
            |c| matches!(c, DrawCommand::Quad { color: ColorRole::Selection, .. }),
        )
        .count();
    // one under the hex cell, one under the ASCII column
    assert_eq!(highlights, 2);
}

#[test]
fn status_bar_shows_labels_and_preview() {
    let (mut content, mut state) = setup(vec![0x2A; 32], true);
    state.selected_address = Some(1);
    update(&mut content, &mut state, Event::Other, viewport());
    let commands = draw(&content, &state, viewport());
    let all = texts(&commands);
    assert!(all.contains(&"Options".to_string()));
    assert!(all.contains(&"Jump to".to_string()));
    assert!(all.contains(&"000001 =".to_string()));
    let previews: Vec<&DrawCommand> = commands
        .iter()
        .filter(|c| matches!(c, DrawCommand::Preview { .. }))
        .collect();
    assert_eq!(previews.len(), 1);
    match previews[0] {
        DrawCommand::Preview { value, .. } => {
            assert_eq!(*value, PreviewValue::Unsigned(42));
        },
        _ => unreachable!(),
    }
}

#[test]
fn preview_errors_near_the_window_end() {
    let (mut content, mut state) = setup(vec![0u8; 32], true);
    // a U64 preview at the second-to-last byte cannot fill eight bytes
    state.selected_address = Some(31);
    update(&mut content, &mut state, Event::Other, viewport());
    let mut opts = memory_editor::memory_editor::options(&content);
    opts.preview_data_format = PreviewDataFormat::U64;
    memory_editor::memory_editor::write_options(&mut content, opts);
    let commands = draw(&content, &state, viewport());
    let preview = commands
        .iter()
        .find(|c| matches!(c, DrawCommand::Preview { .. }))
        .expect("a preview command");
    match preview {
        DrawCommand::Preview { value, .. } => assert_eq!(*value, PreviewValue::Error),
        _ => unreachable!(),
    }
}

#[test]
fn options_panel_is_drawn_only_when_open() {
    let (content, mut state) = setup(vec![0u8; 32], true);
    let all = texts(&draw(&content, &state, viewport()));
    assert!(!all.contains(&"Row length".to_string()));

    state.options_open = true;
    let all = texts(&draw(&content, &state, viewport()));
    assert!(all.contains(&"Row length".to_string()));
    assert!(all.contains(&"Preview data".to_string()));
    assert!(all.contains(&"Show ASCII".to_string()));
    assert!(all.contains(&"16".to_string()));
    assert!(all.contains(&"U8".to_string()));
}

#[test]
fn unwritable_selection_has_no_byte_input_box() {
    let (mut content, mut state) = setup(vec![0u8; 32], true);
    // selected, but outside the writable buffer
    state.selected_address = Some(1_000_000);
    update(&mut content, &mut state, Event::Other, viewport());
    let commands = draw(&content, &state, viewport());
    let label: String = state.text.value_text.iter().collect();
    assert_eq!(label, "0F4240 =");
    let all = texts(&commands);
    // the "<address> =" label is drawn only for writable selections
    assert!(!all.contains(&"0F4240 =".to_string()));
}
