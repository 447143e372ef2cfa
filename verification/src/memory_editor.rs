//! The widget's layout and update hooks: geometry recomputation, the
//! hit-testing of pointer presses, the keyboard state machine of the two
//! inline inputs, wheel scrolling and the data-window fetches.

use vstd::prelude::*;

use crate::context::Action;
use crate::context::Content;
use crate::context::MemoryEditorContext;
use crate::context::window_ok;
use crate::context::write_transition;
use crate::geometry::MAX_CHAR_SIZE;
use crate::geometry::Position;
use crate::geometry::Rect;
use crate::geometry::contains_spec;
use crate::geometry::viewport_wf;
use crate::options::MemoryEditorOptions;
use crate::options::decreased_row_length;
use crate::options::decreased_row_length_spec;
use crate::options::increased_row_length;
use crate::options::increased_row_length_spec;
use crate::options::next_format_spec;
use crate::options::previous_format_spec;
use crate::state::BoundsState;
use crate::state::DimensionsState;
use crate::state::State;
use crate::state::bounds_spec;
use crate::state::jumpto_label;
use crate::state::sub_clamp;
use crate::state::value_label;
use crate::text::hex_seq_value;
use crate::text::hex_upper6;
use crate::text::is_hex_digit;
use crate::text::hex_digit;
use crate::text::parse_hex;
use crate::text::lemma_hex_seq_value_bound;
use crate::text::lemma_hex6_upper_len;
use crate::text::pow16;
use vstd::arithmetic::div_mod::lemma_fundamental_div_mod;
use vstd::arithmetic::div_mod::lemma_fundamental_div_mod_converse;

verus! {

/// A key press the widget reacts to while one of its inline inputs has
/// focus.
#[derive(Clone, Copy, Debug, PartialEq, Eq, Structural)]
pub enum Key {
    /// A printable character.
    Character(char),
    Backspace,
    Enter,
    Escape,
    /// Any other key.
    Other,
}

/// An input event handed to [`update`] by the host.
#[derive(Clone, Copy, Debug, PartialEq, Eq, Structural)]
pub enum Event {
    /// The left mouse button was pressed; `cursor` is the pointer position,
    /// absent when the pointer is not over the window.
    LeftButtonPressed { cursor: Option<Position> },
    /// A key was pressed.
    KeyPressed { key: Key },
    /// The vertical wheel moved by a whole number of lines (the host
    /// truncates fractional deltas).
    WheelScrolled { delta_lines: i64 },
    /// Any other event.
    Other,
}

/// Whether [`update`] consumed the event.
#[derive(Clone, Copy, Debug, PartialEq, Eq, Structural)]
pub enum Status {
    Captured,
    Ignored,
}

/// What [`update`] asks of the host after handling an event.
#[derive(Clone, Copy, Debug, PartialEq, Eq, Structural)]
pub struct UpdateResult {
    /// Whether the event was consumed (the host should redraw).
    pub status: Status,
    /// Whether cached layout became stale (the host should re-run
    /// [`layout`]).
    pub relayout: bool,
}

/// Rows that fit in a viewport: one row per character height, minus the
/// status bar row, minus four more while the options panel is open; zero
/// when the viewport is too small (or the metrics are not known yet).
pub open spec fn row_count_spec(viewport_height: int, char_height: int, options_open: bool) -> int {
    if char_height == 0 {
        0
    } else {
        sub_clamp(viewport_height / char_height, if options_open { 5int } else { 1int })
    }
}

/// The row under a pointer: vertical distance from the viewport top in
/// character heights, clamped to the first row above the viewport.
pub open spec fn hit_row_index(p: Position, viewport: Rect, char_height: int) -> int {
    if p.y < viewport.y {
        0
    } else {
        (p.y - viewport.y) / char_height
    }
}

/// The pointer's horizontal offset into the data column.
pub open spec fn data_x(p: Position, viewport: Rect, d: DimensionsState) -> int {
    p.x - (viewport.x + d.section_data_start)
}

/// Inverts the per-byte cell layout: half a group spacing is added so that
/// cell boundaries fall halfway into the spacing, then the offset is
/// divided by the width one byte occupies on average (its cell plus its
/// share of the group spacing).
pub open spec fn byte_index_spec(x_in_data: int, d: DimensionsState) -> int {
    (x_in_data + d.group_spacing / 2) / (d.byte_width + d.group_spacing / 8)
}

/// The x offset, from the start of the data column, where byte `k` of a row
/// is drawn: `k` byte cells plus one group spacing per completed group.
pub open spec fn byte_cell_x(d: DimensionsState, k: int) -> int {
    k * d.byte_width + (k / 8) * d.group_spacing
}

/// The address a click at `p` selects, if any. A click misses when the
/// metrics are degenerate, below the last visible row, left of the data
/// column, right of the last byte cell, or past the end of the address
/// space.
pub open spec fn click_selects(
    p: Position,
    viewport: Rect,
    d: DimensionsState,
    row_length: u64,
    start: u64,
) -> Option<u64> {
    if d.char_height == 0 || d.char_width == 0 {
        Option::None
    } else {
        let row = hit_row_index(p, viewport, d.char_height as int);
        if row >= d.row_count {
            Option::None
        } else {
            let x = data_x(p, viewport, d);
            if x < 0 {
                Option::None
            } else {
                let b = byte_index_spec(x, d);
                if b >= row_length {
                    Option::None
                } else {
                    let a = start + row * row_length + b;
                    if a > u64::MAX {
                        Option::None
                    } else {
                        Option::Some(a as u64)
                    }
                }
            }
        }
    }
}

/// The start address after a wheel step: the line delta times the row
/// length, subtracted for an upward scroll and clamped at zero, added for a
/// downward scroll and clamped at the top of the address space.
pub open spec fn wheel_target(start: u64, delta_lines: i64, row_length: u64) -> u64 {
    let step = (if delta_lines >= 0 {
        delta_lines as int
    } else {
        -(delta_lines as int)
    }) * row_length;
    if delta_lines < 0 {
        if start >= step {
            (start - step) as u64
        } else {
            0
        }
    } else {
        if start + step <= u64::MAX {
            (start + step) as u64
        } else {
            u64::MAX
        }
    }
}

/// Fields of the state that a pointer press never changes.
pub open spec fn mouse_keep(s0: State, s1: State) -> bool {
    &&& s1.options_open == s0.options_open
    &&& s1.focused == s0.focused
    &&& s1.dimensions == s0.dimensions
    &&& s1.bounds == s0.bounds
    &&& s1.data == s0.data
    &&& s1.start_address == s0.start_address
    &&& s1.text.jumpto_text == s0.text.jumpto_text
    &&& s1.text.jumpto_len == s0.text.jumpto_len
}

/// Both inline inputs lost focus, their buffers untouched.
pub open spec fn defocused_inputs(s0: State, s1: State) -> bool {
    &&& s1.addr_input.value == s0.addr_input.value
    &&& s1.byte_input.value == s0.byte_input.value
    &&& !s1.addr_input.focused
    &&& !s1.byte_input.focused
}

/// The selection and its status-bar label are untouched.
pub open spec fn selection_keep(s0: State, s1: State) -> bool {
    &&& s1.selected_address == s0.selected_address
    &&& s1.text.value_text == s0.text.value_text
    &&& s1.text.value_len == s0.text.value_len
}

/// The selection outcome of a click that fell through to the data grid.
pub open spec fn selection_outcome(
    s0: State,
    s1: State,
    p: Position,
    viewport: Rect,
    row_length: u64,
) -> bool {
    match click_selects(p, viewport, s0.dimensions, row_length, s0.start_address) {
        Option::None => {
            &&& s1.selected_address is None
            &&& s1.text.value_text@ == Seq::<char>::empty()
            &&& s1.text.value_len == s0.text.value_len
        },
        Option::Some(a) => {
            &&& s1.selected_address == Option::Some(a)
            &&& s1.text.value_text@ == value_label(Option::Some(a))
            &&& s1.text.value_len == value_label(Option::Some(a)).len() * s0.dimensions.char_width
        },
    }
}

/// The current display options, read fresh from the backing context.
pub fn options<C: MemoryEditorContext>(content: &Content<C>) -> (r: MemoryEditorOptions)
    ensures
        r == content.internal.context.opts_spec(),
        r.wf(),
{
    content.internal.context.options()
}

/// Replaces the data window with a fresh fetch of the visible range
/// `[start_address, start_address + row_count * len)`.
pub fn update_data<C: MemoryEditorContext>(content: &Content<C>, state: &mut State, len: u64)
    requires
        old(state).wf(),
        len <= 1024,
    ensures
        *final(state) == (State { data: final(state).data, ..*old(state) }),
        window_ok(
            content.internal.context,
            old(state).start_address,
            final(state).data@,
        ),
        final(state).data@.len() <= old(state).dimensions.row_count * len,
        final(state).wf(),
{
    let rc = state.dimensions.row_count;
    proof {
        assert(rc * len <= 0x1_0000_0000u64 * 1024) by (nonlinear_arith)
            requires
                rc <= 0x1_0000_0000u64,
                len <= 1024,
        ;
    }
    let count = rc * len;
    let start = state.start_address;
    let end = start.saturating_add(count);
    let fetched = content.internal.context.data(start, end);
    state.data = fetched;
}

/// Writes one byte through the backing context.
pub fn write<C: MemoryEditorContext>(content: &mut Content<C>, addr: u64, data: u8)
    ensures
        write_transition(
            old(content).internal.context,
            final(content).internal.context,
            addr,
            data,
        ),
{
    content.internal.context.write(addr, data);
}

/// Pushes changed display options back to the backing context.
pub fn write_options<C: MemoryEditorContext>(content: &mut Content<C>, options: MemoryEditorOptions)
    requires
        options.wf(),
    ensures
        final(content).internal.context.opts_spec() == options,
        forall|a: int|
            final(content).internal.context.byte_at(a) == old(
                content,
            ).internal.context.byte_at(a),
        forall|a: int|
            final(content).internal.context.writable(a) == old(
                content,
            ).internal.context.writable(a),
{
    content.internal.context.write_options(options);
}

/// The layout hook: stores the character metrics the host measured,
/// derives the visible row count from the viewport height, and recomputes
/// every derived pixel offset for the current row length.
pub fn layout<C: MemoryEditorContext>(
    content: &Content<C>,
    state: &mut State,
    char_width: u64,
    char_height: u64,
    viewport: Rect,
)
    requires
        old(state).wf(),
        viewport_wf(viewport),
        char_width % 8 == 0,
        char_width <= MAX_CHAR_SIZE,
        char_height <= MAX_CHAR_SIZE,
    ensures
        final(state).dimensions.char_width == char_width,
        final(state).dimensions.char_height == char_height,
        final(state).dimensions.row_count == row_count_spec(
            viewport.height as int,
            char_height as int,
            old(state).options_open,
        ),
        crate::state::derived_dimensions_ok(
            final(state).dimensions,
            content.internal.context.opts_spec().row_length,
        ),
        final(state).text.jumpto_len == jumpto_label().len() * char_width,
        final(state).focused == old(state).focused,
        final(state).options_open == old(state).options_open,
        final(state).start_address == old(state).start_address,
        final(state).selected_address == old(state).selected_address,
        final(state).data == old(state).data,
        final(state).addr_input == old(state).addr_input,
        final(state).byte_input == old(state).byte_input,
        final(state).bounds == old(state).bounds,
        final(state).text.jumpto_text == old(state).text.jumpto_text,
        final(state).text.value_text == old(state).text.value_text,
        final(state).wf(),
{
    let opts = options(content);
    state.dimensions.char_height = char_height;
    let rc: u64 = if char_height == 0 {
        0
    } else {
        let rows = viewport.height / char_height;
        let reserved: u64 = if state.options_open {
            5
        } else {
            1
        };
        rows.saturating_sub(reserved)
    };
    state.dimensions.row_count = rc;
    state.dimensions.char_width = char_width;
    state.update_dimensions(opts.row_length);
}

/// Inverts the per-byte cell layout for a pointer offset into the data
/// column, recovering the byte index whose cell the offset falls in.
pub fn calculate_byte_index(x_in_data: u64, d: &DimensionsState) -> (r: u64)
    requires
        d.wf(),
        d.char_width >= 8,
        x_in_data <= i64::MAX,
    ensures
        r == byte_index_spec(x_in_data as int, *d),
{
    let total_x = x_in_data + d.group_spacing / 2;
    let byte_slot_width = d.byte_width + d.group_spacing / 8;
    total_x / byte_slot_width
}

/// Hit-test inverse of layout: for every byte index, the x coordinate at
/// the centre of that byte's rendered cell maps back to exactly that byte
/// index, across group boundaries.
pub proof fn lemma_hit_test_inverts_layout(d: DimensionsState, k: int)
    requires
        d.wf(),
        d.char_width >= 8,
        0 <= k,
    ensures
        byte_index_spec(byte_cell_x(d, k) + d.char_width, d) == k,
{
    let cw = d.char_width as int;
    let u = cw / 8;
    assert(cw == 8 * u);
    let bw = d.byte_width as int;
    assert(bw == 20 * u);
    lemma_fundamental_div_mod(k, 8);
    let g = k / 8;
    let rr = k % 8;
    let numerator = byte_cell_x(d, k) + cw + cw / 2;
    let divisor = bw + cw / 8;
    assert(divisor == 21 * u);
    assert(numerator == k * (20 * u) + g * (8 * u) + 8 * u + 4 * u);
    let rem = u * (12 - rr);
    assert(numerator == k * (21 * u) + rem) by (nonlinear_arith)
        requires
            numerator == k * (20 * u) + g * (8 * u) + 8 * u + 4 * u,
            rem == u * (12 - rr),
            k == 8 * g + rr,
    ;
    assert(0 <= rem < 21 * u) by (nonlinear_arith)
        requires
            rem == u * (12 - rr),
            0 <= rr < 8,
            u >= 1,
    ;
    lemma_fundamental_div_mod_converse(numerator, 21 * u, k, rem);
}

/// A click below the last visible row, or left of the data column, selects
/// nothing.
pub proof fn lemma_selection_clears_on_miss(
    p: Position,
    viewport: Rect,
    d: DimensionsState,
    row_length: u64,
    start: u64,
)
    requires
        hit_row_index(p, viewport, d.char_height as int) >= d.row_count || data_x(
            p,
            viewport,
            d,
        ) < 0,
    ensures
        click_selects(p, viewport, d, row_length, start) is None,
{
}

/// Wheel scrolling clamps at address zero: an upward step at least as
/// large as the start address lands exactly on zero, never wrapping.
pub proof fn lemma_wheel_scroll_clamps_at_zero(start: u64, delta_lines: i64, row_length: u64)
    requires
        delta_lines < 0,
        -(delta_lines as int) * row_length >= start,
    ensures
        wheel_target(start, delta_lines, row_length) == 0,
{
}

/// Both inline inputs are untouched: buffers and focus.
pub open spec fn inputs_keep(s0: State, s1: State) -> bool {
    &&& s1.addr_input == s0.addr_input
    &&& s1.byte_input == s0.byte_input
}

/// The bounds pass re-derived the status-bar selection label from the
/// selection that was current when the event arrived.
pub open spec fn label_refreshed(s0: State, s1: State) -> bool {
    &&& s1.text.value_text@ == value_label(s0.selected_address)
    &&& s1.text.value_len == value_label(s0.selected_address).len() * s0.dimensions.char_width
}

/// The context's memory and write permissions are untouched (its options
/// may differ).
pub open spec fn mem_keep<C: MemoryEditorContext>(c0: C, c1: C) -> bool {
    &&& forall|a: int| c1.byte_at(a) == c0.byte_at(a)
    &&& forall|a: int| c1.writable(a) == c0.writable(a)
}

/// The data window was fetched afresh from `c` at the state's current
/// start address, for `len` bytes per visible row.
pub open spec fn fetched_window<C: MemoryEditorContext>(c: C, s1: State, len: u64) -> bool {
    &&& window_ok(c, s1.start_address, s1.data@)
    &&& s1.data@.len() <= s1.dimensions.row_count * len
}

/// Resolves a left-button press: defocuses both inline inputs, then tests
/// the controls in priority order — options toggle, address input, byte
/// input (selection present and writable), the five panel controls while
/// the panel is open — and otherwise hit-tests the data grid, moving or
/// clearing the selection.
pub fn handle_mouse_interaction<C: MemoryEditorContext>(
    context: &C,
    state: &mut State,
    cursor: Option<Position>,
    viewport: Rect,
    options: &MemoryEditorOptions,
) -> (r: (bool, Option<Action>))
    requires
        old(state).wf(),
        viewport_wf(viewport),
        options.wf(),
    ensures
        final(state).wf(),
        mouse_keep(*old(state), *final(state)),
        ({
            let s0 = *old(state);
            let s1 = *final(state);
            match cursor {
                Option::None => {
                    &&& r.0 == false
                    &&& r.1 is None
                    &&& defocused_inputs(s0, s1)
                    &&& selection_keep(s0, s1)
                },
                Option::Some(p) => {
                    &&& r.0 == true
                    &&& if contains_spec(s0.bounds.options, p.x as int, p.y as int) {
                        &&& r.1 == Option::Some(Action::OptionsToggled)
                        &&& defocused_inputs(s0, s1)
                        &&& selection_keep(s0, s1)
                    } else if contains_spec(s0.bounds.addr_input, p.x as int, p.y as int) {
                        &&& r.1 is None
                        &&& s1.addr_input.focused
                        &&& s1.addr_input.value@ == Seq::<char>::empty()
                        &&& !s1.byte_input.focused
                        &&& s1.byte_input.value == s0.byte_input.value
                        &&& selection_keep(s0, s1)
                    } else if s0.selected_address matches Some(sel) && contains_spec(
                        s0.bounds.byte_input,
                        p.x as int,
                        p.y as int,
                    ) && context.writable(sel as int) {
                        &&& r.1 is None
                        &&& s1.byte_input.focused
                        &&& s1.byte_input.value@ == Seq::<char>::empty()
                        &&& !s1.addr_input.focused
                        &&& s1.addr_input.value == s0.addr_input.value
                        &&& selection_keep(s0, s1)
                    } else if s0.options_open && contains_spec(
                        s0.bounds.show_ascii_checkbox,
                        p.x as int,
                        p.y as int,
                    ) {
                        &&& r.1 == Option::Some(Action::ShowASCIIUpdate(!options.show_ascii))
                        &&& defocused_inputs(s0, s1)
                        &&& selection_keep(s0, s1)
                    } else if s0.options_open && contains_spec(
                        s0.bounds.prev_format,
                        p.x as int,
                        p.y as int,
                    ) {
                        &&& r.1 == Option::Some(
                            Action::PreviewFormatUpdate(
                                previous_format_spec(options.preview_data_format),
                            ),
                        )
                        &&& defocused_inputs(s0, s1)
                        &&& selection_keep(s0, s1)
                    } else if s0.options_open && contains_spec(
                        s0.bounds.next_format,
                        p.x as int,
                        p.y as int,
                    ) {
                        &&& r.1 == Option::Some(
                            Action::PreviewFormatUpdate(
                                next_format_spec(options.preview_data_format),
                            ),
                        )
                        &&& defocused_inputs(s0, s1)
                        &&& selection_keep(s0, s1)
                    } else if s0.options_open && contains_spec(
                        s0.bounds.prev_row_length,
                        p.x as int,
                        p.y as int,
                    ) {
                        &&& r.1 == Option::Some(
                            Action::RowLengthUpdate(decreased_row_length_spec(options.row_length)),
                        )
                        &&& defocused_inputs(s0, s1)
                        &&& selection_keep(s0, s1)
                    } else if s0.options_open && contains_spec(
                        s0.bounds.next_row_length,
                        p.x as int,
                        p.y as int,
                    ) {
                        &&& r.1 == Option::Some(
                            Action::RowLengthUpdate(increased_row_length_spec(options.row_length)),
                        )
                        &&& defocused_inputs(s0, s1)
                        &&& selection_keep(s0, s1)
                    } else {
                        &&& r.1 is None
                        &&& defocused_inputs(s0, s1)
                        &&& selection_outcome(s0, s1, p, viewport, options.row_length)
                    }
                },
            }
        }),
{
    if state.addr_input.focused {
        state.addr_input.focused = false;
    }
    if state.byte_input.focused {
        state.byte_input.focused = false;
    }

    let p = match cursor {
        None => {
            return (false, None);
        },
        Some(p) => p,
    };

    if state.bounds.options.contains(p) {
        return (true, Some(Action::OptionsToggled));
    }

    if state.bounds.addr_input.contains(p) {
        state.addr_input.focused = true;
        state.addr_input.value = Vec::new();
        return (true, None);
    }

    let mut byte_edit_hit = false;
    match state.selected_address {
        Some(selected_addr) => {
            if state.bounds.byte_input.contains(p) && context.can_write(selected_addr) {
                byte_edit_hit = true;
            }
        },
        None => {},
    }
    if byte_edit_hit {
        state.byte_input.focused = true;
        state.byte_input.value = Vec::new();
        return (true, None);
    }

    if state.options_open {
        if state.bounds.show_ascii_checkbox.contains(p) {
            return (true, Some(Action::ShowASCIIUpdate(!options.show_ascii)));
        }
        if state.bounds.prev_format.contains(p) {
            return (true, Some(Action::PreviewFormatUpdate(options.previous_data_format())));
        }
        if state.bounds.next_format.contains(p) {
            return (true, Some(Action::PreviewFormatUpdate(options.next_data_format())));
        }
        if state.bounds.prev_row_length.contains(p) {
            return (
                true,
                Some(Action::RowLengthUpdate(decreased_row_length(options.row_length))),
            );
        }
        if state.bounds.next_row_length.contains(p) {
            return (
                true,
                Some(Action::RowLengthUpdate(increased_row_length(options.row_length))),
            );
        }
    }

    let ch = state.dimensions.char_height;
    let cw = state.dimensions.char_width;
    if ch == 0 || cw == 0 {
        state.selected_address = None;
        state.text.value_text = Vec::new();
        return (true, None);
    }

    let vy = viewport.y as i64;
    let row_index: u64 = if p.y < vy {
        0
    } else {
        ((p.y - vy) as u64) / ch
    };
    if row_index >= state.dimensions.row_count {
        state.selected_address = None;
        state.text.value_text = Vec::new();
        return (true, None);
    }

    let data_start_abs = (viewport.x + state.dimensions.section_data_start) as i64;
    if p.x < data_start_abs {
        state.selected_address = None;
        state.text.value_text = Vec::new();
        return (true, None);
    }
    let x_in_data = (p.x - data_start_abs) as u64;

    let byte_index = calculate_byte_index(x_in_data, &state.dimensions);
    if byte_index >= options.row_length {
        state.selected_address = None;
        state.text.value_text = Vec::new();
        return (true, None);
    }

    proof {
        assert(row_index * options.row_length <= 0x1_0000_0000u64 * 1024) by (nonlinear_arith)
            requires
                row_index < 0x1_0000_0000u64 + 1,
                options.row_length <= 1024,
        ;
    }
    let offset = row_index * options.row_length + byte_index;
    match state.start_address.checked_add(offset) {
        None => {
            state.selected_address = None;
            state.text.value_text = Vec::new();
            (true, None)
        },
        Some(clicked_address) => {
            state.selected_address = Some(clicked_address);
            let mut label = hex_upper6(clicked_address);
            label.push(' ');
            label.push('=');
            proof {
                lemma_hex6_upper_len(clicked_address as int);
                assert(label@ =~= value_label(Some(clicked_address)));
            }
            state.text.value_text = label;
            proof {
                assert(state.text.value_text@.len() * cw <= 24 * 0x100000) by (nonlinear_arith)
                    requires
                        state.text.value_text@.len() <= 24,
                        cw <= 0x100000,
                ;
            }
            state.text.value_len = (state.text.value_text.len() as u64) * cw;
            (true, None)
        },
    }
}

/// The update hook: recomputes the control rectangles, fetches the data
/// window when none is cached yet, and otherwise dispatches one input
/// event — a pointer press, a key press for whichever inline input has
/// focus, or a wheel step.
#[verifier::spinoff_prover]
#[verifier::rlimit(100)]
pub fn update<C: MemoryEditorContext>(
    content: &mut Content<C>,
    state: &mut State,
    event: Event,
    viewport: Rect,
) -> (r: UpdateResult)
    requires
        old(state).wf(),
        viewport_wf(viewport),
    ensures
        final(state).wf(),
        final(state).dimensions == old(state).dimensions,
        final(state).focused == old(state).focused,
        final(state).bounds == bounds_spec(
            viewport,
            old(state).dimensions,
            old(state).text.jumpto_len,
        ),
        final(state).text.jumpto_text == old(state).text.jumpto_text,
        final(state).text.jumpto_len == old(state).text.jumpto_len,
        // First update with no cached window: fetch it and stop.
        old(state).data@.len() == 0 ==> ({
            let s0 = *old(state);
            let s1 = *final(state);
            let c0 = old(content).internal.context;
            let c1 = final(content).internal.context;
            &&& c1 == c0
            &&& r.status == Status::Captured
            &&& !r.relayout
            &&& inputs_keep(s0, s1)
            &&& s1.selected_address == s0.selected_address
            &&& label_refreshed(s0, s1)
            &&& s1.options_open == s0.options_open
            &&& s1.start_address == s0.start_address
            &&& fetched_window(c0, s1, c0.opts_spec().row_length)
        }),
        // A pointer press: hit-test the controls and the grid, then apply
        // the action the hit asks for.
        old(state).data@.len() > 0 ==> (event matches (Event::LeftButtonPressed { cursor }) ==> ({
            let s0 = *old(state);
            let s1 = *final(state);
            let c0 = old(content).internal.context;
            let c1 = final(content).internal.context;
            let opts = c0.opts_spec();
            let bs = bounds_spec(viewport, s0.dimensions, s0.text.jumpto_len);
            match cursor {
                Option::None => {
                    &&& r.status == Status::Ignored
                    &&& !r.relayout
                    &&& c1 == c0
                    &&& defocused_inputs(s0, s1)
                    &&& s1.selected_address == s0.selected_address
                    &&& label_refreshed(s0, s1)
                    &&& s1.options_open == s0.options_open
                    &&& s1.start_address == s0.start_address
                    &&& s1.data == s0.data
                },
                Option::Some(p) => {
                    &&& r.status == Status::Captured
                    &&& if contains_spec(bs.options, p.x as int, p.y as int) {
                        &&& s1.options_open == !s0.options_open
                        &&& r.relayout
                        &&& c1 == c0
                        &&& defocused_inputs(s0, s1)
                        &&& s1.selected_address == s0.selected_address
                        &&& label_refreshed(s0, s1)
                        &&& s1.start_address == s0.start_address
                        &&& s1.data == s0.data
                    } else if contains_spec(bs.addr_input, p.x as int, p.y as int) {
                        &&& s1.addr_input.focused
                        &&& s1.addr_input.value@ == Seq::<char>::empty()
                        &&& !s1.byte_input.focused
                        &&& s1.byte_input.value == s0.byte_input.value
                        &&& !r.relayout
                        &&& c1 == c0
                        &&& s1.selected_address == s0.selected_address
                        &&& label_refreshed(s0, s1)
                        &&& s1.options_open == s0.options_open
                        &&& s1.start_address == s0.start_address
                        &&& s1.data == s0.data
                    } else if s0.selected_address matches Some(sel) && contains_spec(
                        bs.byte_input,
                        p.x as int,
                        p.y as int,
                    ) && c0.writable(sel as int) {
                        &&& s1.byte_input.focused
                        &&& s1.byte_input.value@ == Seq::<char>::empty()
                        &&& !s1.addr_input.focused
                        &&& s1.addr_input.value == s0.addr_input.value
                        &&& !r.relayout
                        &&& c1 == c0
                        &&& s1.selected_address == s0.selected_address
                        &&& label_refreshed(s0, s1)
                        &&& s1.options_open == s0.options_open
                        &&& s1.start_address == s0.start_address
                        &&& s1.data == s0.data
                    } else if s0.options_open && contains_spec(
                        bs.show_ascii_checkbox,
                        p.x as int,
                        p.y as int,
                    ) {
                        &&& c1.opts_spec() == (MemoryEditorOptions {
                            show_ascii: !opts.show_ascii,
                            ..opts
                        })
                        &&& mem_keep(c0, c1)
                        &&& r.relayout
                        &&& defocused_inputs(s0, s1)
                        &&& s1.selected_address == s0.selected_address
                        &&& label_refreshed(s0, s1)
                        &&& s1.options_open == s0.options_open
                        &&& s1.start_address == s0.start_address
                        &&& s1.data == s0.data
                    } else if s0.options_open && contains_spec(
                        bs.prev_format,
                        p.x as int,
                        p.y as int,
                    ) {
                        &&& c1.opts_spec() == (MemoryEditorOptions {
                            preview_data_format: previous_format_spec(opts.preview_data_format),
                            ..opts
                        })
                        &&& mem_keep(c0, c1)
                        &&& !r.relayout
                        &&& defocused_inputs(s0, s1)
                        &&& s1.selected_address == s0.selected_address
                        &&& label_refreshed(s0, s1)
                        &&& s1.options_open == s0.options_open
                        &&& s1.start_address == s0.start_address
                        &&& s1.data == s0.data
                    } else if s0.options_open && contains_spec(
                        bs.next_format,
                        p.x as int,
                        p.y as int,
                    ) {
                        &&& c1.opts_spec() == (MemoryEditorOptions {
                            preview_data_format: next_format_spec(opts.preview_data_format),
                            ..opts
                        })
                        &&& mem_keep(c0, c1)
                        &&& !r.relayout
                        &&& defocused_inputs(s0, s1)
                        &&& s1.selected_address == s0.selected_address
                        &&& label_refreshed(s0, s1)
                        &&& s1.options_open == s0.options_open
                        &&& s1.start_address == s0.start_address
                        &&& s1.data == s0.data
                    } else if s0.options_open && contains_spec(
                        bs.prev_row_length,
                        p.x as int,
                        p.y as int,
                    ) {
                        &&& c1.opts_spec() == (MemoryEditorOptions {
                            row_length: decreased_row_length_spec(opts.row_length),
                            ..opts
                        })
                        &&& mem_keep(c0, c1)
                        &&& r.relayout
                        &&& defocused_inputs(s0, s1)
                        &&& s1.selected_address == s0.selected_address
                        &&& label_refreshed(s0, s1)
                        &&& s1.options_open == s0.options_open
                        &&& s1.start_address == s0.start_address
                        &&& fetched_window(c1, s1, decreased_row_length_spec(opts.row_length))
                    } else if s0.options_open && contains_spec(
                        bs.next_row_length,
                        p.x as int,
                        p.y as int,
                    ) {
                        &&& c1.opts_spec() == (MemoryEditorOptions {
                            row_length: increased_row_length_spec(opts.row_length),
                            ..opts
                        })
                        &&& mem_keep(c0, c1)
                        &&& r.relayout
                        &&& defocused_inputs(s0, s1)
                        &&& s1.selected_address == s0.selected_address
                        &&& label_refreshed(s0, s1)
                        &&& s1.options_open == s0.options_open
                        &&& s1.start_address == s0.start_address
                        &&& fetched_window(c1, s1, increased_row_length_spec(opts.row_length))
                    } else {
                        &&& c1 == c0
                        &&& !r.relayout
                        &&& defocused_inputs(s0, s1)
                        &&& s1.options_open == s0.options_open
                        &&& s1.start_address == s0.start_address
                        &&& s1.data == s0.data
                        &&& s1.selected_address == click_selects(
                            p,
                            viewport,
                            s0.dimensions,
                            opts.row_length,
                            s0.start_address,
                        )
                        &&& match click_selects(
                            p,
                            viewport,
                            s0.dimensions,
                            opts.row_length,
                            s0.start_address,
                        ) {
                            Option::Some(a) => {
                                &&& s1.text.value_text@ == value_label(Option::Some(a))
                                &&& s1.text.value_len == value_label(Option::Some(a)).len()
                                    * s0.dimensions.char_width
                            },
                            Option::None => {
                                &&& s1.text.value_text@ == Seq::<char>::empty()
                                &&& s1.text.value_len == value_label(s0.selected_address).len()
                                    * s0.dimensions.char_width
                            },
                        }
                    }
                },
            }
        })),
        // A key press while the jump-to-address input has focus.
        old(state).data@.len() > 0 ==> (event matches (Event::KeyPressed { key }) ==> ({
            let s0 = *old(state);
            let s1 = *final(state);
            let c0 = old(content).internal.context;
            let c1 = final(content).internal.context;
            let opts = c0.opts_spec();
            s0.addr_input.focused ==> {
                &&& c1 == c0
                &&& !r.relayout
                &&& s1.selected_address == s0.selected_address
                &&& label_refreshed(s0, s1)
                &&& s1.options_open == s0.options_open
                &&& s1.byte_input == s0.byte_input
                &&& match key {
                    Key::Character(c) => {
                        &&& s1.start_address == s0.start_address
                        &&& s1.data == s0.data
                        &&& s1.addr_input.focused
                        &&& if s0.addr_input.value@.len() < 6 && is_hex_digit(c) {
                            &&& s1.addr_input.value@ == s0.addr_input.value@.push(c)
                            &&& r.status == Status::Captured
                        } else {
                            &&& s1.addr_input.value == s0.addr_input.value
                            &&& r.status == Status::Ignored
                        }
                    },
                    Key::Backspace => {
                        &&& s1.start_address == s0.start_address
                        &&& s1.data == s0.data
                        &&& s1.addr_input.focused
                        &&& s1.addr_input.value@ == s0.addr_input.value@.take(
                            if s0.addr_input.value@.len() > 0 {
                                s0.addr_input.value@.len() - 1
                            } else {
                                0
                            },
                        )
                        &&& r.status == Status::Captured
                    },
                    Key::Enter => {
                        &&& !s1.addr_input.focused
                        &&& r.status == Status::Captured
                        &&& if s0.addr_input.value@.len() > 0 {
                            &&& s1.start_address == hex_seq_value(s0.addr_input.value@)
                            &&& s1.addr_input.value@ == Seq::<char>::empty()
                            &&& fetched_window(c0, s1, opts.row_length)
                        } else {
                            &&& s1.start_address == s0.start_address
                            &&& s1.addr_input.value == s0.addr_input.value
                            &&& s1.data == s0.data
                        }
                    },
                    Key::Escape => {
                        &&& s1.start_address == s0.start_address
                        &&& s1.data == s0.data
                        &&& !s1.addr_input.focused
                        &&& s1.addr_input.value == s0.addr_input.value
                        &&& r.status == Status::Captured
                    },
                    Key::Other => {
                        &&& s1.start_address == s0.start_address
                        &&& s1.data == s0.data
                        &&& s1.addr_input == s0.addr_input
                        &&& r.status == Status::Ignored
                    },
                }
            }
        })),
        // A key press while the byte-edit input has focus.
        old(state).data@.len() > 0 ==> (event matches (Event::KeyPressed { key }) ==> ({
            let s0 = *old(state);
            let s1 = *final(state);
            let c0 = old(content).internal.context;
            let c1 = final(content).internal.context;
            let opts = c0.opts_spec();
            !s0.addr_input.focused && s0.byte_input.focused ==> {
                &&& !r.relayout
                &&& s1.selected_address == s0.selected_address
                &&& label_refreshed(s0, s1)
                &&& s1.options_open == s0.options_open
                &&& s1.addr_input == s0.addr_input
                &&& s1.start_address == s0.start_address
                &&& match key {
                    Key::Character(c) => {
                        &&& c1 == c0
                        &&& s1.data == s0.data
                        &&& s1.byte_input.focused
                        &&& if s0.byte_input.value@.len() < 2 && is_hex_digit(c) {
                            &&& s1.byte_input.value@ == s0.byte_input.value@.push(c)
                            &&& r.status == Status::Captured
                        } else {
                            &&& s1.byte_input.value == s0.byte_input.value
                            &&& r.status == Status::Ignored
                        }
                    },
                    Key::Backspace => {
                        &&& c1 == c0
                        &&& s1.data == s0.data
                        &&& s1.byte_input.focused
                        &&& s1.byte_input.value@ == s0.byte_input.value@.take(
                            if s0.byte_input.value@.len() > 0 {
                                s0.byte_input.value@.len() - 1
                            } else {
                                0
                            },
                        )
                        &&& r.status == Status::Captured
                    },
                    Key::Enter => {
                        &&& !s1.byte_input.focused
                        &&& r.status == Status::Captured
                        &&& match s0.selected_address {
                            Option::Some(sel) => if s0.byte_input.value@.len() > 0 {
                                &&& write_transition(
                                    c0,
                                    c1,
                                    sel,
                                    hex_seq_value(s0.byte_input.value@) as u8,
                                )
                                &&& s1.byte_input.value@ == Seq::<char>::empty()
                                &&& fetched_window(c1, s1, opts.row_length)
                            } else {
                                &&& c1 == c0
                                &&& s1.byte_input.value == s0.byte_input.value
                                &&& s1.data == s0.data
                            },
                            Option::None => {
                                &&& c1 == c0
                                &&& s1.byte_input.value == s0.byte_input.value
                                &&& s1.data == s0.data
                            },
                        }
                    },
                    Key::Escape => {
                        &&& c1 == c0
                        &&& s1.data == s0.data
                        &&& !s1.byte_input.focused
                        &&& s1.byte_input.value == s0.byte_input.value
                        &&& r.status == Status::Captured
                    },
                    Key::Other => {
                        &&& c1 == c0
                        &&& s1.data == s0.data
                        &&& s1.byte_input == s0.byte_input
                        &&& r.status == Status::Ignored
                    },
                }
            }
        })),
        // A wheel step scrolls the window, clamped at both ends of the
        // address space, and refetches; the selection stays.
        old(state).data@.len() > 0 ==> (event matches (Event::WheelScrolled { delta_lines }) ==> ({
            let s0 = *old(state);
            let s1 = *final(state);
            let c0 = old(content).internal.context;
            let c1 = final(content).internal.context;
            let opts = c0.opts_spec();
            &&& c1 == c0
            &&& r.status == Status::Captured
            &&& !r.relayout
            &&& inputs_keep(s0, s1)
            &&& s1.selected_address == s0.selected_address
            &&& label_refreshed(s0, s1)
            &&& s1.options_open == s0.options_open
            &&& s1.start_address == wheel_target(
                s0.start_address,
                delta_lines,
                opts.row_length,
            )
            &&& fetched_window(c0, s1, opts.row_length)
        })),
        // A key press while neither input has focus, or any other event,
        // changes nothing.
        old(state).data@.len() > 0 && ((event is KeyPressed && !old(state).addr_input.focused
            && !old(state).byte_input.focused) || event == Event::Other) ==> ({
            let s0 = *old(state);
            let s1 = *final(state);
            let c0 = old(content).internal.context;
            let c1 = final(content).internal.context;
            &&& c1 == c0
            &&& r.status == Status::Ignored
            &&& !r.relayout
            &&& inputs_keep(s0, s1)
            &&& s1.selected_address == s0.selected_address
            &&& label_refreshed(s0, s1)
            &&& s1.options_open == s0.options_open
            &&& s1.start_address == s0.start_address
            &&& s1.data == s0.data
        }),
{
    let opts = options(content);
    state.update_bounds(viewport);

    if state.data.len() == 0 {
        update_data(content, state, opts.row_length);
        return UpdateResult { status: Status::Captured, relayout: false };
    }

    match event {
        Event::LeftButtonPressed { cursor } => {
            let (handled, message) = handle_mouse_interaction(
                &content.internal.context,
                state,
                cursor,
                viewport,
                &opts,
            );
            if handled {
                let mut relayout = false;
                match message {
                    Some(Action::OptionsToggled) => {
                        state.options_open = !state.options_open;
                        relayout = true;
                    },
                    Some(Action::RowLengthUpdate(len)) => {
                        write_options(
                            content,
                            MemoryEditorOptions {
                                row_length: len,
                                preview_data_format: opts.preview_data_format,
                                show_ascii: opts.show_ascii,
                            },
                        );
                        update_data(content, state, len);
                        relayout = true;
                    },
                    Some(Action::PreviewFormatUpdate(format)) => {
                        write_options(
                            content,
                            MemoryEditorOptions {
                                row_length: opts.row_length,
                                preview_data_format: format,
                                show_ascii: opts.show_ascii,
                            },
                        );
                    },
                    Some(Action::ShowASCIIUpdate(show)) => {
                        write_options(
                            content,
                            MemoryEditorOptions {
                                row_length: opts.row_length,
                                preview_data_format: opts.preview_data_format,
                                show_ascii: show,
                            },
                        );
                        relayout = true;
                    },
                    Some(Action::UpdateByte(_, _)) => {},
                    None => {},
                }
                UpdateResult { status: Status::Captured, relayout }
            } else {
                UpdateResult { status: Status::Ignored, relayout: false }
            }
        },
        Event::KeyPressed { key } => {
            if state.addr_input.focused {
                match key {
                    Key::Character(c) => {
                        if state.addr_input.value.len() < 6 && hex_digit(c) {
                            state.addr_input.value.push(c);
                            UpdateResult { status: Status::Captured, relayout: false }
                        } else {
                            UpdateResult { status: Status::Ignored, relayout: false }
                        }
                    },
                    Key::Backspace => {
                        state.addr_input.value.pop();
                        UpdateResult { status: Status::Captured, relayout: false }
                    },
                    Key::Enter => {
                        match parse_hex(&state.addr_input.value) {
                            Some(addr) => {
                                state.start_address = addr;
                                update_data(content, state, opts.row_length);
                                state.addr_input.value = Vec::new();
                            },
                            None => {},
                        }
                        state.addr_input.focused = false;
                        UpdateResult { status: Status::Captured, relayout: false }
                    },
                    Key::Escape => {
                        state.addr_input.focused = false;
                        UpdateResult { status: Status::Captured, relayout: false }
                    },
                    Key::Other => UpdateResult { status: Status::Ignored, relayout: false },
                }
            } else if state.byte_input.focused {
                match key {
                    Key::Character(c) => {
                        if state.byte_input.value.len() < 2 && hex_digit(c) {
                            state.byte_input.value.push(c);
                            UpdateResult { status: Status::Captured, relayout: false }
                        } else {
                            UpdateResult { status: Status::Ignored, relayout: false }
                        }
                    },
                    Key::Backspace => {
                        state.byte_input.value.pop();
                        UpdateResult { status: Status::Captured, relayout: false }
                    },
                    Key::Enter => {
                        let selected = state.selected_address;
                        match selected {
                            Some(selected_addr) => {
                                match parse_hex(&state.byte_input.value) {
                                    Some(byte) => {
                                        proof {
                                            lemma_hex_seq_value_bound(state.byte_input.value@);
                                            assert(pow16(2) == 256) by {
                                                reveal_with_fuel(pow16, 3);
                                            }
                                        }
                                        write(content, selected_addr, byte as u8);
                                        update_data(content, state, opts.row_length);
                                        state.byte_input.value = Vec::new();
                                    },
                                    None => {},
                                }
                            },
                            None => {},
                        }
                        state.byte_input.focused = false;
                        UpdateResult { status: Status::Captured, relayout: false }
                    },
                    Key::Escape => {
                        state.byte_input.focused = false;
                        UpdateResult { status: Status::Captured, relayout: false }
                    },
                    Key::Other => UpdateResult { status: Status::Ignored, relayout: false },
                }
            } else {
                UpdateResult { status: Status::Ignored, relayout: false }
            }
        },
        Event::WheelScrolled { delta_lines } => {
            let len = opts.row_length;
            let neg = delta_lines < 0;
            let mag: u64 = if delta_lines < 0 {
                ((-(delta_lines + 1)) as u64) + 1
            } else {
                delta_lines as u64
            };
            let step = match mag.checked_mul(len) {
                Some(s) => s,
                None => u64::MAX,
            };
            state.start_address = if neg {
                state.start_address.saturating_sub(step)
            } else {
                state.start_address.saturating_add(step)
            };
            update_data(content, state, len);
            UpdateResult { status: Status::Captured, relayout: false }
        },
        Event::Other => UpdateResult { status: Status::Ignored, relayout: false },
    }
}

} // verus!
