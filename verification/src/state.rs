//! The widget's retained per-instance state: view start address, selection,
//! the two inline input buffers, cached pixel geometry and the hit-test
//! rectangles of every interactive control.

use vstd::prelude::*;

use crate::geometry::MAX_CHAR_SIZE;
use crate::geometry::MAX_ROW_COUNT;
use crate::geometry::Rect;
use crate::geometry::SUBUNITS_PER_PIXEL;
use crate::geometry::viewport_wf;
use crate::options::ADDRESS_CHAR_LEN;
use crate::options::GROUP_CHAR_LEN;
use crate::options::MAX_ROW_LENGTH;
use crate::text::all_hex_digits;
use crate::text::hex6_upper;
use crate::text::hex_upper6;

verus! {

/// Width of the "Options" button label, in characters.
pub const OPTIONS_LABEL_LEN: u64 = 7;

/// Width of an options-panel row label, in subpixel units (120 pixels).
pub const PANEL_LABEL_WIDTH: u64 = 120 * SUBUNITS_PER_PIXEL;

/// The text of the "Jump to" label.
pub open spec fn jumpto_label() -> Seq<char> {
    seq!['J', 'u', 'm', 'p', ' ', 't', 'o']
}

/// The status-bar label shown for a selected address: its six-digit
/// uppercase hex rendering followed by " ="; empty while nothing is
/// selected.
pub open spec fn value_label(selected: Option<u64>) -> Seq<char> {
    match selected {
        Option::None => Seq::<char>::empty(),
        Option::Some(a) => hex6_upper(a as int) + seq![' ', '='],
    }
}

/// `x - y`, clamped at zero.
pub open spec fn sub_clamp(x: int, y: int) -> int {
    if x >= y {
        x - y
    } else {
        0
    }
}

/// Pixel geometry derived from the font metrics and the row length,
/// recomputed on every layout pass. All lengths are in subpixel units.
#[derive(Clone, Copy, Debug, PartialEq, Eq, Structural)]
pub struct DimensionsState {
    /// Height of one row of text.
    pub char_height: u64,
    /// Advance width of one monospace glyph; kept a multiple of 8 so every
    /// derived cell width is exact.
    pub char_width: u64,
    /// Width of one byte cell: 2.5 characters.
    pub byte_width: u64,
    /// Extra spacing after each 8-byte group: one character.
    pub group_spacing: u64,
    /// Spacing around a section separator: two characters.
    pub section_separator_spacing: u64,
    /// X offset, from the viewport's left edge, where the data column starts.
    pub section_data_start: u64,
    /// X offset where the ASCII column starts.
    pub section_ascii_start: u64,
    /// X offset of the address/data separator line.
    pub address_separator_x: u64,
    /// X offset of the data/ASCII separator line.
    pub ascii_separator_x: u64,
    /// Number of data rows that fit in the viewport.
    pub row_count: u64,
    /// Number of hex digits in an address label.
    pub address_char_len: u64,
    /// Number of bytes in a visually separated group.
    pub group_char_len: u64,
}

impl DimensionsState {
    /// The font-metric fields are in range; holds before the derived fields
    /// are recomputed.
    pub open spec fn base_wf(&self) -> bool {
        &&& self.address_char_len == ADDRESS_CHAR_LEN
        &&& self.group_char_len == GROUP_CHAR_LEN
        &&& self.char_width % 8 == 0
        &&& self.char_width <= MAX_CHAR_SIZE
        &&& self.char_height <= MAX_CHAR_SIZE
        &&& self.row_count <= MAX_ROW_COUNT
    }

    /// Full well-formedness: the derived fields agree with the character
    /// width they were computed from.
    pub open spec fn wf(&self) -> bool {
        &&& self.base_wf()
        &&& self.byte_width * 2 == self.char_width * 5
        &&& self.group_spacing == self.char_width
        &&& self.section_separator_spacing == 2 * self.char_width
        &&& self.section_data_start == 8 * self.char_width
        &&& self.address_separator_x == 7 * self.char_width
        &&& self.section_ascii_start <= 0x100_0000_0000
        &&& self.ascii_separator_x <= 0x100_0000_0000
    }
}

/// The hit-test rectangle of every interactive control, recomputed every
/// frame from the viewport and the dimensions.
#[derive(Clone, Copy, Debug, PartialEq, Eq, Structural)]
pub struct BoundsState {
    pub options: Rect,
    pub addr_input: Rect,
    pub byte_input: Rect,
    pub show_ascii_checkbox: Rect,
    pub prev_format: Rect,
    pub next_format: Rect,
    pub text_format: Rect,
    pub prev_row_length: Rect,
    pub next_row_length: Rect,
    pub text_row_length: Rect,
}

impl BoundsState {
    pub open spec fn wf(&self) -> bool {
        &&& self.options.wf()
        &&& self.addr_input.wf()
        &&& self.byte_input.wf()
        &&& self.show_ascii_checkbox.wf()
        &&& self.prev_format.wf()
        &&& self.next_format.wf()
        &&& self.text_format.wf()
        &&& self.prev_row_length.wf()
        &&& self.next_row_length.wf()
        &&& self.text_row_length.wf()
    }
}

/// One inline text input: its buffered text and whether it has focus.
pub struct InputState {
    /// The buffered characters; only ASCII hex digits are ever accepted.
    pub value: Vec<char>,
    pub focused: bool,
}

impl InputState {
    /// The buffer holds at most `cap` characters, all hex digits.
    pub open spec fn wf(&self, cap: int) -> bool {
        &&& self.value@.len() <= cap
        &&& all_hex_digits(self.value@)
    }
}

/// Cached label text for the status bar, with pre-measured widths.
pub struct TextState {
    /// The "Jump to" label.
    pub jumpto_text: Vec<char>,
    /// Its width: length times character width.
    pub jumpto_len: u64,
    /// The "<address> =" label for the selected byte; empty without a
    /// selection.
    pub value_text: Vec<char>,
    /// Its width: length times character width.
    pub value_len: u64,
}

impl TextState {
    pub open spec fn wf(&self) -> bool {
        &&& self.jumpto_text@ == jumpto_label()
        &&& self.value_text@.len() <= 24
        &&& self.jumpto_len <= 7 * MAX_CHAR_SIZE
        &&& self.value_len <= 24 * MAX_CHAR_SIZE
    }
}

/// The widget's only mutable persistent state, owned by the host for the
/// life of the widget instance.
pub struct State {
    /// Host-framework focus flag for the widget as a whole.
    pub focused: bool,
    /// Whether the options panel is open.
    pub options_open: bool,
    /// Address of the first visible byte.
    pub start_address: u64,
    /// The clicked byte's address, if any.
    pub selected_address: Option<u64>,
    /// The last-fetched byte window for the visible rows.
    pub data: Vec<u8>,
    pub dimensions: DimensionsState,
    /// The jump-to-address input.
    pub addr_input: InputState,
    /// The byte-edit input.
    pub byte_input: InputState,
    pub bounds: BoundsState,
    pub text: TextState,
}

impl State {
    /// The state invariant: geometry well formed, input buffers capped hex,
    /// at most one input focused.
    pub open spec fn wf(&self) -> bool {
        &&& self.dimensions.wf()
        &&& self.bounds.wf()
        &&& self.addr_input.wf(ADDRESS_CHAR_LEN as int)
        &&& self.byte_input.wf(2)
        &&& !(self.addr_input.focused && self.byte_input.focused)
        &&& self.text.wf()
    }

    /// Whether the widget holds the host framework's keyboard focus.
    pub fn is_focused(&self) -> (r: bool)
        ensures
            r == self.focused,
    {
        self.focused
    }

    /// Gives the widget the host framework's keyboard focus.
    pub fn focus(&mut self)
        ensures
            *final(self) == (State { focused: true, ..*old(self) }),
    {
        self.focused = true;
    }

    /// Takes the host framework's keyboard focus away.
    pub fn unfocus(&mut self)
        ensures
            *final(self) == (State { focused: false, ..*old(self) }),
    {
        self.focused = false;
    }
}

impl Default for State {
    /// The state a widget instance starts from: view at address zero, no
    /// selection, panel closed, both inputs empty and unfocused, all
    /// geometry zeroed until the first layout pass.
    fn default() -> (r: Self)
        ensures
            r.focused == false,
            r.options_open == false,
            r.start_address == 0,
            r.selected_address is None,
            r.data@ == Seq::<u8>::empty(),
            r.addr_input.value@ == Seq::<char>::empty(),
            r.addr_input.focused == false,
            r.byte_input.value@ == Seq::<char>::empty(),
            r.byte_input.focused == false,
            r.dimensions == (DimensionsState {
                char_height: 0,
                char_width: 0,
                byte_width: 0,
                group_spacing: 0,
                section_separator_spacing: 0,
                section_data_start: 0,
                section_ascii_start: 0,
                address_separator_x: 0,
                ascii_separator_x: 0,
                row_count: 0,
                address_char_len: ADDRESS_CHAR_LEN,
                group_char_len: GROUP_CHAR_LEN,
            }),
            r.bounds == (BoundsState {
                options: zero_rect(),
                addr_input: zero_rect(),
                byte_input: zero_rect(),
                show_ascii_checkbox: zero_rect(),
                prev_format: zero_rect(),
                next_format: zero_rect(),
                text_format: zero_rect(),
                prev_row_length: zero_rect(),
                next_row_length: zero_rect(),
                text_row_length: zero_rect(),
            }),
            r.text.jumpto_text@ == jumpto_label(),
            r.text.jumpto_len == 0,
            r.text.value_text@ == Seq::<char>::empty(),
            r.text.value_len == 0,
            r.wf(),
    {
        let jumpto: Vec<char> = vec!['J', 'u', 'm', 'p', ' ', 't', 'o'];
        proof {
            assert(jumpto@ =~= jumpto_label());
        }
        State {
            focused: false,
            options_open: false,
            start_address: 0,
            selected_address: None,
            data: Vec::new(),
            dimensions: DimensionsState {
                char_height: 0,
                char_width: 0,
                byte_width: 0,
                group_spacing: 0,
                section_separator_spacing: 0,
                section_data_start: 0,
                section_ascii_start: 0,
                address_separator_x: 0,
                ascii_separator_x: 0,
                row_count: 0,
                address_char_len: ADDRESS_CHAR_LEN,
                group_char_len: GROUP_CHAR_LEN,
            },
            addr_input: InputState { value: Vec::new(), focused: false },
            byte_input: InputState { value: Vec::new(), focused: false },
            bounds: BoundsState {
                options: Rect { x: 0, y: 0, width: 0, height: 0 },
                addr_input: Rect { x: 0, y: 0, width: 0, height: 0 },
                byte_input: Rect { x: 0, y: 0, width: 0, height: 0 },
                show_ascii_checkbox: Rect { x: 0, y: 0, width: 0, height: 0 },
                prev_format: Rect { x: 0, y: 0, width: 0, height: 0 },
                next_format: Rect { x: 0, y: 0, width: 0, height: 0 },
                text_format: Rect { x: 0, y: 0, width: 0, height: 0 },
                prev_row_length: Rect { x: 0, y: 0, width: 0, height: 0 },
                next_row_length: Rect { x: 0, y: 0, width: 0, height: 0 },
                text_row_length: Rect { x: 0, y: 0, width: 0, height: 0 },
            },
            text: TextState { jumpto_text: jumpto, jumpto_len: 0, value_text: Vec::new(), value_len: 0 },
        }
    }
}

/// The all-zero rectangle.
pub open spec fn zero_rect() -> Rect {
    Rect { x: 0, y: 0, width: 0, height: 0 }
}

/// The bottom edge of the viewport.
pub open spec fn bottom_edge(v: Rect) -> int {
    v.y + v.height
}

/// The "Options" button rectangle: bottom-left corner of the viewport, one
/// status bar (1.5 character heights) tall.
pub open spec fn options_rect(v: Rect, d: DimensionsState) -> Rect {
    Rect {
        x: v.x,
        y: sub_clamp(bottom_edge(v), 3 * d.char_height / 2) as u64,
        width: (OPTIONS_LABEL_LEN * d.char_width) as u64,
        height: (3 * d.char_height / 2) as u64,
    }
}

/// Width of the address-jump input box.
pub open spec fn addr_input_width(d: DimensionsState) -> int {
    (d.char_width + SUBUNITS_PER_PIXEL) * 66 / 10
}

/// Width of the byte-edit input box.
pub open spec fn byte_input_width(d: DimensionsState) -> int {
    (d.char_width + SUBUNITS_PER_PIXEL) * 44 / 10
}

/// Horizontal spacing that centres the two status-bar inputs in the space
/// right of the "Options" button.
pub open spec fn input_spacing(v: Rect, d: DimensionsState) -> int {
    sub_clamp(
        sub_clamp(v.width as int, OPTIONS_LABEL_LEN * d.char_width),
        addr_input_width(d) + byte_input_width(d),
    ) / 3
}

/// Left edge of the address-jump input box: one spacing, then the "Jump to"
/// label, then one character of padding.
pub open spec fn addr_input_x(v: Rect, d: DimensionsState, jumpto_len: u64) -> int {
    v.x + input_spacing(v, d) + jumpto_len + d.char_width
}

/// The address-jump input rectangle.
pub open spec fn addr_input_rect(v: Rect, d: DimensionsState, jumpto_len: u64) -> Rect {
    Rect {
        x: addr_input_x(v, d, jumpto_len) as u64,
        y: sub_clamp(bottom_edge(v), 13 * d.char_height / 10) as u64,
        width: addr_input_width(d) as u64,
        height: (11 * d.char_height / 10) as u64,
    }
}

/// The byte-edit input rectangle: one input width and one more spacing
/// right of the address-jump input.
pub open spec fn byte_input_rect(v: Rect, d: DimensionsState, jumpto_len: u64) -> Rect {
    Rect {
        x: (addr_input_x(v, d, jumpto_len) + addr_input_width(d) + input_spacing(v, d)) as u64,
        y: sub_clamp(bottom_edge(v), 13 * d.char_height / 10) as u64,
        width: byte_input_width(d) as u64,
        height: (11 * d.char_height / 10) as u64,
    }
}

/// The options panel rectangle: four character heights, sitting directly
/// above the status bar.
pub open spec fn panel_rect(v: Rect, d: DimensionsState) -> Rect {
    Rect {
        x: (v.x + d.char_width / 2) as u64,
        y: sub_clamp(bottom_edge(v), 3 * d.char_height / 2 + 4 * d.char_height) as u64,
        width: sub_clamp(v.width as int, d.char_width as int) as u64,
        height: (4 * d.char_height) as u64,
    }
}

/// Left edge of the options-panel control column: panel edge, one character
/// of padding, then the row label.
pub open spec fn panel_base_x(v: Rect, d: DimensionsState) -> int {
    panel_rect(v, d).x + d.char_width + PANEL_LABEL_WIDTH
}

/// Top edge of the first options-panel row.
pub open spec fn panel_offset_y(v: Rect, d: DimensionsState) -> int {
    panel_rect(v, d).y + d.char_height / 2
}

/// The ASCII-column checkbox rectangle, on the third options-panel row.
pub open spec fn show_ascii_checkbox_rect(v: Rect, d: DimensionsState) -> Rect {
    Rect {
        x: (panel_base_x(v, d) + 3 * d.char_width) as u64,
        y: (panel_offset_y(v, d) + 2 * d.char_height) as u64,
        width: (4 * d.char_height / 5) as u64,
        height: (4 * d.char_height / 5) as u64,
    }
}

/// The format-stepper "previous" button, on the second options-panel row.
pub open spec fn prev_format_rect(v: Rect, d: DimensionsState) -> Rect {
    Rect {
        x: panel_base_x(v, d) as u64,
        y: (panel_offset_y(v, d) + d.char_height) as u64,
        width: d.char_width,
        height: d.char_height,
    }
}

/// The format-stepper "next" button.
pub open spec fn next_format_rect(v: Rect, d: DimensionsState) -> Rect {
    Rect {
        x: (panel_base_x(v, d) + 6 * d.char_width) as u64,
        y: (panel_offset_y(v, d) + d.char_height) as u64,
        width: d.char_width,
        height: d.char_height,
    }
}

/// The format-stepper value box.
pub open spec fn text_format_rect(v: Rect, d: DimensionsState) -> Rect {
    Rect {
        x: (panel_base_x(v, d) + 2 * d.char_width) as u64,
        y: (panel_offset_y(v, d) + d.char_height) as u64,
        width: (3 * d.char_width) as u64,
        height: d.char_height,
    }
}

/// The row-length-stepper "previous" button, on the first options-panel row.
pub open spec fn prev_row_length_rect(v: Rect, d: DimensionsState) -> Rect {
    Rect {
        x: panel_base_x(v, d) as u64,
        y: panel_offset_y(v, d) as u64,
        width: d.char_width,
        height: d.char_height,
    }
}

/// The row-length-stepper "next" button.
pub open spec fn next_row_length_rect(v: Rect, d: DimensionsState) -> Rect {
    Rect {
        x: (panel_base_x(v, d) + 6 * d.char_width) as u64,
        y: panel_offset_y(v, d) as u64,
        width: d.char_width,
        height: d.char_height,
    }
}

/// The row-length-stepper value box.
pub open spec fn text_row_length_rect(v: Rect, d: DimensionsState) -> Rect {
    Rect {
        x: (panel_base_x(v, d) + 2 * d.char_width) as u64,
        y: panel_offset_y(v, d) as u64,
        width: (3 * d.char_width) as u64,
        height: d.char_height,
    }
}

/// The derived pixel offsets agree with the character width and the row
/// length they were computed from: one byte cell is 2.5 characters, groups
/// are spaced one character apart, the data column starts after the
/// six-character address label and a two-character separator, and the
/// ASCII column follows the full row of byte cells.
pub open spec fn derived_dimensions_ok(d: DimensionsState, row_length: u64) -> bool {
    &&& d.byte_width == 5 * d.char_width / 2
    &&& d.group_spacing == d.char_width
    &&& d.section_separator_spacing == 2 * d.char_width
    &&& d.section_data_start == 8 * d.char_width
    &&& d.section_ascii_start == 8 * d.char_width + (5 * d.char_width / 2) * row_length + (
    row_length / 8 - 1) * d.char_width + 2 * d.char_width
    &&& d.address_separator_x == 7 * d.char_width
    &&& d.ascii_separator_x == d.section_ascii_start - d.char_width
}

/// All ten control rectangles for a viewport and dimensions.
pub open spec fn bounds_spec(v: Rect, d: DimensionsState, jumpto_len: u64) -> BoundsState {
    BoundsState {
        options: options_rect(v, d),
        addr_input: addr_input_rect(v, d, jumpto_len),
        byte_input: byte_input_rect(v, d, jumpto_len),
        show_ascii_checkbox: show_ascii_checkbox_rect(v, d),
        prev_format: prev_format_rect(v, d),
        next_format: next_format_rect(v, d),
        text_format: text_format_rect(v, d),
        prev_row_length: prev_row_length_rect(v, d),
        next_row_length: next_row_length_rect(v, d),
        text_row_length: text_row_length_rect(v, d),
    }
}

impl State {
    /// Recomputes the derived pixel offsets from the character metrics and
    /// the row length, and re-measures the cached status-bar labels.
    /// Invoked on every layout pass.
    #[verifier::spinoff_prover]
    #[verifier::rlimit(100)]
    pub fn update_dimensions(&mut self, row_length: u64)
        requires
            old(self).dimensions.base_wf(),
            old(self).text.wf(),
            8 <= row_length <= MAX_ROW_LENGTH,
            row_length % 8 == 0,
        ensures
            final(self).dimensions.char_height == old(self).dimensions.char_height,
            final(self).dimensions.char_width == old(self).dimensions.char_width,
            final(self).dimensions.row_count == old(self).dimensions.row_count,
            final(self).dimensions.address_char_len == old(self).dimensions.address_char_len,
            final(self).dimensions.group_char_len == old(self).dimensions.group_char_len,
            derived_dimensions_ok(final(self).dimensions, row_length),
            final(self).dimensions.wf(),
            final(self).text.wf(),
            final(self).text.jumpto_text == old(self).text.jumpto_text,
            final(self).text.value_text == old(self).text.value_text,
            final(self).text.jumpto_len == old(self).text.jumpto_text@.len() * old(
                self,
            ).dimensions.char_width,
            final(self).text.value_len == old(self).text.value_text@.len() * old(
                self,
            ).dimensions.char_width,
            final(self).focused == old(self).focused,
            final(self).options_open == old(self).options_open,
            final(self).start_address == old(self).start_address,
            final(self).selected_address == old(self).selected_address,
            final(self).data == old(self).data,
            final(self).addr_input.value == old(self).addr_input.value,
            final(self).addr_input.focused == old(self).addr_input.focused,
            final(self).byte_input.value == old(self).byte_input.value,
            final(self).byte_input.focused == old(self).byte_input.focused,
            final(self).bounds == old(self).bounds,
    {
        let cw = self.dimensions.char_width;
        self.dimensions.byte_width = cw * 5 / 2;
        self.dimensions.group_spacing = cw;
        self.dimensions.section_separator_spacing = cw * 2;
        proof {
            assert(cw * self.dimensions.address_char_len <= 6 * 0x100000) by (nonlinear_arith)
                requires
                    self.dimensions.address_char_len == 6,
                    cw <= 0x100000,
            ;
        }
        self.dimensions.section_data_start = cw * self.dimensions.address_char_len
            + self.dimensions.section_separator_spacing;
        proof {
            assert(self.dimensions.byte_width * row_length <= 0x280000 * 1024)
                by (nonlinear_arith)
                requires
                    self.dimensions.byte_width <= 0x280000,
                    row_length <= 1024,
            ;
            assert((row_length / 8 - 1) * self.dimensions.group_spacing <= 127 * 0x100000)
                by (nonlinear_arith)
                requires
                    8 <= row_length <= 1024,
                    self.dimensions.group_spacing <= 0x100000,
            ;
        }
        proof {
            assert(cw * self.dimensions.address_char_len == 6 * cw) by (nonlinear_arith)
                requires
                    self.dimensions.address_char_len == 6,
            ;
        }
        self.dimensions.section_ascii_start = self.dimensions.section_data_start
            + self.dimensions.byte_width * row_length + (row_length / self.dimensions.group_char_len
            - 1) * self.dimensions.group_spacing + self.dimensions.section_separator_spacing;
        self.dimensions.address_separator_x = self.dimensions.section_data_start
            - self.dimensions.section_separator_spacing / 2;
        self.dimensions.ascii_separator_x = self.dimensions.section_ascii_start
            - self.dimensions.section_separator_spacing / 2;
        proof {
            assert(self.text.jumpto_text@.len() * cw <= 7 * 0x100000) by (nonlinear_arith)
                requires
                    self.text.jumpto_text@.len() == 7,
                    cw <= 0x100000,
            ;
        }
        self.text.jumpto_len = (self.text.jumpto_text.len() as u64) * cw;
        proof {
            assert(self.text.value_text@.len() * cw <= 24 * 0x100000) by (nonlinear_arith)
                requires
                    self.text.value_text@.len() <= 24,
                    cw <= 0x100000,
            ;
        }
        self.text.value_len = (self.text.value_text.len() as u64) * cw;
    }

    /// Recomputes every control rectangle for the given viewport, and the
    /// cached "<address> =" label for the current selection. Invoked at the
    /// start of every update pass.
    pub fn update_bounds(&mut self, viewport: Rect)
        requires
            old(self).wf(),
            viewport_wf(viewport),
        ensures
            final(self).bounds == bounds_spec(
                viewport,
                old(self).dimensions,
                old(self).text.jumpto_len,
            ),
            final(self).text.value_text@ == value_label(old(self).selected_address),
            final(self).text.value_len == final(self).text.value_text@.len() * old(
                self,
            ).dimensions.char_width,
            final(self).text.jumpto_text == old(self).text.jumpto_text,
            final(self).text.jumpto_len == old(self).text.jumpto_len,
            final(self).dimensions == old(self).dimensions,
            final(self).focused == old(self).focused,
            final(self).options_open == old(self).options_open,
            final(self).start_address == old(self).start_address,
            final(self).selected_address == old(self).selected_address,
            final(self).data == old(self).data,
            final(self).addr_input.value == old(self).addr_input.value,
            final(self).addr_input.focused == old(self).addr_input.focused,
            final(self).byte_input.value == old(self).byte_input.value,
            final(self).byte_input.focused == old(self).byte_input.focused,
            final(self).wf(),
    {
        let cw = self.dimensions.char_width;
        let ch = self.dimensions.char_height;
        let bottom = viewport.y + viewport.height;

        let options_width = OPTIONS_LABEL_LEN * cw;
        let bar_height = 3 * ch / 2;
        self.bounds.options = Rect {
            x: viewport.x,
            y: bottom.saturating_sub(bar_height),
            width: options_width,
            height: bar_height,
        };

        let input_width = (cw + SUBUNITS_PER_PIXEL) * 66 / 10;
        let byte_in_width = (cw + SUBUNITS_PER_PIXEL) * 44 / 10;
        let available_width = viewport.width.saturating_sub(options_width);
        let spacing = available_width.saturating_sub(input_width + byte_in_width) / 3;

        let input_x = viewport.x + spacing + self.text.jumpto_len + cw;
        let input_y = bottom.saturating_sub(13 * ch / 10);
        let input_height = 11 * ch / 10;
        self.bounds.addr_input = Rect {
            x: input_x,
            y: input_y,
            width: input_width,
            height: input_height,
        };

        let value_x = input_x + input_width + spacing;
        self.bounds.byte_input = Rect {
            x: value_x,
            y: input_y,
            width: byte_in_width,
            height: input_height,
        };

        match self.selected_address {
            Some(addr) => {
                let mut label = hex_upper6(addr);
                label.push(' ');
                label.push('=');
                proof {
                    crate::text::lemma_hex6_upper_len(addr as int);
                    assert(label@ =~= value_label(Some(addr)));
                }
                self.text.value_text = label;
            },
            None => {
                self.text.value_text = Vec::new();
                proof {
                    assert(self.text.value_text@ =~= value_label(
                        old(self).selected_address,
                    ));
                }
            },
        }
        proof {
            assert(self.text.value_text@.len() * cw <= 24 * 0x100000) by (nonlinear_arith)
                requires
                    self.text.value_text@.len() <= 24,
                    cw <= 0x100000,
            ;
        }
        self.text.value_len = (self.text.value_text.len() as u64) * cw;

        let panel_x = viewport.x + cw / 2;
        let panel_y = bottom.saturating_sub(3 * ch / 2 + 4 * ch);
        let offset_y = panel_y + ch / 2;
        let checkbox_size = 4 * ch / 5;
        let base_x = panel_x + cw + PANEL_LABEL_WIDTH;

        self.bounds.show_ascii_checkbox = Rect {
            x: base_x + 3 * cw,
            y: offset_y + 2 * ch,
            width: checkbox_size,
            height: checkbox_size,
        };
        self.bounds.text_format = Rect {
            x: base_x + 2 * cw,
            y: offset_y + ch,
            width: 3 * cw,
            height: ch,
        };
        self.bounds.prev_format = Rect { x: base_x, y: offset_y + ch, width: cw, height: ch };
        self.bounds.next_format = Rect {
            x: base_x + 6 * cw,
            y: offset_y + ch,
            width: cw,
            height: ch,
        };
        self.bounds.prev_row_length = Rect { x: base_x, y: offset_y, width: cw, height: ch };
        self.bounds.next_row_length = Rect {
            x: base_x + 6 * cw,
            y: offset_y,
            width: cw,
            height: ch,
        };
        self.bounds.text_row_length = Rect {
            x: base_x + 2 * cw,
            y: offset_y,
            width: 3 * cw,
            height: ch,
        };
    }
}

} // verus!
