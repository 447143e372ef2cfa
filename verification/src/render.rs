//! Rendering: pure functions that turn the state, the options and the data
//! window into a list of draw commands. A host shell executes the commands
//! against its real surface; it clips every command to the viewport, maps
//! each [`ColorRole`] to its theme, and renders [`PreviewValue`] numbers to
//! text (floating-point formatting is the host's, from the carried bits).

use vstd::prelude::*;

use crate::context::Content;
use crate::context::MemoryEditorContext;
use crate::geometry::Rect;
use crate::geometry::SUBUNITS_PER_PIXEL;
use crate::geometry::viewport_wf;
use crate::memory_editor::byte_cell_x;
use crate::memory_editor::options;
use crate::options::MemoryEditorOptions;
use crate::options::PreviewDataFormat;
use crate::options::format_name_spec;
use crate::options::required_bytes_spec;
use crate::state::BoundsState;
use crate::state::DimensionsState;
use crate::state::State;
use crate::text::ascii_row;
use crate::text::ascii_row_spec;
use crate::text::dec_digits;
use crate::text::dec_u64;
use crate::text::hex2_lower;
use crate::text::hex6_upper;
use crate::text::hex_upper6;
use crate::text::byte_hex_lower;

verus! {

/// A colour slot of the widget's style; the host maps each role to a
/// concrete colour of its theme.
#[derive(Clone, Copy, Debug, PartialEq, Eq, Structural)]
pub enum ColorRole {
    Background,
    Primary,
    Text,
    InactiveText,
    Selection,
    SelectedText,
    Border,
}

/// The selected bytes decoded under the preview format. Integer values are
/// rendered by the host in decimal; float values are carried as raw bits
/// for the host to reinterpret and render with three fractional digits;
/// `Error` renders as the literal text "#Error#".
#[derive(Clone, Copy, Debug, PartialEq, Eq, Structural)]
pub enum PreviewValue {
    Unsigned(u64),
    Signed(i64),
    F32Bits(u32),
    F64Bits(u64),
    Error,
}

/// One draw call against the abstract surface, in absolute subpixel
/// coordinates.
#[derive(Clone, Debug, PartialEq)]
pub enum DrawCommand {
    /// A filled rectangle.
    Quad { x: u64, y: u64, width: u64, height: u64, color: ColorRole },
    /// A filled rectangle with a one-pixel border.
    BorderedQuad { x: u64, y: u64, width: u64, height: u64, fill: ColorRole, border: ColorRole },
    /// A run of text starting at `(x, y)`.
    Text { chars: Vec<char>, x: u64, y: u64, color: ColorRole },
    /// A decoded preview value, rendered right-aligned so its text ends at
    /// `right`.
    Preview { value: PreviewValue, right: u64, y: u64, color: ColorRole },
}

/// The mathematical value of a draw command.
pub enum CmdView {
    Quad { x: u64, y: u64, width: u64, height: u64, color: ColorRole },
    BorderedQuad { x: u64, y: u64, width: u64, height: u64, fill: ColorRole, border: ColorRole },
    Text { chars: Seq<char>, x: u64, y: u64, color: ColorRole },
    Preview { value: PreviewValue, right: u64, y: u64, color: ColorRole },
}

impl View for DrawCommand {
    type V = CmdView;

    open spec fn view(&self) -> CmdView {
        match self {
            DrawCommand::Quad { x, y, width, height, color } => CmdView::Quad {
                x: *x,
                y: *y,
                width: *width,
                height: *height,
                color: *color,
            },
            DrawCommand::BorderedQuad { x, y, width, height, fill, border } => {
                CmdView::BorderedQuad {
                    x: *x,
                    y: *y,
                    width: *width,
                    height: *height,
                    fill: *fill,
                    border: *border,
                }
            },
            DrawCommand::Text { chars, x, y, color } => CmdView::Text {
                chars: chars@,
                x: *x,
                y: *y,
                color: *color,
            },
            DrawCommand::Preview { value, right, y, color } => CmdView::Preview {
                value: *value,
                right: *right,
                y: *y,
                color: *color,
            },
        }
    }
}

/// The values of a command list.
pub open spec fn cmds(s: Seq<DrawCommand>) -> Seq<CmdView> {
    s.map_values(|c: DrawCommand| c@)
}

/// `256^n`.
pub open spec fn pow256(n: nat) -> int
    decreases n,
{
    if n == 0 {
        1
    } else {
        256 * pow256((n - 1) as nat)
    }
}

/// The little-endian value of a byte string: the first byte is least
/// significant.
pub open spec fn le_value(s: Seq<u8>) -> int
    decreases s.len(),
{
    if s.len() == 0 {
        0
    } else {
        s[0] + 256 * le_value(s.drop_first())
    }
}

/// A byte string of `n` bytes reads below `256^n`.
pub proof fn lemma_le_value_bound(s: Seq<u8>)
    ensures
        0 <= le_value(s) < pow256(s.len()),
    decreases s.len(),
{
    if s.len() > 0 {
        lemma_le_value_bound(s.drop_first());
    }
}

/// The value `v` (below `m`) reinterpreted as a signed integer of modulus
/// `m`: values of the upper half wrap to negatives.
pub open spec fn signed_of(v: int, m: int) -> int {
    if v < m / 2 {
        v
    } else {
        v - m
    }
}

/// The bytes of `data` from `offset` decoded under `fmt`: exactly
/// `required_bytes_spec(fmt)` bytes, little-endian, reinterpreted as the
/// format's type; `Error` when `data` holds too few bytes.
pub open spec fn preview_value_spec(data: Seq<u8>, offset: int, fmt: PreviewDataFormat) -> PreviewValue {
    let n = required_bytes_spec(fmt) as int;
    if 0 <= offset && offset + n <= data.len() {
        let raw = le_value(data.subrange(offset, offset + n));
        match fmt {
            PreviewDataFormat::U8 => PreviewValue::Unsigned(raw as u64),
            PreviewDataFormat::U16 => PreviewValue::Unsigned(raw as u64),
            PreviewDataFormat::U32 => PreviewValue::Unsigned(raw as u64),
            PreviewDataFormat::U64 => PreviewValue::Unsigned(raw as u64),
            PreviewDataFormat::I8 => PreviewValue::Signed(signed_of(raw, 0x100) as i64),
            PreviewDataFormat::I16 => PreviewValue::Signed(signed_of(raw, 0x10000) as i64),
            PreviewDataFormat::I32 => PreviewValue::Signed(signed_of(raw, 0x1_0000_0000) as i64),
            PreviewDataFormat::I64 => PreviewValue::Signed(
                signed_of(raw, 0x1_0000_0000_0000_0000) as i64,
            ),
            PreviewDataFormat::F32 => PreviewValue::F32Bits(raw as u32),
            PreviewDataFormat::F64 => PreviewValue::F64Bits(raw as u64),
        }
    } else {
        PreviewValue::Error
    }
}

/// Reads `n` bytes at `offset` as a little-endian unsigned value.
fn decode_le(data: &Vec<u8>, offset: usize, n: usize) -> (r: u64)
    requires
        n <= 8,
        offset + n <= data@.len(),
    ensures
        r == le_value(data@.subrange(offset as int, offset + n)),
{
    let mut acc: u64 = 0;
    let mut i: usize = n;
    proof {
        assert(data@.subrange(offset + n, offset + n) =~= Seq::<u8>::empty());
    }
    while i > 0
        invariant
            i <= n,
            n <= 8,
            offset + n <= data@.len(),
            acc == le_value(data@.subrange(offset + i, offset + n)),
            acc < pow256((n - i) as nat),
        decreases i,
    {
        proof {
            lemma_le_value_bound(data@.subrange(offset + i, offset + n));
            assert(pow256((n - i + 1) as nat) == 256 * pow256((n - i) as nat));
            assert(pow256(8) == 0x1_0000_0000_0000_0000) by {
                reveal_with_fuel(pow256, 9);
            }
            lemma_pow256_increases((n - i + 1) as nat, 8);
            let sub = data@.subrange(offset + i - 1, offset + n);
            assert(sub.drop_first() =~= data@.subrange(offset + i, offset + n));
            assert(sub[0] == data@[offset + i - 1]);
        }
        i = i - 1;
        proof {
            assert(offset + i < data@.len());
            assert(data@.len() == data.len());
        }
        acc = acc * 256 + (data[offset + i] as u64);
    }
    proof {
        assert(data@.subrange(offset as int, offset + n) =~= data@.subrange(
            offset + 0,
            offset + n,
        ));
    }
    acc
}

/// `pow256` grows with its argument.
proof fn lemma_pow256_increases(a: nat, b: nat)
    requires
        a <= b,
    ensures
        pow256(a) <= pow256(b),
        pow256(a) >= 1,
    decreases b,
{
    if a == b {
        if b > 0 {
            lemma_pow256_increases((a - 1) as nat, (b - 1) as nat);
        }
    } else {
        lemma_pow256_increases(a, (b - 1) as nat);
    }
}

/// Decodes the preview for the byte at `offset` of the data window under
/// `format`: exactly the format's width in bytes, little-endian; `Error`
/// when the window ends too soon.
pub fn format_preview_value(data: &Vec<u8>, offset: u64, format: &PreviewDataFormat) -> (r:
    PreviewValue)
    ensures
        r == preview_value_spec(data@, offset as int, *format),
{
    let n = format.required_bytes();
    let len = data.len() as u64;
    if offset > len || n > len - offset {
        return PreviewValue::Error;
    }
    let off = offset as usize;
    let raw = decode_le(data, off, n as usize);
    proof {
        lemma_le_value_bound(data@.subrange(off as int, off + n));
        assert(pow256(1) == 0x100 && pow256(2) == 0x10000 && pow256(4) == 0x1_0000_0000
            && pow256(8) == 0x1_0000_0000_0000_0000) by {
            reveal_with_fuel(pow256, 9);
        }
    }
    match format {
        PreviewDataFormat::U8 => PreviewValue::Unsigned(raw),
        PreviewDataFormat::U16 => PreviewValue::Unsigned(raw),
        PreviewDataFormat::U32 => PreviewValue::Unsigned(raw),
        PreviewDataFormat::U64 => PreviewValue::Unsigned(raw),
        PreviewDataFormat::I8 => {
            if raw < 0x80 {
                PreviewValue::Signed(raw as i64)
            } else {
                PreviewValue::Signed(raw as i64 - 0x100)
            }
        },
        PreviewDataFormat::I16 => {
            if raw < 0x8000 {
                PreviewValue::Signed(raw as i64)
            } else {
                PreviewValue::Signed(raw as i64 - 0x10000)
            }
        },
        PreviewDataFormat::I32 => {
            if raw < 0x8000_0000 {
                PreviewValue::Signed(raw as i64)
            } else {
                PreviewValue::Signed(raw as i64 - 0x1_0000_0000)
            }
        },
        PreviewDataFormat::I64 => {
            if raw < 0x8000_0000_0000_0000 {
                PreviewValue::Signed(raw as i64)
            } else {
                PreviewValue::Signed(((raw - 0x8000_0000_0000_0000) as i64) + i64::MIN)
            }
        },
        PreviewDataFormat::F32 => PreviewValue::F32Bits(raw as u32),
        PreviewDataFormat::F64 => PreviewValue::F64Bits(raw),
    }
}

/// The text of the "Options" button.
pub open spec fn options_label() -> Seq<char> {
    seq!['O', 'p', 't', 'i', 'o', 'n', 's']
}

/// The label of the row-length stepper.
pub open spec fn row_length_label() -> Seq<char> {
    seq!['R', 'o', 'w', ' ', 'l', 'e', 'n', 'g', 't', 'h']
}

/// The label of the preview-format stepper.
pub open spec fn preview_data_label() -> Seq<char> {
    seq!['P', 'r', 'e', 'v', 'i', 'e', 'w', ' ', 'd', 'a', 't', 'a']
}

/// The label of the ASCII-column checkbox.
pub open spec fn show_ascii_label() -> Seq<char> {
    seq!['S', 'h', 'o', 'w', ' ', 'A', 'S', 'C', 'I', 'I']
}

/// A fresh copy of a character buffer.
fn clone_chars(v: &Vec<char>) -> (r: Vec<char>)
    ensures
        r@ == v@,
{
    let mut r: Vec<char> = Vec::new();
    let mut i: usize = 0;
    while i < v.len()
        invariant
            i <= v@.len(),
            r@ =~= v@.subrange(0, i as int),
        decreases v@.len() - i,
    {
        r.push(v[i]);
        proof {
            assert(r@ =~= v@.subrange(0, i + 1));
        }
        i += 1;
    }
    proof {
        assert(v@.subrange(0, v@.len() as int) =~= v@);
    }
    r
}

/// A fresh copy of `len` bytes of the data window starting at `off`.
fn copy_range(data: &Vec<u8>, off: usize, len: usize) -> (r: Vec<u8>)
    requires
        off + len <= data@.len(),
    ensures
        r@ == data@.subrange(off as int, off + len),
{
    let mut r: Vec<u8> = Vec::new();
    let mut i: usize = 0;
    while i < len
        invariant
            i <= len,
            off + len <= data@.len(),
            r@ =~= data@.subrange(off as int, off + i),
        decreases len - i,
    {
        proof {
            assert(data@.len() == data.len());
            assert(off + i < data@.len());
        }
        r.push(data[off + i]);
        proof {
            assert(r@ =~= data@.subrange(off as int, off + i + 1));
        }
        i += 1;
    }
    r
}

/// The quad that fills the whole viewport with the background colour.
pub open spec fn background_cmd(viewport: Rect) -> CmdView {
    CmdView::Quad {
        x: viewport.x,
        y: viewport.y,
        width: viewport.width,
        height: viewport.height,
        color: ColorRole::Background,
    }
}

/// A one-pixel-wide vertical separator line at offset `x_off` from the
/// viewport's left edge, spanning the visible rows with a two-pixel inset.
pub open spec fn separator_cmd(viewport: Rect, d: DimensionsState, x_off: u64) -> CmdView {
    CmdView::Quad {
        x: (viewport.x + x_off) as u64,
        y: (viewport.y + 2 * SUBUNITS_PER_PIXEL) as u64,
        width: SUBUNITS_PER_PIXEL,
        height: crate::state::sub_clamp(
            d.row_count * d.char_height,
            4 * SUBUNITS_PER_PIXEL,
        ) as u64,
        color: ColorRole::Text,
    }
}

/// The commands for the byte cells of one row, from cell `k` on: each byte
/// as two lowercase hex digits at its cell position, with a selection
/// highlight quad under the selected byte.
pub open spec fn byte_cmds(
    viewport: Rect,
    d: DimensionsState,
    y: u64,
    row_addr: u64,
    row: Seq<u8>,
    selected: Option<u64>,
    k: int,
) -> Seq<CmdView>
    decreases row.len() - k,
{
    if k < 0 || k >= row.len() {
        Seq::<CmdView>::empty()
    } else {
        let x = (viewport.x + d.section_data_start + byte_cell_x(d, k)) as u64;
        let is_sel = row_addr + k <= u64::MAX && selected == Option::Some((row_addr + k) as u64);
        let this = if is_sel {
            seq![
                CmdView::Quad {
                    x,
                    y,
                    width: (2 * d.char_width) as u64,
                    height: d.char_height,
                    color: ColorRole::Selection,
                },
                CmdView::Text { chars: hex2_lower(row[k]), x, y, color: ColorRole::SelectedText },
            ]
        } else {
            seq![CmdView::Text { chars: hex2_lower(row[k]), x, y, color: ColorRole::Text }]
        };
        this + byte_cmds(viewport, d, y, row_addr, row, selected, k + 1)
    }
}

/// The ASCII-column commands for one row: the printable rendering of the
/// row, and a highlight quad over the selected byte's column.
pub open spec fn ascii_cmds(
    viewport: Rect,
    d: DimensionsState,
    y: u64,
    row_addr: u64,
    row: Seq<u8>,
    selected: Option<u64>,
    row_length: u64,
) -> Seq<CmdView> {
    let text = seq![
        CmdView::Text {
            chars: ascii_row_spec(row),
            x: (viewport.x + d.section_ascii_start) as u64,
            y,
            color: ColorRole::InactiveText,
        },
    ];
    match selected {
        Option::Some(sel) => if row_addr <= sel && sel - row_addr < row_length {
            text + seq![
                CmdView::Quad {
                    x: (viewport.x + d.section_ascii_start + (sel - row_addr)
                        * d.char_width) as u64,
                    y,
                    width: d.char_width,
                    height: d.char_height,
                    color: ColorRole::Selection,
                },
            ]
        } else {
            text
        },
        Option::None => text,
    }
}

/// The commands for one visible row: the six-digit uppercase address
/// label, the byte cells, and the ASCII column when shown.
pub open spec fn row_cmds(
    viewport: Rect,
    d: DimensionsState,
    y: u64,
    row_addr: u64,
    row: Seq<u8>,
    selected: Option<u64>,
    show_ascii: bool,
    row_length: u64,
) -> Seq<CmdView> {
    seq![
        CmdView::Text {
            chars: hex6_upper(row_addr as int),
            x: viewport.x,
            y,
            color: ColorRole::InactiveText,
        },
    ] + byte_cmds(viewport, d, y, row_addr, row, selected, 0) + if show_ascii {
        ascii_cmds(viewport, d, y, row_addr, row, selected, row_length)
    } else {
        Seq::<CmdView>::empty()
    }
}

/// The commands for all visible rows from row `r` on: the data window is
/// consumed in chunks of one row length, for at most `row_count` rows, and
/// drawing stops early at a short window or at the end of the address
/// space.
pub open spec fn rows_cmds(
    viewport: Rect,
    d: DimensionsState,
    data: Seq<u8>,
    start: u64,
    row_length: u64,
    selected: Option<u64>,
    show_ascii: bool,
    r: int,
) -> Seq<CmdView>
    decreases d.row_count - r,
{
    if r < 0 || r >= d.row_count || row_length == 0 || (r + 1) * row_length > data.len() || start
        + r * row_length > u64::MAX {
        Seq::<CmdView>::empty()
    } else {
        row_cmds(
            viewport,
            d,
            (viewport.y + r * d.char_height) as u64,
            (start + r * row_length) as u64,
            data.subrange(r * row_length, (r + 1) * row_length),
            selected,
            show_ascii,
            row_length,
        ) + rows_cmds(viewport, d, data, start, row_length, selected, show_ascii, r + 1)
    }
}

/// The y position of the status bar.
pub open spec fn bar_y(viewport: Rect, d: DimensionsState) -> u64 {
    crate::state::sub_clamp(crate::state::bottom_edge(viewport), 3 * d.char_height / 2) as u64
}

/// The y position of the status bar's text.
pub open spec fn bar_text_y(viewport: Rect, d: DimensionsState) -> u64 {
    (bar_y(viewport, d) + d.char_width / 2) as u64
}

/// The always-present status-bar commands: the bar itself, the "Options"
/// button label, the "Jump to" label, and the address-jump input box with
/// its buffered text and focus-dependent border.
pub open spec fn bottom_base_cmds(s: State, viewport: Rect) -> Seq<CmdView> {
    let d = s.dimensions;
    let panel_y = bar_y(viewport, d);
    let text_y = bar_text_y(viewport, d);
    seq![
        CmdView::BorderedQuad {
            x: viewport.x,
            y: panel_y,
            width: viewport.width,
            height: (3 * d.char_height / 2) as u64,
            fill: ColorRole::Background,
            border: ColorRole::Border,
        },
        CmdView::Text { chars: options_label(), x: viewport.x, y: text_y, color: ColorRole::Text },
        CmdView::Text {
            chars: crate::state::jumpto_label(),
            x: crate::state::sub_clamp(
                s.bounds.addr_input.x as int,
                s.text.jumpto_len + d.char_width,
            ) as u64,
            y: text_y,
            color: ColorRole::Text,
        },
        CmdView::BorderedQuad {
            x: s.bounds.addr_input.x,
            y: s.bounds.addr_input.y,
            width: s.bounds.addr_input.width,
            height: s.bounds.addr_input.height,
            fill: ColorRole::Primary,
            border: if s.addr_input.focused {
                ColorRole::Text
            } else {
                ColorRole::Border
            },
        },
        CmdView::Text {
            chars: s.addr_input.value@,
            x: (s.bounds.addr_input.x + d.char_width / 2) as u64,
            y: text_y,
            color: ColorRole::Text,
        },
    ]
}

/// The byte-edit group of the status bar, shown only for a writable
/// selection: the "<address> =" label, and the byte-edit input box with
/// its buffered text and focus-dependent border.
pub open spec fn bottom_byte_cmds<C: MemoryEditorContext>(
    c: C,
    s: State,
    viewport: Rect,
) -> Seq<CmdView> {
    let d = s.dimensions;
    let text_y = bar_text_y(viewport, d);
    match s.selected_address {
        Option::Some(sel) => if c.writable(sel as int) {
            seq![
                CmdView::Text {
                    chars: s.text.value_text@,
                    x: crate::state::sub_clamp(
                        s.bounds.byte_input.x as int,
                        s.text.value_len + d.char_width,
                    ) as u64,
                    y: text_y,
                    color: ColorRole::Text,
                },
                CmdView::BorderedQuad {
                    x: s.bounds.byte_input.x,
                    y: s.bounds.byte_input.y,
                    width: s.bounds.byte_input.width,
                    height: s.bounds.byte_input.height,
                    fill: ColorRole::Primary,
                    border: if s.byte_input.focused {
                        ColorRole::Text
                    } else {
                        ColorRole::Border
                    },
                },
                CmdView::Text {
                    chars: s.byte_input.value@,
                    x: (s.bounds.byte_input.x + d.char_width / 2) as u64,
                    y: text_y,
                    color: ColorRole::Text,
                },
            ]
        } else {
            Seq::<CmdView>::empty()
        },
        Option::None => Seq::<CmdView>::empty(),
    }
}

/// The decoded-preview command of the status bar, shown only for a
/// selection inside the fetched window: the selected bytes decoded under
/// the preview format, right-aligned at the bar's right edge.
pub open spec fn bottom_preview_cmds<C: MemoryEditorContext>(
    c: C,
    s: State,
    viewport: Rect,
) -> Seq<CmdView> {
    let d = s.dimensions;
    let opts = c.opts_spec();
    let text_y = bar_text_y(viewport, d);
    match s.selected_address {
        Option::Some(sel) => if s.start_address <= sel && sel - s.start_address < d.row_count
            * opts.row_length {
            seq![
                CmdView::Preview {
                    value: preview_value_spec(
                        s.data@,
                        sel - s.start_address,
                        opts.preview_data_format,
                    ),
                    right: crate::state::sub_clamp(
                        viewport.x + viewport.width,
                        d.char_width as int,
                    ) as u64,
                    y: text_y,
                    color: ColorRole::Text,
                },
            ]
        } else {
            Seq::<CmdView>::empty()
        },
        Option::None => Seq::<CmdView>::empty(),
    }
}

/// The status-bar commands: the bar itself with its labels and the
/// address-jump input, the byte-edit group for a writable selection, and
/// the decoded preview of a selection inside the fetched window.
pub open spec fn bottom_panel_cmds<C: MemoryEditorContext>(
    c: C,
    s: State,
    viewport: Rect,
) -> Seq<CmdView> {
    bottom_base_cmds(s, viewport) + bottom_byte_cmds(c, s, viewport) + bottom_preview_cmds(
        c,
        s,
        viewport,
    )
}

/// The options-panel commands, empty while the panel is closed: the panel
/// quad, the row-length stepper, the preview-format stepper and the ASCII
/// checkbox, filled when the column is shown.
pub open spec fn options_panel_cmds(
    open: bool,
    opts: MemoryEditorOptions,
    viewport: Rect,
    d: DimensionsState,
    bounds: BoundsState,
) -> Seq<CmdView> {
    if !open {
        Seq::<CmdView>::empty()
    } else {
        let panel = crate::state::panel_rect(viewport, d);
        let label_x = (panel.x + d.char_width) as u64;
        let offset_y = crate::state::panel_offset_y(viewport, d) as u64;
        let pad = bounds.show_ascii_checkbox.width / 5;
        seq![
            CmdView::BorderedQuad {
                x: panel.x,
                y: panel.y,
                width: panel.width,
                height: panel.height,
                fill: ColorRole::Primary,
                border: ColorRole::Border,
            },
            CmdView::Text {
                chars: row_length_label(),
                x: label_x,
                y: offset_y,
                color: ColorRole::Text,
            },
            CmdView::Text {
                chars: seq!['<'],
                x: bounds.prev_row_length.x,
                y: bounds.prev_row_length.y,
                color: ColorRole::Text,
            },
            CmdView::Text {
                chars: dec_digits(opts.row_length as int),
                x: bounds.text_row_length.x,
                y: bounds.text_row_length.y,
                color: ColorRole::Text,
            },
            CmdView::Text {
                chars: seq!['>'],
                x: bounds.next_row_length.x,
                y: bounds.next_row_length.y,
                color: ColorRole::Text,
            },
            CmdView::Text {
                chars: preview_data_label(),
                x: label_x,
                y: (offset_y + d.char_height) as u64,
                color: ColorRole::Text,
            },
            CmdView::Text {
                chars: seq!['<'],
                x: bounds.prev_format.x,
                y: bounds.prev_format.y,
                color: ColorRole::Text,
            },
            CmdView::Text {
                chars: format_name_spec(opts.preview_data_format),
                x: bounds.text_format.x,
                y: bounds.text_format.y,
                color: ColorRole::Text,
            },
            CmdView::Text {
                chars: seq!['>'],
                x: bounds.next_format.x,
                y: bounds.next_format.y,
                color: ColorRole::Text,
            },
            CmdView::Text {
                chars: show_ascii_label(),
                x: label_x,
                y: bounds.show_ascii_checkbox.y,
                color: ColorRole::Text,
            },
            CmdView::BorderedQuad {
                x: bounds.show_ascii_checkbox.x,
                y: bounds.show_ascii_checkbox.y,
                width: bounds.show_ascii_checkbox.width,
                height: bounds.show_ascii_checkbox.height,
                fill: ColorRole::Background,
                border: ColorRole::Text,
            },
        ] + if opts.show_ascii {
            seq![
                CmdView::Quad {
                    x: (bounds.show_ascii_checkbox.x + pad) as u64,
                    y: (bounds.show_ascii_checkbox.y + pad) as u64,
                    width: crate::state::sub_clamp(
                        bounds.show_ascii_checkbox.width as int,
                        2 * pad,
                    ) as u64,
                    height: crate::state::sub_clamp(
                        bounds.show_ascii_checkbox.height as int,
                        2 * pad,
                    ) as u64,
                    color: ColorRole::Text,
                },
            ]
        } else {
            Seq::<CmdView>::empty()
        }
    }
}

/// Stepping to the next byte cell adds one byte width, and one group
/// spacing when the step completes a group.
proof fn lemma_cell_step(d: DimensionsState, k: int)
    requires
        0 <= k,
    ensures
        byte_cell_x(d, k + 1) == byte_cell_x(d, k) + d.byte_width + if (k + 1) % 8 == 0 {
            d.group_spacing as int
        } else {
            0
        },
{
    vstd::arithmetic::div_mod::lemma_fundamental_div_mod(k, 8);
    let q = k / 8;
    let rr = k % 8;
    if rr + 1 < 8 {
        vstd::arithmetic::div_mod::lemma_fundamental_div_mod_converse(k + 1, 8, q, rr + 1);
    } else {
        vstd::arithmetic::div_mod::lemma_fundamental_div_mod_converse(k + 1, 8, q + 1, 0);
    }
    assert((k + 1) * d.byte_width == k * d.byte_width + d.byte_width) by (nonlinear_arith);
    assert(((k + 1) / 8) * d.group_spacing == (k / 8) * d.group_spacing + if (k + 1) % 8 == 0 {
        d.group_spacing as int
    } else {
        0
    }) by (nonlinear_arith)
        requires
            (k + 1) / 8 == k / 8 + if (k + 1) % 8 == 0 {
                1int
            } else {
                0int
            },
    ;
}

/// Appends the commands of one visible row.
#[verifier::spinoff_prover]
#[verifier::rlimit(100)]
fn push_row(
    out: &mut Vec<DrawCommand>,
    viewport: Rect,
    d: &DimensionsState,
    y: u64,
    row_addr: u64,
    row: &Vec<u8>,
    selected: Option<u64>,
    show_ascii: bool,
    row_length: u64,
)
    requires
        d.wf(),
        viewport_wf(viewport),
        row@.len() == row_length,
        row_length <= 1024,
    ensures
        cmds(final(out)@) == cmds(old(out)@) + row_cmds(
            viewport,
            *d,
            y,
            row_addr,
            row@,
            selected,
            show_ascii,
            row_length,
        ),
{
    let ghost base = cmds(old(out)@);
    let ghost label_cmd = CmdView::Text {
        chars: hex6_upper(row_addr as int),
        x: viewport.x,
        y,
        color: ColorRole::InactiveText,
    };
    let label = hex_upper6(row_addr);
    out.push(DrawCommand::Text { chars: label, x: viewport.x, y, color: ColorRole::InactiveText });
    proof {
        assert(cmds(out@) =~= base + seq![label_cmd]);
    }

    let mut x_offset = viewport.x + d.section_data_start;
    let mut k: usize = 0;
    proof {
        assert(0 * (d.byte_width as int) == 0) by (nonlinear_arith);
        assert((0int / 8) * (d.group_spacing as int) == 0) by (nonlinear_arith);
        assert(byte_cell_x(*d, 0) == 0);
    }
    while k < row.len()
        invariant
            d.wf(),
            viewport_wf(viewport),
            row@.len() == row_length,
            row_length <= 1024,
            k <= row@.len(),
            x_offset == viewport.x + d.section_data_start + byte_cell_x(*d, k as int),
            byte_cell_x(*d, k as int) <= k * (d.byte_width + d.group_spacing),
            cmds(out@) + byte_cmds(viewport, *d, y, row_addr, row@, selected, k as int) == base
                + seq![label_cmd] + byte_cmds(viewport, *d, y, row_addr, row@, selected, 0),
        decreases row@.len() - k,
    {
        proof {
            assert(k * (d.byte_width + d.group_spacing) <= 1024 * 0x380000) by (nonlinear_arith)
                requires
                    0 <= k < 1024,
                    d.byte_width + d.group_spacing <= 0x380000,
            ;
        }
        let is_sel: bool = match selected {
            Some(sel) => match row_addr.checked_add(k as u64) {
                Some(a) => a == sel,
                None => false,
            },
            None => false,
        };
        let ghost out_before = cmds(out@);
        let ghost this = byte_cmds(viewport, *d, y, row_addr, row@, selected, k as int);
        let ghost rest = byte_cmds(viewport, *d, y, row_addr, row@, selected, k as int + 1);
        if is_sel {
            out.push(
                DrawCommand::Quad {
                    x: x_offset,
                    y,
                    width: 2 * d.char_width,
                    height: d.char_height,
                    color: ColorRole::Selection,
                },
            );
            out.push(
                DrawCommand::Text {
                    chars: byte_hex_lower(row[k]),
                    x: x_offset,
                    y,
                    color: ColorRole::SelectedText,
                },
            );
        } else {
            out.push(
                DrawCommand::Text {
                    chars: byte_hex_lower(row[k]),
                    x: x_offset,
                    y,
                    color: ColorRole::Text,
                },
            );
        }
        proof {
            assert(cmds(out@) + rest =~= out_before + this);
        }
        x_offset = x_offset + d.byte_width;
        if (k + 1) % 8 == 0 {
            x_offset = x_offset + d.group_spacing;
        }
        proof {
            lemma_cell_step(*d, k as int);
            assert((k + 1) * (d.byte_width + d.group_spacing) == k * (d.byte_width
                + d.group_spacing) + (d.byte_width + d.group_spacing)) by (nonlinear_arith);
        }
        k += 1;
    }
    proof {
        assert(byte_cmds(viewport, *d, y, row_addr, row@, selected, k as int)
            =~= Seq::<CmdView>::empty());
        assert(cmds(out@) =~= base + seq![label_cmd] + byte_cmds(
            viewport,
            *d,
            y,
            row_addr,
            row@,
            selected,
            0,
        ));
    }

    let ghost before_ascii = cmds(out@);
    if show_ascii {
        let ascii = ascii_row(row.as_slice());
        out.push(
            DrawCommand::Text {
                chars: ascii,
                x: viewport.x + d.section_ascii_start,
                y,
                color: ColorRole::InactiveText,
            },
        );
        match selected {
            Some(sel) => {
                if sel >= row_addr && sel - row_addr < row_length {
                    proof {
                        assert((sel - row_addr) * d.char_width <= 1024 * 0x100000)
                            by (nonlinear_arith)
                            requires
                                sel - row_addr < 1024,
                                d.char_width <= 0x100000,
                        ;
                    }
                    out.push(
                        DrawCommand::Quad {
                            x: viewport.x + d.section_ascii_start + (sel - row_addr)
                                * d.char_width,
                            y,
                            width: d.char_width,
                            height: d.char_height,
                            color: ColorRole::Selection,
                        },
                    );
                }
            },
            None => {},
        }
        proof {
            assert(cmds(out@) =~= before_ascii + ascii_cmds(
                viewport,
                *d,
                y,
                row_addr,
                row@,
                selected,
                row_length,
            ));
            assert(cmds(out@) =~= base + row_cmds(
                viewport,
                *d,
                y,
                row_addr,
                row@,
                selected,
                show_ascii,
                row_length,
            ));
        }
    } else {
        proof {
            assert(cmds(out@) =~= base + row_cmds(
                viewport,
                *d,
                y,
                row_addr,
                row@,
                selected,
                show_ascii,
                row_length,
            ));
        }
    }
}

/// Appends the commands of every visible row: the data window is consumed
/// in chunks of one row length, for at most the visible row count.
#[verifier::spinoff_prover]
#[verifier::rlimit(100)]
fn push_rows(
    out: &mut Vec<DrawCommand>,
    viewport: Rect,
    d: &DimensionsState,
    data: &Vec<u8>,
    start: u64,
    row_length: u64,
    selected: Option<u64>,
    show_ascii: bool,
)
    requires
        d.wf(),
        viewport_wf(viewport),
        8 <= row_length <= 1024,
    ensures
        cmds(final(out)@) == cmds(old(out)@) + rows_cmds(
            viewport,
            *d,
            data@,
            start,
            row_length,
            selected,
            show_ascii,
            0,
        ),
{
    let ghost base = cmds(old(out)@);
    let len_u: u64 = data.len() as u64;
    let mut r: u64 = 0;
    let mut addr: u64 = start;
    let mut done = false;
    while !done && r < d.row_count
        invariant
            d.wf(),
            viewport_wf(viewport),
            8 <= row_length <= 1024,
            len_u == data@.len(),
            r <= d.row_count,
            !done ==> addr == start + r * row_length,
            done ==> rows_cmds(viewport, *d, data@, start, row_length, selected, show_ascii, r as int)
                =~= Seq::<CmdView>::empty(),
            cmds(out@) + rows_cmds(
                viewport,
                *d,
                data@,
                start,
                row_length,
                selected,
                show_ascii,
                r as int,
            ) == base + rows_cmds(viewport, *d, data@, start, row_length, selected, show_ascii, 0),
        decreases d.row_count - r + if done {
            0int
        } else {
            1int
        },
    {
        proof {
            assert(r * row_length <= 0x1_0000_0000u64 * 1024) by (nonlinear_arith)
                requires
                    r < 0x1_0000_0000u64 + 1,
                    row_length <= 1024,
            ;
            assert((r + 1) * row_length == r * row_length + row_length) by (nonlinear_arith);
            assert(r * d.char_height <= 0x1_0000_0000u64 * 0x100000) by (nonlinear_arith)
                requires
                    r < 0x1_0000_0000u64 + 1,
                    d.char_height <= 0x100000,
            ;
        }
        let off = r * row_length;
        if off > len_u || row_length > len_u - off {
            done = true;
            proof {
                assert(rows_cmds(
                    viewport,
                    *d,
                    data@,
                    start,
                    row_length,
                    selected,
                    show_ascii,
                    r as int,
                ) =~= Seq::<CmdView>::empty());
            }
        } else {
            let ghost out_before = cmds(out@);
            let ghost rest = rows_cmds(
                viewport,
                *d,
                data@,
                start,
                row_length,
                selected,
                show_ascii,
                r as int + 1,
            );
            proof {
                assert(data@.len() == data.len());
                assert(off <= data@.len());
            }
            let row_vec = copy_range(data, off as usize, row_length as usize);
            let y = viewport.y + r * d.char_height;
            push_row(
                out,
                viewport,
                d,
                y,
                addr,
                &row_vec,
                selected,
                show_ascii,
                row_length,
            );
            proof {
                let ri = r as int;
                assert(y == (viewport.y + ri * d.char_height) as u64);
                assert(addr == (start + ri * row_length) as u64);
                assert(row_vec@ =~= data@.subrange(ri * row_length, (ri + 1) * row_length));
                assert(rows_cmds(
                    viewport,
                    *d,
                    data@,
                    start,
                    row_length,
                    selected,
                    show_ascii,
                    ri,
                ) == row_cmds(viewport, *d, y, addr, row_vec@, selected, show_ascii, row_length)
                    + rest);
                assert(cmds(out@) + rest =~= out_before + rows_cmds(
                    viewport,
                    *d,
                    data@,
                    start,
                    row_length,
                    selected,
                    show_ascii,
                    r as int,
                ));
            }
            r = r + 1;
            match addr.checked_add(row_length) {
                Some(a) => {
                    addr = a;
                },
                None => {
                    done = true;
                    proof {
                        assert(start + r * row_length > u64::MAX);
                        assert(rows_cmds(
                            viewport,
                            *d,
                            data@,
                            start,
                            row_length,
                            selected,
                            show_ascii,
                            r as int,
                        ) =~= Seq::<CmdView>::empty());
                    }
                },
            }
        }
    }
    proof {
        if !done {
            assert(rows_cmds(viewport, *d, data@, start, row_length, selected, show_ascii, r as int)
                =~= Seq::<CmdView>::empty());
        }
        assert(cmds(out@) =~= base + rows_cmds(
            viewport,
            *d,
            data@,
            start,
            row_length,
            selected,
            show_ascii,
            0,
        ));
    }
}

/// Appends the status-bar commands.
#[verifier::spinoff_prover]
#[verifier::rlimit(100)]
fn push_bottom_panel<C: MemoryEditorContext>(
    context: &C,
    state: &State,
    out: &mut Vec<DrawCommand>,
    viewport: Rect,
    opts: &MemoryEditorOptions,
)
    requires
        state.wf(),
        viewport_wf(viewport),
        *opts == context.opts_spec(),
        opts.wf(),
    ensures
        cmds(final(out)@) == cmds(old(out)@) + bottom_panel_cmds(*context, *state, viewport),
{
    let ghost base = cmds(old(out)@);
    let ch = state.dimensions.char_height;
    let cw = state.dimensions.char_width;
    let panel_y = (viewport.y + viewport.height).saturating_sub(3 * ch / 2);
    let text_y = panel_y + cw / 2;

    out.push(
        DrawCommand::BorderedQuad {
            x: viewport.x,
            y: panel_y,
            width: viewport.width,
            height: 3 * ch / 2,
            fill: ColorRole::Background,
            border: ColorRole::Border,
        },
    );
    let opt_label: Vec<char> = vec!['O', 'p', 't', 'i', 'o', 'n', 's'];
    proof {
        assert(opt_label@ =~= options_label());
    }
    out.push(DrawCommand::Text { chars: opt_label, x: viewport.x, y: text_y, color: ColorRole::Text });
    let jump_label = clone_chars(&state.text.jumpto_text);
    out.push(
        DrawCommand::Text {
            chars: jump_label,
            x: state.bounds.addr_input.x.saturating_sub(state.text.jumpto_len + cw),
            y: text_y,
            color: ColorRole::Text,
        },
    );
    out.push(
        DrawCommand::BorderedQuad {
            x: state.bounds.addr_input.x,
            y: state.bounds.addr_input.y,
            width: state.bounds.addr_input.width,
            height: state.bounds.addr_input.height,
            fill: ColorRole::Primary,
            border: if state.addr_input.focused {
                ColorRole::Text
            } else {
                ColorRole::Border
            },
        },
    );
    let addr_text = clone_chars(&state.addr_input.value);
    out.push(
        DrawCommand::Text {
            chars: addr_text,
            x: state.bounds.addr_input.x + cw / 2,
            y: text_y,
            color: ColorRole::Text,
        },
    );
    proof {
        assert(cmds(out@) =~= base + bottom_base_cmds(*state, viewport));
    }

    let ghost after_base = cmds(out@);
    match state.selected_address {
        Some(sel) => {
            if context.can_write(sel) {
                let value_label_text = clone_chars(&state.text.value_text);
                out.push(
                    DrawCommand::Text {
                        chars: value_label_text,
                        x: state.bounds.byte_input.x.saturating_sub(state.text.value_len + cw),
                        y: text_y,
                        color: ColorRole::Text,
                    },
                );
                out.push(
                    DrawCommand::BorderedQuad {
                        x: state.bounds.byte_input.x,
                        y: state.bounds.byte_input.y,
                        width: state.bounds.byte_input.width,
                        height: state.bounds.byte_input.height,
                        fill: ColorRole::Primary,
                        border: if state.byte_input.focused {
                            ColorRole::Text
                        } else {
                            ColorRole::Border
                        },
                    },
                );
                let byte_text = clone_chars(&state.byte_input.value);
                out.push(
                    DrawCommand::Text {
                        chars: byte_text,
                        x: state.bounds.byte_input.x + cw / 2,
                        y: text_y,
                        color: ColorRole::Text,
                    },
                );
            }
        },
        None => {},
    }
    proof {
        assert(cmds(out@) =~= after_base + bottom_byte_cmds(*context, *state, viewport));
    }

    let ghost after_byte = cmds(out@);
    match state.selected_address {
        Some(sel) => {
            let rc = state.dimensions.row_count;
            proof {
                assert(rc * opts.row_length <= 0x1_0000_0000u64 * 1024) by (nonlinear_arith)
                    requires
                        rc <= 0x1_0000_0000u64,
                        opts.row_length <= 1024,
                ;
            }
            let window_len = rc * opts.row_length;
            if sel >= state.start_address && sel - state.start_address < window_len {
                let value = format_preview_value(
                    &state.data,
                    sel - state.start_address,
                    &opts.preview_data_format,
                );
                out.push(
                    DrawCommand::Preview {
                        value,
                        right: (viewport.x + viewport.width).saturating_sub(cw),
                        y: text_y,
                        color: ColorRole::Text,
                    },
                );
            }
        },
        None => {},
    }
    proof {
        assert(cmds(out@) =~= after_byte + bottom_preview_cmds(*context, *state, viewport));
        assert(cmds(out@) =~= base + bottom_panel_cmds(*context, *state, viewport));
    }
}

/// Appends the options-panel commands; nothing while the panel is closed.
#[verifier::spinoff_prover]
#[verifier::rlimit(100)]
fn push_options_panel(
    out: &mut Vec<DrawCommand>,
    open: bool,
    opts: &MemoryEditorOptions,
    viewport: Rect,
    d: &DimensionsState,
    bounds: &BoundsState,
)
    requires
        d.wf(),
        viewport_wf(viewport),
        bounds.wf(),
    ensures
        cmds(final(out)@) == cmds(old(out)@) + options_panel_cmds(
            open,
            *opts,
            viewport,
            *d,
            *bounds,
        ),
{
    let ghost base = cmds(old(out)@);
    if !open {
        return ;
    }
    let ch = d.char_height;
    let cw = d.char_width;
    let panel_x = viewport.x + cw / 2;
    let panel_y = (viewport.y + viewport.height).saturating_sub(3 * ch / 2 + 4 * ch);
    let panel_width = viewport.width.saturating_sub(cw);
    let label_x = panel_x + cw;
    let offset_y = panel_y + ch / 2;

    out.push(
        DrawCommand::BorderedQuad {
            x: panel_x,
            y: panel_y,
            width: panel_width,
            height: 4 * ch,
            fill: ColorRole::Primary,
            border: ColorRole::Border,
        },
    );
    let row_label: Vec<char> = vec!['R', 'o', 'w', ' ', 'l', 'e', 'n', 'g', 't', 'h'];
    proof {
        assert(row_label@ =~= row_length_label());
    }
    out.push(DrawCommand::Text { chars: row_label, x: label_x, y: offset_y, color: ColorRole::Text });
    let rl_prev: Vec<char> = vec!['<'];
    proof {
        assert(rl_prev@ =~= seq!['<']);
    }
    out.push(
        DrawCommand::Text {
            chars: rl_prev,
            x: bounds.prev_row_length.x,
            y: bounds.prev_row_length.y,
            color: ColorRole::Text,
        },
    );
    let row_len_text = dec_u64(opts.row_length);
    out.push(
        DrawCommand::Text {
            chars: row_len_text,
            x: bounds.text_row_length.x,
            y: bounds.text_row_length.y,
            color: ColorRole::Text,
        },
    );
    let rl_next: Vec<char> = vec!['>'];
    proof {
        assert(rl_next@ =~= seq!['>']);
    }
    out.push(
        DrawCommand::Text {
            chars: rl_next,
            x: bounds.next_row_length.x,
            y: bounds.next_row_length.y,
            color: ColorRole::Text,
        },
    );
    let preview_label: Vec<char> = vec!['P', 'r', 'e', 'v', 'i', 'e', 'w', ' ', 'd', 'a', 't', 'a'];
    proof {
        assert(preview_label@ =~= preview_data_label());
    }
    out.push(
        DrawCommand::Text {
            chars: preview_label,
            x: label_x,
            y: offset_y + ch,
            color: ColorRole::Text,
        },
    );
    let fmt_prev: Vec<char> = vec!['<'];
    proof {
        assert(fmt_prev@ =~= seq!['<']);
    }
    out.push(
        DrawCommand::Text {
            chars: fmt_prev,
            x: bounds.prev_format.x,
            y: bounds.prev_format.y,
            color: ColorRole::Text,
        },
    );
    let format_text = opts.preview_data_format.name();
    out.push(
        DrawCommand::Text {
            chars: format_text,
            x: bounds.text_format.x,
            y: bounds.text_format.y,
            color: ColorRole::Text,
        },
    );
    let fmt_next: Vec<char> = vec!['>'];
    proof {
        assert(fmt_next@ =~= seq!['>']);
    }
    out.push(
        DrawCommand::Text {
            chars: fmt_next,
            x: bounds.next_format.x,
            y: bounds.next_format.y,
            color: ColorRole::Text,
        },
    );
    let ascii_label: Vec<char> = vec!['S', 'h', 'o', 'w', ' ', 'A', 'S', 'C', 'I', 'I'];
    proof {
        assert(ascii_label@ =~= show_ascii_label());
    }
    out.push(
        DrawCommand::Text {
            chars: ascii_label,
            x: label_x,
            y: bounds.show_ascii_checkbox.y,
            color: ColorRole::Text,
        },
    );
    out.push(
        DrawCommand::BorderedQuad {
            x: bounds.show_ascii_checkbox.x,
            y: bounds.show_ascii_checkbox.y,
            width: bounds.show_ascii_checkbox.width,
            height: bounds.show_ascii_checkbox.height,
            fill: ColorRole::Background,
            border: ColorRole::Text,
        },
    );
    if opts.show_ascii {
        let pad = bounds.show_ascii_checkbox.width / 5;
        out.push(
            DrawCommand::Quad {
                x: bounds.show_ascii_checkbox.x + pad,
                y: bounds.show_ascii_checkbox.y + pad,
                width: bounds.show_ascii_checkbox.width.saturating_sub(2 * pad),
                height: bounds.show_ascii_checkbox.height.saturating_sub(2 * pad),
                color: ColorRole::Text,
            },
        );
    }
    proof {
        assert(cmds(out@) =~= base + options_panel_cmds(open, *opts, viewport, *d, *bounds));
    }
}

/// The draw hook: produces this frame's draw commands from the state, the
/// options read fresh from the backing context, and the data window.
#[verifier::spinoff_prover]
#[verifier::rlimit(100)]
pub fn draw<C: MemoryEditorContext>(content: &Content<C>, state: &State, viewport: Rect) -> (r:
    Vec<DrawCommand>)
    requires
        state.wf(),
        viewport_wf(viewport),
    ensures
        cmds(r@) == draw_cmds(content.internal.context, *state, viewport),
{
    let opts = options(content);
    let mut out: Vec<DrawCommand> = Vec::new();
    out.push(
        DrawCommand::Quad {
            x: viewport.x,
            y: viewport.y,
            width: viewport.width,
            height: viewport.height,
            color: ColorRole::Background,
        },
    );
    let rc = state.dimensions.row_count;
    let ch = state.dimensions.char_height;
    proof {
        assert(rc * ch <= 0x1_0000_0000u64 * 0x100000) by (nonlinear_arith)
            requires
                rc <= 0x1_0000_0000u64,
                ch <= 0x100000,
        ;
    }
    let sep_height = (rc * ch).saturating_sub(4 * SUBUNITS_PER_PIXEL);
    let sep_y = viewport.y + 2 * SUBUNITS_PER_PIXEL;
    out.push(
        DrawCommand::Quad {
            x: viewport.x + state.dimensions.address_separator_x,
            y: sep_y,
            width: SUBUNITS_PER_PIXEL,
            height: sep_height,
            color: ColorRole::Text,
        },
    );
    if opts.show_ascii {
        out.push(
            DrawCommand::Quad {
                x: viewport.x + state.dimensions.ascii_separator_x,
                y: sep_y,
                width: SUBUNITS_PER_PIXEL,
                height: sep_height,
                color: ColorRole::Text,
            },
        );
    }
    proof {
        assert(cmds(out@) =~= seq![
            background_cmd(viewport),
            separator_cmd(viewport, state.dimensions, state.dimensions.address_separator_x),
        ] + (if opts.show_ascii {
            seq![separator_cmd(viewport, state.dimensions, state.dimensions.ascii_separator_x)]
        } else {
            Seq::<CmdView>::empty()
        }));
    }
    let ghost after_separators = cmds(out@);
    push_rows(
        &mut out,
        viewport,
        &state.dimensions,
        &state.data,
        state.start_address,
        opts.row_length,
        state.selected_address,
        opts.show_ascii,
    );
    let ghost after_rows = cmds(out@);
    push_bottom_panel(&content.internal.context, state, &mut out, viewport, &opts);
    let ghost after_bottom = cmds(out@);
    push_options_panel(
        &mut out,
        state.options_open,
        &opts,
        viewport,
        &state.dimensions,
        &state.bounds,
    );
    proof {
        assert(cmds(out@) =~= draw_cmds(content.internal.context, *state, viewport));
    }
    out
}

/// Everything one frame draws: background, the column separators, the
/// visible rows, the status bar and the options panel.
pub open spec fn draw_cmds<C: MemoryEditorContext>(c: C, s: State, viewport: Rect) -> Seq<CmdView> {
    let opts = c.opts_spec();
    seq![
        background_cmd(viewport),
        separator_cmd(viewport, s.dimensions, s.dimensions.address_separator_x),
    ] + (if opts.show_ascii {
        seq![separator_cmd(viewport, s.dimensions, s.dimensions.ascii_separator_x)]
    } else {
        Seq::<CmdView>::empty()
    }) + rows_cmds(
        viewport,
        s.dimensions,
        s.data@,
        s.start_address,
        opts.row_length,
        s.selected_address,
        opts.show_ascii,
        0,
    ) + bottom_panel_cmds(c, s, viewport) + options_panel_cmds(
        s.options_open,
        opts,
        viewport,
        s.dimensions,
        s.bounds,
    )
}

} // verus!

