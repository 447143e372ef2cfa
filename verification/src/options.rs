//! Display configuration for the memory editor: bytes per row, the numeric
//! format of the value preview, and whether the ASCII column is shown.

use vstd::prelude::*;

verus! {

/// Number of bytes in one visually separated group within a row.
pub const GROUP_CHAR_LEN: u64 = 8;

/// Number of hex digits in a rendered address label.
pub const ADDRESS_CHAR_LEN: u64 = 6;

/// Ceiling for the row length. The row-length stepper refuses to go above
/// this, so that a row always fits comfortably in fixed-width arithmetic.
pub const MAX_ROW_LENGTH: u64 = 1024;

/// The numeric type under which the selected bytes are decoded for the
/// status-bar preview.
#[derive(Clone, Copy, Debug, PartialEq, Eq, Structural)]
pub enum PreviewDataFormat {
    U8,
    U16,
    U32,
    U64,
    I8,
    I16,
    I32,
    I64,
    F32,
    F64,
}

impl Default for PreviewDataFormat {
    fn default() -> (r: Self)
        ensures
            r == PreviewDataFormat::U8,
    {
        PreviewDataFormat::U8
    }
}

/// The format that follows `f` in the fixed cycle
/// `U8, U16, U32, U64, I8, I16, I32, I64, F32, F64` (wrapping around).
pub open spec fn next_format_spec(f: PreviewDataFormat) -> PreviewDataFormat {
    match f {
        PreviewDataFormat::U8 => PreviewDataFormat::U16,
        PreviewDataFormat::U16 => PreviewDataFormat::U32,
        PreviewDataFormat::U32 => PreviewDataFormat::U64,
        PreviewDataFormat::U64 => PreviewDataFormat::I8,
        PreviewDataFormat::I8 => PreviewDataFormat::I16,
        PreviewDataFormat::I16 => PreviewDataFormat::I32,
        PreviewDataFormat::I32 => PreviewDataFormat::I64,
        PreviewDataFormat::I64 => PreviewDataFormat::F32,
        PreviewDataFormat::F32 => PreviewDataFormat::F64,
        PreviewDataFormat::F64 => PreviewDataFormat::U8,
    }
}

/// The format that precedes `f` in the same cycle.
pub open spec fn previous_format_spec(f: PreviewDataFormat) -> PreviewDataFormat {
    match f {
        PreviewDataFormat::U8 => PreviewDataFormat::F64,
        PreviewDataFormat::U16 => PreviewDataFormat::U8,
        PreviewDataFormat::U32 => PreviewDataFormat::U16,
        PreviewDataFormat::U64 => PreviewDataFormat::U32,
        PreviewDataFormat::I8 => PreviewDataFormat::U64,
        PreviewDataFormat::I16 => PreviewDataFormat::I8,
        PreviewDataFormat::I32 => PreviewDataFormat::I16,
        PreviewDataFormat::I64 => PreviewDataFormat::I32,
        PreviewDataFormat::F32 => PreviewDataFormat::I64,
        PreviewDataFormat::F64 => PreviewDataFormat::F32,
    }
}

/// The number of bytes a preview under format `f` decodes.
pub open spec fn required_bytes_spec(f: PreviewDataFormat) -> u64 {
    match f {
        PreviewDataFormat::U8 => 1,
        PreviewDataFormat::I8 => 1,
        PreviewDataFormat::U16 => 2,
        PreviewDataFormat::I16 => 2,
        PreviewDataFormat::U32 => 4,
        PreviewDataFormat::I32 => 4,
        PreviewDataFormat::F32 => 4,
        PreviewDataFormat::U64 => 8,
        PreviewDataFormat::I64 => 8,
        PreviewDataFormat::F64 => 8,
    }
}

/// The display name of a format, as drawn in the options panel.
pub open spec fn format_name_spec(f: PreviewDataFormat) -> Seq<char> {
    match f {
        PreviewDataFormat::U8 => seq!['U', '8'],
        PreviewDataFormat::U16 => seq!['U', '1', '6'],
        PreviewDataFormat::U32 => seq!['U', '3', '2'],
        PreviewDataFormat::U64 => seq!['U', '6', '4'],
        PreviewDataFormat::I8 => seq!['I', '8'],
        PreviewDataFormat::I16 => seq!['I', '1', '6'],
        PreviewDataFormat::I32 => seq!['I', '3', '2'],
        PreviewDataFormat::I64 => seq!['I', '6', '4'],
        PreviewDataFormat::F32 => seq!['F', '3', '2'],
        PreviewDataFormat::F64 => seq!['F', '6', '4'],
    }
}

impl PreviewDataFormat {
    /// How many bytes a preview under this format decodes: 1, 2, 4 or 8.
    pub fn required_bytes(&self) -> (r: u64)
        ensures
            r == required_bytes_spec(*self),
            1 <= r <= 8,
    {
        match self {
            PreviewDataFormat::U8 => 1,
            PreviewDataFormat::I8 => 1,
            PreviewDataFormat::U16 => 2,
            PreviewDataFormat::I16 => 2,
            PreviewDataFormat::U32 => 4,
            PreviewDataFormat::I32 => 4,
            PreviewDataFormat::F32 => 4,
            PreviewDataFormat::U64 => 8,
            PreviewDataFormat::I64 => 8,
            PreviewDataFormat::F64 => 8,
        }
    }

    /// The display name of this format.
    pub fn name(&self) -> (r: Vec<char>)
        ensures
            r@ == format_name_spec(*self),
    {
        let mut r: Vec<char> = Vec::new();
        match self {
            PreviewDataFormat::U8 => {
                r.push('U');
                r.push('8');
            },
            PreviewDataFormat::U16 => {
                r.push('U');
                r.push('1');
                r.push('6');
            },
            PreviewDataFormat::U32 => {
                r.push('U');
                r.push('3');
                r.push('2');
            },
            PreviewDataFormat::U64 => {
                r.push('U');
                r.push('6');
                r.push('4');
            },
            PreviewDataFormat::I8 => {
                r.push('I');
                r.push('8');
            },
            PreviewDataFormat::I16 => {
                r.push('I');
                r.push('1');
                r.push('6');
            },
            PreviewDataFormat::I32 => {
                r.push('I');
                r.push('3');
                r.push('2');
            },
            PreviewDataFormat::I64 => {
                r.push('I');
                r.push('6');
                r.push('4');
            },
            PreviewDataFormat::F32 => {
                r.push('F');
                r.push('3');
                r.push('2');
            },
            PreviewDataFormat::F64 => {
                r.push('F');
                r.push('6');
                r.push('4');
            },
        }
        proof {
            assert(r@ =~= format_name_spec(*self));
        }
        r
    }
}

/// Per-frame display configuration, owned by the backing memory context;
/// the widget fetches a fresh copy every frame and pushes changes back.
#[derive(Clone, Debug, PartialEq, Eq, Structural)]
pub struct MemoryEditorOptions {
    /// Bytes rendered per visible row; a multiple of 8, at least 8.
    pub row_length: u64,
    /// Numeric type used to decode the selected bytes for the preview.
    pub preview_data_format: PreviewDataFormat,
    /// Whether the ASCII column is rendered.
    pub show_ascii: bool,
}

impl MemoryEditorOptions {
    /// Well-formedness: the row length is a multiple of the group size,
    /// at least one group long, and under the documented ceiling.
    pub open spec fn wf(&self) -> bool {
        &&& 8 <= self.row_length <= MAX_ROW_LENGTH
        &&& self.row_length % 8 == 0
    }

    /// The format that precedes the current preview format in the cycle.
    pub fn previous_data_format(&self) -> (r: PreviewDataFormat)
        ensures
            r == previous_format_spec(self.preview_data_format),
    {
        match self.preview_data_format {
            PreviewDataFormat::U8 => PreviewDataFormat::F64,
            PreviewDataFormat::U16 => PreviewDataFormat::U8,
            PreviewDataFormat::U32 => PreviewDataFormat::U16,
            PreviewDataFormat::U64 => PreviewDataFormat::U32,
            PreviewDataFormat::I8 => PreviewDataFormat::U64,
            PreviewDataFormat::I16 => PreviewDataFormat::I8,
            PreviewDataFormat::I32 => PreviewDataFormat::I16,
            PreviewDataFormat::I64 => PreviewDataFormat::I32,
            PreviewDataFormat::F32 => PreviewDataFormat::I64,
            PreviewDataFormat::F64 => PreviewDataFormat::F32,
        }
    }

    /// The format that follows the current preview format in the cycle.
    pub fn next_data_format(&self) -> (r: PreviewDataFormat)
        ensures
            r == next_format_spec(self.preview_data_format),
    {
        match self.preview_data_format {
            PreviewDataFormat::U8 => PreviewDataFormat::U16,
            PreviewDataFormat::U16 => PreviewDataFormat::U32,
            PreviewDataFormat::U32 => PreviewDataFormat::U64,
            PreviewDataFormat::U64 => PreviewDataFormat::I8,
            PreviewDataFormat::I8 => PreviewDataFormat::I16,
            PreviewDataFormat::I16 => PreviewDataFormat::I32,
            PreviewDataFormat::I32 => PreviewDataFormat::I64,
            PreviewDataFormat::I64 => PreviewDataFormat::F32,
            PreviewDataFormat::F32 => PreviewDataFormat::F64,
            PreviewDataFormat::F64 => PreviewDataFormat::U8,
        }
    }
}

impl Default for MemoryEditorOptions {
    fn default() -> (r: Self)
        ensures
            r.row_length == 16,
            r.preview_data_format == PreviewDataFormat::U8,
            r.show_ascii == true,
            r.wf(),
    {
        MemoryEditorOptions {
            row_length: 16,
            preview_data_format: PreviewDataFormat::U8,
            show_ascii: true,
        }
    }
}

/// One step of the row-length "previous" control: down by one group,
/// floored at 8.
pub open spec fn decreased_row_length_spec(l: u64) -> u64 {
    if l >= 16 {
        (l - 8) as u64
    } else {
        8
    }
}

/// One step of the row-length "next" control: up by one group, capped at
/// [`MAX_ROW_LENGTH`].
pub open spec fn increased_row_length_spec(l: u64) -> u64 {
    if l <= MAX_ROW_LENGTH - 8 {
        (l + 8) as u64
    } else {
        MAX_ROW_LENGTH
    }
}

/// Steps the row length down by one group, never below 8.
pub fn decreased_row_length(l: u64) -> (r: u64)
    ensures
        r == decreased_row_length_spec(l),
        r >= 8,
{
    if l >= 16 {
        l - 8
    } else {
        8
    }
}

/// Steps the row length up by one group, never above [`MAX_ROW_LENGTH`].
pub fn increased_row_length(l: u64) -> (r: u64)
    ensures
        r == increased_row_length_spec(l),
        r <= MAX_ROW_LENGTH,
{
    if l <= MAX_ROW_LENGTH - 8 {
        l + 8
    } else {
        MAX_ROW_LENGTH
    }
}

/// `n` applications of `next_format_spec`, starting from `f`.
pub open spec fn iterated_next_format(f: PreviewDataFormat, n: nat) -> PreviewDataFormat
    decreases n,
{
    if n == 0 {
        f
    } else {
        iterated_next_format(next_format_spec(f), (n - 1) as nat)
    }
}

/// Format cycling is a closed loop: stepping backwards then forwards (or
/// forwards then backwards) returns the format unchanged.
pub proof fn lemma_format_cycle_inverse(f: PreviewDataFormat)
    ensures
        next_format_spec(previous_format_spec(f)) == f,
        previous_format_spec(next_format_spec(f)) == f,
{
}

/// Iterating `next` once per member of the ten-format cycle returns the
/// starting format.
pub proof fn lemma_format_cycle_period(f: PreviewDataFormat)
    ensures
        iterated_next_format(f, 10) == f,
{
    reveal_with_fuel(iterated_next_format, 11);
}

/// `n` applications of the row-length "previous" step, starting from `l`.
pub open spec fn repeatedly_decreased_row_length(l: u64, n: nat) -> u64
    decreases n,
{
    if n == 0 {
        l
    } else {
        decreased_row_length_spec(repeatedly_decreased_row_length(l, (n - 1) as nat))
    }
}

/// Row-length floor: however often the row length is stepped down from a
/// starting multiple of 8 that is at least 8, it never goes below 8, and it
/// stays a multiple of 8.
pub proof fn lemma_row_length_floor(l: u64, n: nat)
    requires
        l >= 8,
        l % 8 == 0,
    ensures
        repeatedly_decreased_row_length(l, n) >= 8,
        repeatedly_decreased_row_length(l, n) % 8 == 0,
    decreases n,
{
    if n > 0 {
        lemma_row_length_floor(l, (n - 1) as nat);
    }
}

} // verus!
