//! A flat in-memory backing store: the simplest context a host can hand to
//! the widget, and the one the crate's own tests run against. Every address
//! inside the buffer is readable and writable; everything outside reads as
//! zero and ignores writes.

use vstd::prelude::*;
use vstd::pervasive::VecAdditionalExecFns;

use crate::context::MemoryEditorContext;
use crate::options::MAX_ROW_LENGTH;
use crate::options::MemoryEditorOptions;
use crate::options::PreviewDataFormat;

verus! {

/// A memory source over a flat byte buffer, with the display options
/// stored beside it. The options it exposes are always well formed: both
/// the constructor and the widget only ever store well-formed options, and
/// a read falls back to the defaults should the stored record ever be
/// malformed.
pub struct BufferContext {
    bytes: Vec<u8>,
    options: MemoryEditorOptions,
}

impl BufferContext {
    /// The buffer's contents.
    pub closed spec fn bytes_spec(&self) -> Seq<u8> {
        self.bytes@
    }

    /// Wraps a byte buffer and initial display options.
    pub fn new(bytes: Vec<u8>, options: MemoryEditorOptions) -> (r: Self)
        requires
            options.wf(),
        ensures
            r.bytes_spec() == bytes@,
            r.opts_spec() == options,
    {
        BufferContext { bytes, options }
    }

    /// The number of bytes in the buffer.
    pub fn len(&self) -> (r: usize)
        ensures
            r == self.bytes_spec().len(),
    {
        self.bytes.len()
    }
}

impl MemoryEditorContext for BufferContext {
    /// Bytes inside the buffer read as themselves, everything else as zero.
    closed spec fn byte_at(&self, addr: int) -> u8 {
        if 0 <= addr < self.bytes@.len() {
            self.bytes@[addr]
        } else {
            0
        }
    }

    /// Exactly the buffer's own range is writable.
    closed spec fn writable(&self, addr: int) -> bool {
        0 <= addr < self.bytes@.len()
    }

    closed spec fn opts_spec(&self) -> MemoryEditorOptions {
        if self.options.wf() {
            self.options
        } else {
            MemoryEditorOptions {
                row_length: 16,
                preview_data_format: PreviewDataFormat::U8,
                show_ascii: true,
            }
        }
    }

    fn data(&self, start: u64, end: u64) -> (r: Vec<u8>) {
        let len = self.bytes.len() as u64;
        let hi = if end < len {
            end
        } else {
            len
        };
        let mut r: Vec<u8> = Vec::new();
        if start >= hi {
            return r;
        }
        let mut i = start;
        while i < hi
            invariant
                start <= i <= hi,
                hi <= self.bytes@.len(),
                r@.len() == i - start,
                forall|j: int| 0 <= j < r@.len() ==> r@[j] == self.byte_at(start + j),
            decreases hi - i,
        {
            proof {
                assert(self.bytes@.len() == self.bytes.len());
                assert(i < self.bytes@.len());
            }
            r.push(self.bytes[i as usize]);
            proof {
                assert forall|j: int| 0 <= j < r@.len() implies r@[j] == self.byte_at(
                    start + j,
                ) by {
                    if j == r@.len() - 1 {
                        assert(r@[j] == self.bytes@[i as int]);
                    }
                }
            }
            i = i + 1;
        }
        r
    }

    fn options(&self) -> (r: MemoryEditorOptions) {
        let rl = self.options.row_length;
        if 8 <= rl && rl <= MAX_ROW_LENGTH && rl % 8 == 0 {
            MemoryEditorOptions {
                row_length: rl,
                preview_data_format: self.options.preview_data_format,
                show_ascii: self.options.show_ascii,
            }
        } else {
            MemoryEditorOptions {
                row_length: 16,
                preview_data_format: PreviewDataFormat::U8,
                show_ascii: true,
            }
        }
    }

    fn write_options(&mut self, options: MemoryEditorOptions) {
        self.options = options;
    }

    fn can_write(&self, addr: u64) -> (r: bool) {
        addr < self.bytes.len() as u64
    }

    fn write(&mut self, addr: u64, value: u8) {
        if addr < self.bytes.len() as u64 {
            self.bytes.set(addr as usize, value);
        }
    }
}

} // verus!
