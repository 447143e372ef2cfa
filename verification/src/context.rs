//! The contract between the widget and the backing memory source, and the
//! content handle the host keeps for a widget instance.

use vstd::prelude::*;

use crate::options::MemoryEditorOptions;
use crate::options::PreviewDataFormat;

verus! {

/// The capability a backing memory store must implement so the widget can
/// read and edit it. The widget never buffers more than the visible window.
///
/// An implementation describes itself through three spec functions: the byte
/// visible at every address (out-of-range or inaccessible addresses carry the
/// store's own fallback value), which addresses accept writes, and the
/// display options it currently holds. Every method is then pinned to that
/// self-description.
pub trait MemoryEditorContext: Sized {
    /// The byte that a read of `addr` yields, the store's fallback value
    /// where the address is out of range or inaccessible.
    spec fn byte_at(&self, addr: int) -> u8;

    /// Whether a write to `addr` takes effect.
    spec fn writable(&self, addr: int) -> bool;

    /// The display options the store currently holds.
    spec fn opts_spec(&self) -> MemoryEditorOptions;

    /// Reads the byte range `[start, end)`. The store may hand back fewer
    /// bytes than requested (the widget tolerates a short window), but every
    /// byte it does hand back is the byte at its address.
    fn data(&self, start: u64, end: u64) -> (r: Vec<u8>)
        requires
            start <= end,
        ensures
            r@.len() <= end - start,
            forall|j: int| 0 <= j < r@.len() ==> r@[j] == self.byte_at(start + j),
    ;

    /// The store's current display options; always well formed — malformed
    /// options are the store's responsibility to avoid, not the widget's to
    /// reject.
    fn options(&self) -> (r: MemoryEditorOptions)
        ensures
            r == self.opts_spec(),
            r.wf(),
    ;

    /// Replaces the store's display options.
    fn write_options(&mut self, options: MemoryEditorOptions)
        requires
            options.wf(),
        ensures
            final(self).opts_spec() == options,
            forall|a: int| final(self).byte_at(a) == old(self).byte_at(a),
            forall|a: int| final(self).writable(a) == old(self).writable(a),
    ;

    /// Whether the byte-edit input may be activated for `addr`.
    fn can_write(&self, addr: u64) -> (r: bool)
        ensures
            r == self.writable(addr as int),
    ;

    /// Writes one byte, best-effort: a write to a non-writable address is
    /// silently ignored. The byte takes effect exactly when its address is
    /// writable, and nothing else changes (see [`write_transition`]).
    fn write(&mut self, addr: u64, value: u8)
        ensures
            final(self).opts_spec() == old(self).opts_spec(),
            forall|a: int| final(self).writable(a) == old(self).writable(a),
            forall|a: int| a != addr ==> final(self).byte_at(a) == old(self).byte_at(a),
            final(self).byte_at(addr as int) == if old(self).writable(addr as int) {
                value
            } else {
                old(self).byte_at(addr as int)
            },
    ;
}

/// What one byte-write does to a context: the byte takes effect exactly
/// when its address is writable, and nothing else changes.
pub open spec fn write_transition<C: MemoryEditorContext>(
    c0: C,
    c1: C,
    addr: u64,
    value: u8,
) -> bool {
    &&& c1.opts_spec() == c0.opts_spec()
    &&& forall|a: int| c1.writable(a) == c0.writable(a)
    &&& forall|a: int| a != addr ==> c1.byte_at(a) == c0.byte_at(a)
    &&& c1.byte_at(addr as int) == if c0.writable(addr as int) {
        value
    } else {
        c0.byte_at(addr as int)
    }
}

/// Whether `data` is a faithful window of `c` starting at `start`: every
/// byte it holds is the context's byte at the corresponding address.
pub open spec fn window_ok<C: MemoryEditorContext>(c: C, start: u64, data: Seq<u8>) -> bool {
    forall|j: int| 0 <= j < data.len() ==> data[j] == c.byte_at(start + j)
}

/// Byte-write round trip: after a write of `value` to a writable address,
/// any fetched window that covers the address reads the value back.
pub proof fn lemma_byte_write_round_trip<C: MemoryEditorContext>(
    c0: C,
    c1: C,
    addr: u64,
    value: u8,
    start: u64,
    data: Seq<u8>,
)
    requires
        write_transition(c0, c1, addr, value),
        c0.writable(addr as int),
        window_ok(c1, start, data),
        start <= addr,
        addr - start < data.len(),
    ensures
        data[addr - start] == value,
{
    assert(data[addr - start] == c1.byte_at(start + (addr - start)));
}

/// A change of state the widget asks for in response to an input event.
#[derive(Clone, Copy, Debug, PartialEq, Eq, Structural)]
pub enum Action {
    /// Toggle the ASCII column to the carried visibility.
    ShowASCIIUpdate(bool),
    /// Switch the preview format to the carried one.
    PreviewFormatUpdate(PreviewDataFormat),
    /// Change the row length to the carried value.
    RowLengthUpdate(u64),
    /// Write the carried byte at the carried address.
    UpdateByte(u64, u8),
    /// Open or close the options panel.
    OptionsToggled,
}

/// The handle a host keeps for a widget instance; it owns the backing
/// memory context. The host hands it to the widget's lifecycle hooks, one
/// exclusive borrow per frame.
pub struct Content<C: MemoryEditorContext> {
    pub internal: Internal<C>,
}

/// The interior of a [`Content`]: the backing memory context itself.
pub struct Internal<C: MemoryEditorContext> {
    pub context: C,
}

impl<C: MemoryEditorContext> Content<C> {
    /// Wraps a backing memory context for use by the widget.
    pub fn new(context: C) -> (r: Self)
        ensures
            r.internal.context == context,
    {
        Content { internal: Internal { context } }
    }
}

} // verus!
