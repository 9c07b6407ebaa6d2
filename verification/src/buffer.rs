//! Buffers: resources with addressable payload words.
//!
//! The model runtime stores a buffer's contents as a sequence of words; the
//! accessors below are the shared-memory reads and writes the foreign runtime
//! would do through the buffer's contents pointer.

use vstd::prelude::*;

use crate::bridge::Borrowed;
use crate::bridge::Owned;
use crate::kind::CLS_MTL_BUFFER;
use crate::kind::Kind;
use crate::kind::SubKind;
use crate::protocol::Labeled;
use crate::registry::Registry;
use crate::registry::same_except;
use crate::resource::MTLResourcePrototype;

verus! {

/// The kind marker of the foreign `MTLBuffer` class.
pub enum MTLBuffer {
    Prototype,
}

impl Kind for MTLBuffer {
    open spec fn class_id() -> u64 {
        CLS_MTL_BUFFER
    }

    open spec fn class_name() -> Seq<char> {
        "MTLBuffer"@
    }

    fn runtime_class() -> u64 {
        CLS_MTL_BUFFER
    }

    fn runtime_class_name() -> &'static str {
        "MTLBuffer"
    }

    proof fn declared() {
        reveal_strlit("MTLBuffer");
    }
}

impl SubKind for MTLBuffer {
    type Parent = MTLResourcePrototype;

    proof fn parent_declared() {
    }
}

impl Labeled for MTLBuffer {

}

/// An owning handle to a buffer.
pub type Buffer = Owned<MTLBuffer>;

impl<'a> Borrowed<'a, MTLBuffer> {
    /// How many payload words the buffer holds.
    pub fn length(&self, rt: &Registry) -> (n: usize)
        requires
            self.valid(*rt),
        ensures
            n == rt.words_of(self.id()).len(),
    {
        rt.words_len(self.raw_id())
    }

    /// Reads the word at `index`.  Out of range is a contract violation, as a
    /// wild read through the contents pointer would be.
    pub fn read_word(&self, rt: &Registry, index: usize) -> (w: u64)
        requires
            self.valid(*rt),
            index < rt.words_of(self.id()).len(),
        ensures
            w == rt.words_of(self.id())[index as int],
    {
        rt.word_at(self.raw_id(), index)
    }

    /// Overwrites the word at `index`.
    pub fn write_word(&self, rt: &mut Registry, index: usize, w: u64)
        requires
            self.valid(*old(rt)),
            index < old(rt).words_of(self.id()).len(),
        ensures
            final(rt).words_of(self.id()) == old(rt).words_of(self.id()).update(index as int, w),
            final(rt).count_of(self.id()) == old(rt).count_of(self.id()),
            final(rt).label_of(self.id()) == old(rt).label_of(self.id()),
            same_except(*old(rt), *final(rt), self.id()),
            final(rt).retains_tally() == old(rt).retains_tally(),
            final(rt).releases_tally() == old(rt).releases_tally(),
            self.valid(*final(rt)),
    {
        rt.set_word(self.raw_id(), index, w);
    }
}

} // verus!
