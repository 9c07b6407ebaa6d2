//! Input/output command buffer vocabulary.

use vstd::prelude::*;

use crate::bridge::Owned;
use crate::kind::CLS_MTL_IO_COMMAND_BUFFER;
use crate::kind::Kind;
use crate::kind::NSObjectPrototype;
use crate::kind::SubKind;

verus! {

/// Mirrors the foreign `MTLIOStatus` enumeration.
#[derive(Clone, Copy, Debug, PartialEq, Eq, Structural)]
pub enum MTLIOStatus {
    Pending,
    Complete,
    Cancelled,
    Error,
}

/// The kind marker of the foreign `MTLIOCommandBuffer` class.
pub enum MTLIOCommandBuffer {
    Prototype,
}

impl Kind for MTLIOCommandBuffer {
    open spec fn class_id() -> u64 {
        CLS_MTL_IO_COMMAND_BUFFER
    }

    open spec fn class_name() -> Seq<char> {
        "MTLIOCommandBuffer"@
    }

    fn runtime_class() -> u64 {
        CLS_MTL_IO_COMMAND_BUFFER
    }

    fn runtime_class_name() -> &'static str {
        "MTLIOCommandBuffer"
    }

    proof fn declared() {
        reveal_strlit("MTLIOCommandBuffer");
    }
}

impl SubKind for MTLIOCommandBuffer {
    type Parent = NSObjectPrototype;

    proof fn parent_declared() {
    }
}

/// An owning handle to a `MTLIOCommandBuffer` object.
pub type IOCommandBuffer = Owned<MTLIOCommandBuffer>;

} // verus!
