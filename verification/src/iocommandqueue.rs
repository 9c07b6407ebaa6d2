//! Input/output command queue vocabulary.

use vstd::prelude::*;

use crate::bridge::Owned;
use crate::kind::CLS_MTL_IO_COMMAND_QUEUE;
use crate::kind::CLS_MTL_IO_COMMAND_QUEUE_DESCRIPTOR;
use crate::kind::CLS_MTL_IO_SCRATCH_BUFFER;
use crate::kind::CLS_MTL_IO_SCRATCH_BUFFER_ALLOCATOR;
use crate::kind::Kind;
use crate::kind::NSObjectPrototype;
use crate::kind::SubKind;

verus! {

/// Mirrors the foreign `MTLIOCompressionMethod` enumeration.
#[allow(non_camel_case_types)]
#[derive(Clone, Copy, Debug, PartialEq, Eq, Structural)]
pub enum MTLIOCompressionMethod {
    Zlib,
    LZFSE,
    LZ4,
    LZMA,
    LZBitmap,
}

/// Mirrors the foreign `MTLIOPriority` enumeration.
#[derive(Clone, Copy, Debug, PartialEq, Eq, Structural)]
pub enum MTLIOPriority {
    Normal,
    Low,
    High,
}

/// Mirrors the foreign `MTLIOCommandQueueType` enumeration.
#[derive(Clone, Copy, Debug, PartialEq, Eq, Structural)]
pub enum MTLIOCommandQueueType {
    Concurrent,
    Serial,
}

/// The kind marker of the foreign `MTLIOCommandQueue` class.
pub enum MTLIOCommandQueue {
    Prototype,
}

impl Kind for MTLIOCommandQueue {
    open spec fn class_id() -> u64 {
        CLS_MTL_IO_COMMAND_QUEUE
    }

    open spec fn class_name() -> Seq<char> {
        "MTLIOCommandQueue"@
    }

    fn runtime_class() -> u64 {
        CLS_MTL_IO_COMMAND_QUEUE
    }

    fn runtime_class_name() -> &'static str {
        "MTLIOCommandQueue"
    }

    proof fn declared() {
        reveal_strlit("MTLIOCommandQueue");
    }
}

impl SubKind for MTLIOCommandQueue {
    type Parent = NSObjectPrototype;

    proof fn parent_declared() {
    }
}

/// The kind marker of the foreign `MTLIOScratchBuffer` class.
pub enum MTLIOScratchBuffer {
    Prototype,
}

impl Kind for MTLIOScratchBuffer {
    open spec fn class_id() -> u64 {
        CLS_MTL_IO_SCRATCH_BUFFER
    }

    open spec fn class_name() -> Seq<char> {
        "MTLIOScratchBuffer"@
    }

    fn runtime_class() -> u64 {
        CLS_MTL_IO_SCRATCH_BUFFER
    }

    fn runtime_class_name() -> &'static str {
        "MTLIOScratchBuffer"
    }

    proof fn declared() {
        reveal_strlit("MTLIOScratchBuffer");
    }
}

impl SubKind for MTLIOScratchBuffer {
    type Parent = NSObjectPrototype;

    proof fn parent_declared() {
    }
}

/// The kind marker of the foreign `MTLIOScratchBufferAllocator` class.
pub enum MTLIOScratchBufferAllocator {
    Prototype,
}

impl Kind for MTLIOScratchBufferAllocator {
    open spec fn class_id() -> u64 {
        CLS_MTL_IO_SCRATCH_BUFFER_ALLOCATOR
    }

    open spec fn class_name() -> Seq<char> {
        "MTLIOScratchBufferAllocator"@
    }

    fn runtime_class() -> u64 {
        CLS_MTL_IO_SCRATCH_BUFFER_ALLOCATOR
    }

    fn runtime_class_name() -> &'static str {
        "MTLIOScratchBufferAllocator"
    }

    proof fn declared() {
        reveal_strlit("MTLIOScratchBufferAllocator");
    }
}

impl SubKind for MTLIOScratchBufferAllocator {
    type Parent = NSObjectPrototype;

    proof fn parent_declared() {
    }
}

/// The kind marker of the foreign `MTLIOCommandQueueDescriptor` class.
pub enum MTLIOCommandQueueDescriptor {
    Prototype,
}

impl Kind for MTLIOCommandQueueDescriptor {
    open spec fn class_id() -> u64 {
        CLS_MTL_IO_COMMAND_QUEUE_DESCRIPTOR
    }

    open spec fn class_name() -> Seq<char> {
        "MTLIOCommandQueueDescriptor"@
    }

    fn runtime_class() -> u64 {
        CLS_MTL_IO_COMMAND_QUEUE_DESCRIPTOR
    }

    fn runtime_class_name() -> &'static str {
        "MTLIOCommandQueueDescriptor"
    }

    proof fn declared() {
        reveal_strlit("MTLIOCommandQueueDescriptor");
    }
}

impl SubKind for MTLIOCommandQueueDescriptor {
    type Parent = NSObjectPrototype;

    proof fn parent_declared() {
    }
}

/// An owning handle to a `MTLIOCommandQueue` object.
pub type IOCommandQueue = Owned<MTLIOCommandQueue>;

} // verus!
