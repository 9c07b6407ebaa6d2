//! Command buffers: recorded work submitted to a queue.

use vstd::prelude::*;

use crate::bridge::Borrowed;
use crate::bridge::Owned;
use crate::encoder::MTLBlitCommandEncoder;
use crate::dispatch::Message;
use crate::dispatch::Response;
use crate::dispatch::invoke;
use crate::kind::CLS_MTL_COMMAND_BUFFER;
use crate::kind::Kind;
use crate::kind::NSObjectPrototype;
use crate::kind::SubKind;
use crate::protocol::Labeled;
use crate::registry::Registry;
use crate::registry::allocate_post;

verus! {

/// Mirrors the foreign `MTLCommandBufferStatus` enumeration.
#[derive(Clone, Copy, Debug, PartialEq, Eq, Structural)]
pub enum MTLCommandBufferStatus {
    NotEnqueued,
    Enqueued,
    Committed,
    Scheduled,
    Completed,
    Error,
}

/// Mirrors the foreign `MTLCommandBufferError` enumeration.
#[derive(Clone, Copy, Debug, PartialEq, Eq, Structural)]
pub enum MTLCommandBufferError {
    NoError,
    Internal,
    Timeout,
    PageFault,
    Blacklisted,
    NotPermitted,
    OutOfMemory,
    InvalidResource,
}

/// The kind marker of the foreign `MTLCommandBuffer` class.
pub enum MTLCommandBufferPrototype {
    Prototype,
}

impl Kind for MTLCommandBufferPrototype {
    open spec fn class_id() -> u64 {
        CLS_MTL_COMMAND_BUFFER
    }

    open spec fn class_name() -> Seq<char> {
        "MTLCommandBuffer"@
    }

    fn runtime_class() -> u64 {
        CLS_MTL_COMMAND_BUFFER
    }

    fn runtime_class_name() -> &'static str {
        "MTLCommandBuffer"
    }

    proof fn declared() {
        reveal_strlit("MTLCommandBuffer");
    }
}

impl SubKind for MTLCommandBufferPrototype {
    type Parent = NSObjectPrototype;

    proof fn parent_declared() {
    }
}

impl Labeled for MTLCommandBufferPrototype {

}

/// An owning handle to a command buffer.
pub type MTLCommandBuffer = Owned<MTLCommandBufferPrototype>;

impl<'a> Borrowed<'a, MTLCommandBufferPrototype> {
    /// A fresh blit command encoder recording into this command buffer,
    /// owned by the caller.
    pub fn new_blit_command_encoder(&self, rt: &mut Registry) -> (e: Owned<
        MTLBlitCommandEncoder,
    >)
        requires
            self.valid(*old(rt)),
            old(rt).obj_ct() < usize::MAX - 1,
        ensures
            allocate_post(
                *old(rt),
                *final(rt),
                MTLBlitCommandEncoder::class_id(),
                MTLBlitCommandEncoder::class_name(),
                Seq::<char>::empty(),
                Seq::<usize>::empty(),
                Seq::<u64>::empty(),
                e.id(),
            ),
            e.valid(*final(rt)),
    {
        let name = MTLBlitCommandEncoder::runtime_class_name();
        let msg = Message::NewObject {
            class: MTLBlitCommandEncoder::runtime_class(),
            name: name.to_owned(),
        };
        match invoke(rt, self.raw_id(), msg) {
            Response::Handle(id) => Owned::adopt(rt, id),
            _ => Owned::create(rt),
        }
    }
}

} // verus!
