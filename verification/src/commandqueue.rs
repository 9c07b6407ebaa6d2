//! Command queues: factories for command buffers.

use vstd::prelude::*;

use crate::bridge::Borrowed;
use crate::bridge::Owned;
use crate::commandbuffer::MTLCommandBufferPrototype;
use crate::dispatch::Message;
use crate::dispatch::Response;
use crate::dispatch::invoke;
use crate::kind::CLS_MTL_COMMAND_QUEUE;
use crate::kind::Kind;
use crate::kind::NSObjectPrototype;
use crate::kind::SubKind;
use crate::protocol::Labeled;
use crate::registry::Registry;
use crate::registry::allocate_post;

verus! {

/// The kind marker of the foreign `MTLCommandQueue` class.
pub enum MTLCommandQueuePrototype {
    Prototype,
}

impl Kind for MTLCommandQueuePrototype {
    open spec fn class_id() -> u64 {
        CLS_MTL_COMMAND_QUEUE
    }

    open spec fn class_name() -> Seq<char> {
        "MTLCommandQueue"@
    }

    fn runtime_class() -> u64 {
        CLS_MTL_COMMAND_QUEUE
    }

    fn runtime_class_name() -> &'static str {
        "MTLCommandQueue"
    }

    proof fn declared() {
        reveal_strlit("MTLCommandQueue");
    }
}

impl SubKind for MTLCommandQueuePrototype {
    type Parent = NSObjectPrototype;

    proof fn parent_declared() {
    }
}

impl Labeled for MTLCommandQueuePrototype {

}

/// An owning handle to a command queue.
pub type MTLCommandQueue = Owned<MTLCommandQueuePrototype>;

impl<'a> Borrowed<'a, MTLCommandQueuePrototype> {
    /// A fresh command buffer on this queue, owned by the caller: the one
    /// uniform ownership convention of this crate, chosen over the foreign
    /// autorelease-pool convention.
    pub fn new_command_buffer(&self, rt: &mut Registry) -> (b:
        crate::commandbuffer::MTLCommandBuffer)
        requires
            self.valid(*old(rt)),
            old(rt).obj_ct() < usize::MAX - 1,
        ensures
            allocate_post(
                *old(rt),
                *final(rt),
                MTLCommandBufferPrototype::class_id(),
                MTLCommandBufferPrototype::class_name(),
                Seq::<char>::empty(),
                Seq::<usize>::empty(),
                Seq::<u64>::empty(),
                b.id(),
            ),
            b.valid(*final(rt)),
    {
        let name = MTLCommandBufferPrototype::runtime_class_name();
        let msg = Message::NewObject {
            class: MTLCommandBufferPrototype::runtime_class(),
            name: name.to_owned(),
        };
        match invoke(rt, self.raw_id(), msg) {
            Response::Handle(id) => Owned::adopt(rt, id),
            _ => Owned::create(rt),
        }
    }
}

} // verus!
