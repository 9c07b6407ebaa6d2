//! Render pass vocabulary.

use vstd::prelude::*;

use crate::bridge::Owned;
use crate::kind::CLS_MTL_RENDER_PASS_ATTACHMENT_DESCRIPTOR;
use crate::kind::CLS_MTL_RENDER_PASS_COLOR_ATTACHMENT_DESCRIPTOR;
use crate::kind::CLS_MTL_RENDER_PASS_COLOR_ATTACHMENT_DESCRIPTOR_ARRAY;
use crate::kind::CLS_MTL_RENDER_PASS_DEPTH_ATTACHMENT_DESCRIPTOR;
use crate::kind::CLS_MTL_RENDER_PASS_DESCRIPTOR;
use crate::kind::CLS_MTL_RENDER_PASS_STENCIL_ATTACHMENT_DESCRIPTOR;
use crate::kind::Kind;
use crate::kind::NSObjectPrototype;
use crate::kind::SubKind;

verus! {

/// Mirrors the foreign `MTLLoadAction` enumeration.
#[derive(Clone, Copy, Debug, PartialEq, Eq, Structural)]
pub enum MTLLoadAction {
    DontCare,
    Load,
    Clear,
}

/// Mirrors the foreign `MTLStoreAction` enumeration.
#[derive(Clone, Copy, Debug, PartialEq, Eq, Structural)]
pub enum MTLStoreAction {
    DontCare,
    Store,
    MultisampleResolve,
}

/// The kind marker of the foreign `MTLRenderPassAttachmentDescriptor` class.
pub enum MTLRenderPassAttachmentDescriptorPrototype {
    Prototype,
}

impl Kind for MTLRenderPassAttachmentDescriptorPrototype {
    open spec fn class_id() -> u64 {
        CLS_MTL_RENDER_PASS_ATTACHMENT_DESCRIPTOR
    }

    open spec fn class_name() -> Seq<char> {
        "MTLRenderPassAttachmentDescriptor"@
    }

    fn runtime_class() -> u64 {
        CLS_MTL_RENDER_PASS_ATTACHMENT_DESCRIPTOR
    }

    fn runtime_class_name() -> &'static str {
        "MTLRenderPassAttachmentDescriptor"
    }

    proof fn declared() {
        reveal_strlit("MTLRenderPassAttachmentDescriptor");
    }
}

impl SubKind for MTLRenderPassAttachmentDescriptorPrototype {
    type Parent = NSObjectPrototype;

    proof fn parent_declared() {
    }
}

/// An owning handle to a `MTLRenderPassAttachmentDescriptor` object.
pub type MTLRenderPassAttachmentDescriptor = Owned<MTLRenderPassAttachmentDescriptorPrototype>;

/// The kind marker of the foreign `MTLRenderPassColorAttachmentDescriptor` class.
pub enum MTLRenderPassColorAttachmentDescriptorPrototype {
    Prototype,
}

impl Kind for MTLRenderPassColorAttachmentDescriptorPrototype {
    open spec fn class_id() -> u64 {
        CLS_MTL_RENDER_PASS_COLOR_ATTACHMENT_DESCRIPTOR
    }

    open spec fn class_name() -> Seq<char> {
        "MTLRenderPassColorAttachmentDescriptor"@
    }

    fn runtime_class() -> u64 {
        CLS_MTL_RENDER_PASS_COLOR_ATTACHMENT_DESCRIPTOR
    }

    fn runtime_class_name() -> &'static str {
        "MTLRenderPassColorAttachmentDescriptor"
    }

    proof fn declared() {
        reveal_strlit("MTLRenderPassColorAttachmentDescriptor");
    }
}

impl SubKind for MTLRenderPassColorAttachmentDescriptorPrototype {
    type Parent = MTLRenderPassAttachmentDescriptorPrototype;

    proof fn parent_declared() {
    }
}

/// An owning handle to a `MTLRenderPassColorAttachmentDescriptor` object.
pub type MTLRenderPassColorAttachmentDescriptor = Owned<MTLRenderPassColorAttachmentDescriptorPrototype>;

/// The kind marker of the foreign `MTLRenderPassDepthAttachmentDescriptor` class.
pub enum MTLRenderPassDepthAttachmentDescriptorPrototype {
    Prototype,
}

impl Kind for MTLRenderPassDepthAttachmentDescriptorPrototype {
    open spec fn class_id() -> u64 {
        CLS_MTL_RENDER_PASS_DEPTH_ATTACHMENT_DESCRIPTOR
    }

    open spec fn class_name() -> Seq<char> {
        "MTLRenderPassDepthAttachmentDescriptor"@
    }

    fn runtime_class() -> u64 {
        CLS_MTL_RENDER_PASS_DEPTH_ATTACHMENT_DESCRIPTOR
    }

    fn runtime_class_name() -> &'static str {
        "MTLRenderPassDepthAttachmentDescriptor"
    }

    proof fn declared() {
        reveal_strlit("MTLRenderPassDepthAttachmentDescriptor");
    }
}

impl SubKind for MTLRenderPassDepthAttachmentDescriptorPrototype {
    type Parent = MTLRenderPassAttachmentDescriptorPrototype;

    proof fn parent_declared() {
    }
}

/// An owning handle to a `MTLRenderPassDepthAttachmentDescriptor` object.
pub type MTLRenderPassDepthAttachmentDescriptor = Owned<MTLRenderPassDepthAttachmentDescriptorPrototype>;

/// The kind marker of the foreign `MTLRenderPassStencilAttachmentDescriptor` class.
pub enum MTLRenderPassStencilAttachmentDescriptorPrototype {
    Prototype,
}

impl Kind for MTLRenderPassStencilAttachmentDescriptorPrototype {
    open spec fn class_id() -> u64 {
        CLS_MTL_RENDER_PASS_STENCIL_ATTACHMENT_DESCRIPTOR
    }

    open spec fn class_name() -> Seq<char> {
        "MTLRenderPassStencilAttachmentDescriptor"@
    }

    fn runtime_class() -> u64 {
        CLS_MTL_RENDER_PASS_STENCIL_ATTACHMENT_DESCRIPTOR
    }

    fn runtime_class_name() -> &'static str {
        "MTLRenderPassStencilAttachmentDescriptor"
    }

    proof fn declared() {
        reveal_strlit("MTLRenderPassStencilAttachmentDescriptor");
    }
}

impl SubKind for MTLRenderPassStencilAttachmentDescriptorPrototype {
    type Parent = MTLRenderPassAttachmentDescriptorPrototype;

    proof fn parent_declared() {
    }
}

/// An owning handle to a `MTLRenderPassStencilAttachmentDescriptor` object.
pub type MTLRenderPassStencilAttachmentDescriptor = Owned<MTLRenderPassStencilAttachmentDescriptorPrototype>;

/// The kind marker of the foreign `MTLRenderPassColorAttachmentDescriptorArray` class.
pub enum MTLRenderPassColorAttachmentDescriptorArrayPrototype {
    Prototype,
}

impl Kind for MTLRenderPassColorAttachmentDescriptorArrayPrototype {
    open spec fn class_id() -> u64 {
        CLS_MTL_RENDER_PASS_COLOR_ATTACHMENT_DESCRIPTOR_ARRAY
    }

    open spec fn class_name() -> Seq<char> {
        "MTLRenderPassColorAttachmentDescriptorArray"@
    }

    fn runtime_class() -> u64 {
        CLS_MTL_RENDER_PASS_COLOR_ATTACHMENT_DESCRIPTOR_ARRAY
    }

    fn runtime_class_name() -> &'static str {
        "MTLRenderPassColorAttachmentDescriptorArray"
    }

    proof fn declared() {
        reveal_strlit("MTLRenderPassColorAttachmentDescriptorArray");
    }
}

impl SubKind for MTLRenderPassColorAttachmentDescriptorArrayPrototype {
    type Parent = NSObjectPrototype;

    proof fn parent_declared() {
    }
}

/// An owning handle to a `MTLRenderPassColorAttachmentDescriptorArray` object.
pub type MTLRenderPassColorAttachmentDescriptorArray = Owned<MTLRenderPassColorAttachmentDescriptorArrayPrototype>;

/// The kind marker of the foreign `MTLRenderPassDescriptor` class.
pub enum MTLRenderPassDescriptorPrototype {
    Prototype,
}

impl Kind for MTLRenderPassDescriptorPrototype {
    open spec fn class_id() -> u64 {
        CLS_MTL_RENDER_PASS_DESCRIPTOR
    }

    open spec fn class_name() -> Seq<char> {
        "MTLRenderPassDescriptor"@
    }

    fn runtime_class() -> u64 {
        CLS_MTL_RENDER_PASS_DESCRIPTOR
    }

    fn runtime_class_name() -> &'static str {
        "MTLRenderPassDescriptor"
    }

    proof fn declared() {
        reveal_strlit("MTLRenderPassDescriptor");
    }
}

impl SubKind for MTLRenderPassDescriptorPrototype {
    type Parent = NSObjectPrototype;

    proof fn parent_declared() {
    }
}

/// An owning handle to a `MTLRenderPassDescriptor` object.
pub type MTLRenderPassDescriptor = Owned<MTLRenderPassDescriptorPrototype>;

} // verus!
