//! Render pipeline vocabulary.

use vstd::prelude::*;

use crate::bridge::Owned;
use crate::kind::CLS_MTL_PIPELINE_BUFFER_DESCRIPTOR;
use crate::kind::CLS_MTL_PIPELINE_BUFFER_DESCRIPTOR_ARRAY;
use crate::kind::CLS_MTL_RENDER_PIPELINE_COLOR_ATTACHMENT_DESCRIPTOR;
use crate::kind::CLS_MTL_RENDER_PIPELINE_COLOR_ATTACHMENT_DESCRIPTOR_ARRAY;
use crate::kind::CLS_MTL_RENDER_PIPELINE_DESCRIPTOR;
use crate::kind::CLS_MTL_RENDER_PIPELINE_REFLECTION;
use crate::kind::CLS_MTL_RENDER_PIPELINE_STATE;
use crate::kind::Kind;
use crate::kind::NSObjectPrototype;
use crate::kind::SubKind;
use crate::protocol::Labeled;

verus! {

/// Mirrors the foreign `MTLBlendFactor` enumeration.
#[derive(Clone, Copy, Debug, PartialEq, Eq, Structural)]
pub enum MTLBlendFactor {
    Zero,
    One,
    SourceColor,
    OneMinusSourceColor,
    SourceAlpha,
    OneMinusSourceAlpha,
    DestinationColor,
    OneMinusDestinationColor,
    DestinationAlpha,
    OneMinusDestinationAlpha,
    SourceAlphaSaturated,
    BlendColor,
    OneMinusBlendColor,
    BlendAlpha,
    OneMinusBlendAlpha,
}

/// Mirrors the foreign `MTLBlendOperation` enumeration.
#[derive(Clone, Copy, Debug, PartialEq, Eq, Structural)]
pub enum MTLBlendOperation {
    Add,
    Subtract,
    ReverseSubtract,
    Min,
    Max,
}

/// Mirrors the foreign `MTLPrimitiveTopologyClass` enumeration.
#[derive(Clone, Copy, Debug, PartialEq, Eq, Structural)]
pub enum MTLPrimitiveTopologyClass {
    Unspecified,
    Point,
    Line,
    Triangle,
}

/// The kind marker of the foreign `MTLRenderPipelineColorAttachmentDescriptor` class.
pub enum MTLRenderPipelineColorAttachmentDescriptorPrototype {
    Prototype,
}

impl Kind for MTLRenderPipelineColorAttachmentDescriptorPrototype {
    open spec fn class_id() -> u64 {
        CLS_MTL_RENDER_PIPELINE_COLOR_ATTACHMENT_DESCRIPTOR
    }

    open spec fn class_name() -> Seq<char> {
        "MTLRenderPipelineColorAttachmentDescriptor"@
    }

    fn runtime_class() -> u64 {
        CLS_MTL_RENDER_PIPELINE_COLOR_ATTACHMENT_DESCRIPTOR
    }

    fn runtime_class_name() -> &'static str {
        "MTLRenderPipelineColorAttachmentDescriptor"
    }

    proof fn declared() {
        reveal_strlit("MTLRenderPipelineColorAttachmentDescriptor");
    }
}

impl SubKind for MTLRenderPipelineColorAttachmentDescriptorPrototype {
    type Parent = NSObjectPrototype;

    proof fn parent_declared() {
    }
}

/// An owning handle to a `MTLRenderPipelineColorAttachmentDescriptor` object.
pub type MTLRenderPipelineColorAttachmentDescriptor = Owned<MTLRenderPipelineColorAttachmentDescriptorPrototype>;

/// The kind marker of the foreign `MTLRenderPipelineReflection` class.
pub enum MTLRenderPipelineReflectionPrototype {
    Prototype,
}

impl Kind for MTLRenderPipelineReflectionPrototype {
    open spec fn class_id() -> u64 {
        CLS_MTL_RENDER_PIPELINE_REFLECTION
    }

    open spec fn class_name() -> Seq<char> {
        "MTLRenderPipelineReflection"@
    }

    fn runtime_class() -> u64 {
        CLS_MTL_RENDER_PIPELINE_REFLECTION
    }

    fn runtime_class_name() -> &'static str {
        "MTLRenderPipelineReflection"
    }

    proof fn declared() {
        reveal_strlit("MTLRenderPipelineReflection");
    }
}

impl SubKind for MTLRenderPipelineReflectionPrototype {
    type Parent = NSObjectPrototype;

    proof fn parent_declared() {
    }
}

/// An owning handle to a `MTLRenderPipelineReflection` object.
pub type MTLRenderPipelineReflection = Owned<MTLRenderPipelineReflectionPrototype>;

/// The kind marker of the foreign `MTLRenderPipelineDescriptor` class.
pub enum MTLRenderPipelineDescriptorPrototype {
    Prototype,
}

impl Kind for MTLRenderPipelineDescriptorPrototype {
    open spec fn class_id() -> u64 {
        CLS_MTL_RENDER_PIPELINE_DESCRIPTOR
    }

    open spec fn class_name() -> Seq<char> {
        "MTLRenderPipelineDescriptor"@
    }

    fn runtime_class() -> u64 {
        CLS_MTL_RENDER_PIPELINE_DESCRIPTOR
    }

    fn runtime_class_name() -> &'static str {
        "MTLRenderPipelineDescriptor"
    }

    proof fn declared() {
        reveal_strlit("MTLRenderPipelineDescriptor");
    }
}

impl SubKind for MTLRenderPipelineDescriptorPrototype {
    type Parent = NSObjectPrototype;

    proof fn parent_declared() {
    }
}

/// An owning handle to a `MTLRenderPipelineDescriptor` object.
pub type MTLRenderPipelineDescriptor = Owned<MTLRenderPipelineDescriptorPrototype>;

/// The kind marker of the foreign `MTLRenderPipelineState` class.
pub enum MTLRenderPipelineStatePrototype {
    Prototype,
}

impl Kind for MTLRenderPipelineStatePrototype {
    open spec fn class_id() -> u64 {
        CLS_MTL_RENDER_PIPELINE_STATE
    }

    open spec fn class_name() -> Seq<char> {
        "MTLRenderPipelineState"@
    }

    fn runtime_class() -> u64 {
        CLS_MTL_RENDER_PIPELINE_STATE
    }

    fn runtime_class_name() -> &'static str {
        "MTLRenderPipelineState"
    }

    proof fn declared() {
        reveal_strlit("MTLRenderPipelineState");
    }
}

impl SubKind for MTLRenderPipelineStatePrototype {
    type Parent = NSObjectPrototype;

    proof fn parent_declared() {
    }
}

impl Labeled for MTLRenderPipelineStatePrototype {
}

/// An owning handle to a `MTLRenderPipelineState` object.
pub type MTLRenderPipelineState = Owned<MTLRenderPipelineStatePrototype>;

/// The kind marker of the foreign `MTLRenderPipelineColorAttachmentDescriptorArray` class.
pub enum MTLRenderPipelineColorAttachmentDescriptorArrayPrototype {
    Prototype,
}

impl Kind for MTLRenderPipelineColorAttachmentDescriptorArrayPrototype {
    open spec fn class_id() -> u64 {
        CLS_MTL_RENDER_PIPELINE_COLOR_ATTACHMENT_DESCRIPTOR_ARRAY
    }

    open spec fn class_name() -> Seq<char> {
        "MTLRenderPipelineColorAttachmentDescriptorArray"@
    }

    fn runtime_class() -> u64 {
        CLS_MTL_RENDER_PIPELINE_COLOR_ATTACHMENT_DESCRIPTOR_ARRAY
    }

    fn runtime_class_name() -> &'static str {
        "MTLRenderPipelineColorAttachmentDescriptorArray"
    }

    proof fn declared() {
        reveal_strlit("MTLRenderPipelineColorAttachmentDescriptorArray");
    }
}

impl SubKind for MTLRenderPipelineColorAttachmentDescriptorArrayPrototype {
    type Parent = NSObjectPrototype;

    proof fn parent_declared() {
    }
}

/// An owning handle to a `MTLRenderPipelineColorAttachmentDescriptorArray` object.
pub type MTLRenderPipelineColorAttachmentDescriptorArray = Owned<MTLRenderPipelineColorAttachmentDescriptorArrayPrototype>;

/// The kind marker of the foreign `MTLPipelineBufferDescriptor` class.
pub enum MTLPipelineBufferDescriptor {
    Prototype,
}

impl Kind for MTLPipelineBufferDescriptor {
    open spec fn class_id() -> u64 {
        CLS_MTL_PIPELINE_BUFFER_DESCRIPTOR
    }

    open spec fn class_name() -> Seq<char> {
        "MTLPipelineBufferDescriptor"@
    }

    fn runtime_class() -> u64 {
        CLS_MTL_PIPELINE_BUFFER_DESCRIPTOR
    }

    fn runtime_class_name() -> &'static str {
        "MTLPipelineBufferDescriptor"
    }

    proof fn declared() {
        reveal_strlit("MTLPipelineBufferDescriptor");
    }
}

impl SubKind for MTLPipelineBufferDescriptor {
    type Parent = NSObjectPrototype;

    proof fn parent_declared() {
    }
}

/// The kind marker of the foreign `MTLPipelineBufferDescriptorArray` class.
pub enum MTLPipelineBufferDescriptorArray {
    Prototype,
}

impl Kind for MTLPipelineBufferDescriptorArray {
    open spec fn class_id() -> u64 {
        CLS_MTL_PIPELINE_BUFFER_DESCRIPTOR_ARRAY
    }

    open spec fn class_name() -> Seq<char> {
        "MTLPipelineBufferDescriptorArray"@
    }

    fn runtime_class() -> u64 {
        CLS_MTL_PIPELINE_BUFFER_DESCRIPTOR_ARRAY
    }

    fn runtime_class_name() -> &'static str {
        "MTLPipelineBufferDescriptorArray"
    }

    proof fn declared() {
        reveal_strlit("MTLPipelineBufferDescriptorArray");
    }
}

impl SubKind for MTLPipelineBufferDescriptorArray {
    type Parent = NSObjectPrototype;

    proof fn parent_declared() {
    }
}

} // verus!
