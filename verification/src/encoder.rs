//! Command encoder vocabulary.

use vstd::prelude::*;

use crate::kind::CLS_MTL_ARGUMENT_ENCODER;
use crate::kind::CLS_MTL_BLIT_COMMAND_ENCODER;
use crate::kind::CLS_MTL_COMMAND_ENCODER;
use crate::kind::CLS_MTL_COMPUTE_COMMAND_ENCODER;
use crate::kind::CLS_MTL_PARALLEL_RENDER_COMMAND_ENCODER;
use crate::kind::CLS_MTL_RENDER_COMMAND_ENCODER;
use crate::kind::Kind;
use crate::kind::NSObjectPrototype;
use crate::kind::SubKind;
use crate::protocol::Labeled;

verus! {

/// Mirrors the foreign `MTLPrimitiveType` enumeration.
#[derive(Clone, Copy, Debug, PartialEq, Eq, Structural)]
pub enum MTLPrimitiveType {
    Point,
    Line,
    LineStrip,
    Triangle,
    TriangleStrip,
}

/// Mirrors the foreign `MTLIndexType` enumeration.
#[derive(Clone, Copy, Debug, PartialEq, Eq, Structural)]
pub enum MTLIndexType {
    UInt16,
    UInt32,
}

/// Mirrors the foreign `MTLVisibilityResultMode` enumeration.
#[derive(Clone, Copy, Debug, PartialEq, Eq, Structural)]
pub enum MTLVisibilityResultMode {
    Disabled,
    Boolean,
    Counting,
}

/// Mirrors the foreign `MTLCullMode` enumeration.
#[derive(Clone, Copy, Debug, PartialEq, Eq, Structural)]
pub enum MTLCullMode {
    NoCulling,
    Front,
    Back,
}

/// Mirrors the foreign `MTLWinding` enumeration.
#[derive(Clone, Copy, Debug, PartialEq, Eq, Structural)]
pub enum MTLWinding {
    Clockwise,
    CounterClockwise,
}

/// Mirrors the foreign `MTLDepthClipMode` enumeration.
#[derive(Clone, Copy, Debug, PartialEq, Eq, Structural)]
pub enum MTLDepthClipMode {
    Clip,
    Clamp,
}

/// Mirrors the foreign `MTLTriangleFillMode` enumeration.
#[derive(Clone, Copy, Debug, PartialEq, Eq, Structural)]
pub enum MTLTriangleFillMode {
    Fill,
    Lines,
}

/// The argument layout of an indirect non-indexed draw, laid out as the
/// foreign runtime expects it.
#[derive(Clone, Copy, Debug, PartialEq, Eq, Structural)]
pub struct MTLDrawPrimitivesIndirectArguments {
    pub vertexCount: u32,
    pub instanceCount: u32,
    pub vertexStart: u32,
    pub baseInstance: u32,
}

/// The argument layout of an indirect indexed draw.
#[derive(Clone, Copy, Debug, PartialEq, Eq, Structural)]
pub struct MTLDrawIndexedPrimitivesIndirectArguments {
    pub indexCount: u32,
    pub instanceCount: u32,
    pub indexStart: u32,
    pub baseVertex: i32,
    pub baseInstance: u32,
}

/// The kind marker of the foreign `MTLCommandEncoder` class.
pub enum MTLCommandEncoder {
    Prototype,
}

impl Kind for MTLCommandEncoder {
    open spec fn class_id() -> u64 {
        CLS_MTL_COMMAND_ENCODER
    }

    open spec fn class_name() -> Seq<char> {
        "MTLCommandEncoder"@
    }

    fn runtime_class() -> u64 {
        CLS_MTL_COMMAND_ENCODER
    }

    fn runtime_class_name() -> &'static str {
        "MTLCommandEncoder"
    }

    proof fn declared() {
        reveal_strlit("MTLCommandEncoder");
    }
}

impl SubKind for MTLCommandEncoder {
    type Parent = NSObjectPrototype;

    proof fn parent_declared() {
    }
}

impl Labeled for MTLCommandEncoder {
}

/// The kind marker of the foreign `MTLParallelRenderCommandEncoder` class.
pub enum MTLParallelRenderCommandEncoder {
    Prototype,
}

impl Kind for MTLParallelRenderCommandEncoder {
    open spec fn class_id() -> u64 {
        CLS_MTL_PARALLEL_RENDER_COMMAND_ENCODER
    }

    open spec fn class_name() -> Seq<char> {
        "MTLParallelRenderCommandEncoder"@
    }

    fn runtime_class() -> u64 {
        CLS_MTL_PARALLEL_RENDER_COMMAND_ENCODER
    }

    fn runtime_class_name() -> &'static str {
        "MTLParallelRenderCommandEncoder"
    }

    proof fn declared() {
        reveal_strlit("MTLParallelRenderCommandEncoder");
    }
}

impl SubKind for MTLParallelRenderCommandEncoder {
    type Parent = MTLCommandEncoder;

    proof fn parent_declared() {
    }
}

impl Labeled for MTLParallelRenderCommandEncoder {
}

/// The kind marker of the foreign `MTLRenderCommandEncoder` class.
pub enum MTLRenderCommandEncoder {
    Prototype,
}

impl Kind for MTLRenderCommandEncoder {
    open spec fn class_id() -> u64 {
        CLS_MTL_RENDER_COMMAND_ENCODER
    }

    open spec fn class_name() -> Seq<char> {
        "MTLRenderCommandEncoder"@
    }

    fn runtime_class() -> u64 {
        CLS_MTL_RENDER_COMMAND_ENCODER
    }

    fn runtime_class_name() -> &'static str {
        "MTLRenderCommandEncoder"
    }

    proof fn declared() {
        reveal_strlit("MTLRenderCommandEncoder");
    }
}

impl SubKind for MTLRenderCommandEncoder {
    type Parent = MTLCommandEncoder;

    proof fn parent_declared() {
    }
}

impl Labeled for MTLRenderCommandEncoder {
}

/// The kind marker of the foreign `MTLBlitCommandEncoder` class.
pub enum MTLBlitCommandEncoder {
    Prototype,
}

impl Kind for MTLBlitCommandEncoder {
    open spec fn class_id() -> u64 {
        CLS_MTL_BLIT_COMMAND_ENCODER
    }

    open spec fn class_name() -> Seq<char> {
        "MTLBlitCommandEncoder"@
    }

    fn runtime_class() -> u64 {
        CLS_MTL_BLIT_COMMAND_ENCODER
    }

    fn runtime_class_name() -> &'static str {
        "MTLBlitCommandEncoder"
    }

    proof fn declared() {
        reveal_strlit("MTLBlitCommandEncoder");
    }
}

impl SubKind for MTLBlitCommandEncoder {
    type Parent = MTLCommandEncoder;

    proof fn parent_declared() {
    }
}

impl Labeled for MTLBlitCommandEncoder {
}

/// The kind marker of the foreign `MTLComputeCommandEncoder` class.
pub enum MTLComputeCommandEncoder {
    Prototype,
}

impl Kind for MTLComputeCommandEncoder {
    open spec fn class_id() -> u64 {
        CLS_MTL_COMPUTE_COMMAND_ENCODER
    }

    open spec fn class_name() -> Seq<char> {
        "MTLComputeCommandEncoder"@
    }

    fn runtime_class() -> u64 {
        CLS_MTL_COMPUTE_COMMAND_ENCODER
    }

    fn runtime_class_name() -> &'static str {
        "MTLComputeCommandEncoder"
    }

    proof fn declared() {
        reveal_strlit("MTLComputeCommandEncoder");
    }
}

impl SubKind for MTLComputeCommandEncoder {
    type Parent = MTLCommandEncoder;

    proof fn parent_declared() {
    }
}

impl Labeled for MTLComputeCommandEncoder {
}

/// The kind marker of the foreign `MTLArgumentEncoder` class.
pub enum MTLArgumentEncoder {
    Prototype,
}

impl Kind for MTLArgumentEncoder {
    open spec fn class_id() -> u64 {
        CLS_MTL_ARGUMENT_ENCODER
    }

    open spec fn class_name() -> Seq<char> {
        "MTLArgumentEncoder"@
    }

    fn runtime_class() -> u64 {
        CLS_MTL_ARGUMENT_ENCODER
    }

    fn runtime_class_name() -> &'static str {
        "MTLArgumentEncoder"
    }

    proof fn declared() {
        reveal_strlit("MTLArgumentEncoder");
    }
}

impl SubKind for MTLArgumentEncoder {
    type Parent = NSObjectPrototype;

    proof fn parent_declared() {
    }
}

impl Labeled for MTLArgumentEncoder {
}

} // verus!
