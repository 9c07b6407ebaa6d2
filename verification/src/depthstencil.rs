//! Depth and stencil state vocabulary.

use vstd::prelude::*;

use crate::bridge::Owned;
use crate::kind::CLS_MTL_DEPTH_STENCIL_DESCRIPTOR;
use crate::kind::CLS_MTL_DEPTH_STENCIL_STATE;
use crate::kind::CLS_MTL_STENCIL_DESCRIPTOR;
use crate::kind::Kind;
use crate::kind::NSObjectPrototype;
use crate::kind::SubKind;
use crate::protocol::Labeled;

verus! {

/// Mirrors the foreign `MTLCompareFunction` enumeration.
#[derive(Clone, Copy, Debug, PartialEq, Eq, Structural)]
pub enum MTLCompareFunction {
    Never,
    Less,
    Equal,
    LessEqual,
    Greater,
    NotEqual,
    GreaterEqual,
    Always,
}

/// Mirrors the foreign `MTLStencilOperation` enumeration.
#[derive(Clone, Copy, Debug, PartialEq, Eq, Structural)]
pub enum MTLStencilOperation {
    Keep,
    Zero,
    Replace,
    IncrementClamp,
    DecrementClamp,
    Invert,
    IncrementWrap,
    DecrementWrap,
}

/// The kind marker of the foreign `MTLStencilDescriptor` class.
pub enum MTLStencilDescriptorPrototype {
    Prototype,
}

impl Kind for MTLStencilDescriptorPrototype {
    open spec fn class_id() -> u64 {
        CLS_MTL_STENCIL_DESCRIPTOR
    }

    open spec fn class_name() -> Seq<char> {
        "MTLStencilDescriptor"@
    }

    fn runtime_class() -> u64 {
        CLS_MTL_STENCIL_DESCRIPTOR
    }

    fn runtime_class_name() -> &'static str {
        "MTLStencilDescriptor"
    }

    proof fn declared() {
        reveal_strlit("MTLStencilDescriptor");
    }
}

impl SubKind for MTLStencilDescriptorPrototype {
    type Parent = NSObjectPrototype;

    proof fn parent_declared() {
    }
}

/// An owning handle to a `MTLStencilDescriptor` object.
pub type MTLStencilDescriptor = Owned<MTLStencilDescriptorPrototype>;

/// The kind marker of the foreign `MTLDepthStencilDescriptor` class.
pub enum MTLDepthStencilDescriptorPrototype {
    Prototype,
}

impl Kind for MTLDepthStencilDescriptorPrototype {
    open spec fn class_id() -> u64 {
        CLS_MTL_DEPTH_STENCIL_DESCRIPTOR
    }

    open spec fn class_name() -> Seq<char> {
        "MTLDepthStencilDescriptor"@
    }

    fn runtime_class() -> u64 {
        CLS_MTL_DEPTH_STENCIL_DESCRIPTOR
    }

    fn runtime_class_name() -> &'static str {
        "MTLDepthStencilDescriptor"
    }

    proof fn declared() {
        reveal_strlit("MTLDepthStencilDescriptor");
    }
}

impl SubKind for MTLDepthStencilDescriptorPrototype {
    type Parent = NSObjectPrototype;

    proof fn parent_declared() {
    }
}

/// An owning handle to a `MTLDepthStencilDescriptor` object.
pub type MTLDepthStencilDescriptor = Owned<MTLDepthStencilDescriptorPrototype>;

/// The kind marker of the foreign `MTLDepthStencilState` class.
pub enum MTLDepthStencilStatePrototype {
    Prototype,
}

impl Kind for MTLDepthStencilStatePrototype {
    open spec fn class_id() -> u64 {
        CLS_MTL_DEPTH_STENCIL_STATE
    }

    open spec fn class_name() -> Seq<char> {
        "MTLDepthStencilState"@
    }

    fn runtime_class() -> u64 {
        CLS_MTL_DEPTH_STENCIL_STATE
    }

    fn runtime_class_name() -> &'static str {
        "MTLDepthStencilState"
    }

    proof fn declared() {
        reveal_strlit("MTLDepthStencilState");
    }
}

impl SubKind for MTLDepthStencilStatePrototype {
    type Parent = NSObjectPrototype;

    proof fn parent_declared() {
    }
}

impl Labeled for MTLDepthStencilStatePrototype {
}

/// An owning handle to a `MTLDepthStencilState` object.
pub type MTLDepthStencilState = Owned<MTLDepthStencilStatePrototype>;

} // verus!
