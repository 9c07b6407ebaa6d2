//! Sampler vocabulary.

use vstd::prelude::*;

use crate::bridge::Owned;
use crate::kind::CLS_MTL_SAMPLER_DESCRIPTOR;
use crate::kind::CLS_MTL_SAMPLER_STATE;
use crate::kind::Kind;
use crate::kind::NSObjectPrototype;
use crate::kind::SubKind;
use crate::protocol::Labeled;

verus! {

/// Mirrors the foreign `MTLSamplerMinMagFilter` enumeration.
#[derive(Clone, Copy, Debug, PartialEq, Eq, Structural)]
pub enum MTLSamplerMinMagFilter {
    Nearest,
    Linear,
}

/// Mirrors the foreign `MTLSamplerMipFilter` enumeration.
#[derive(Clone, Copy, Debug, PartialEq, Eq, Structural)]
pub enum MTLSamplerMipFilter {
    NotMipmapped,
    Nearest,
    Linear,
}

/// Mirrors the foreign `MTLSamplerAddressMode` enumeration.
#[derive(Clone, Copy, Debug, PartialEq, Eq, Structural)]
pub enum MTLSamplerAddressMode {
    ClampToEdge,
    MirrorClampToEdge,
    Repeat,
    MirrorRepeat,
    ClampToZero,
}

/// The kind marker of the foreign `MTLSamplerDescriptor` class.
pub enum MTLSamplerDescriptor {
    Prototype,
}

impl Kind for MTLSamplerDescriptor {
    open spec fn class_id() -> u64 {
        CLS_MTL_SAMPLER_DESCRIPTOR
    }

    open spec fn class_name() -> Seq<char> {
        "MTLSamplerDescriptor"@
    }

    fn runtime_class() -> u64 {
        CLS_MTL_SAMPLER_DESCRIPTOR
    }

    fn runtime_class_name() -> &'static str {
        "MTLSamplerDescriptor"
    }

    proof fn declared() {
        reveal_strlit("MTLSamplerDescriptor");
    }
}

impl SubKind for MTLSamplerDescriptor {
    type Parent = NSObjectPrototype;

    proof fn parent_declared() {
    }
}

/// An owning handle to a `MTLSamplerDescriptor` object.
pub type SamplerDescriptor = Owned<MTLSamplerDescriptor>;

/// The kind marker of the foreign `MTLSamplerState` class.
pub enum MTLSamplerState {
    Prototype,
}

impl Kind for MTLSamplerState {
    open spec fn class_id() -> u64 {
        CLS_MTL_SAMPLER_STATE
    }

    open spec fn class_name() -> Seq<char> {
        "MTLSamplerState"@
    }

    fn runtime_class() -> u64 {
        CLS_MTL_SAMPLER_STATE
    }

    fn runtime_class_name() -> &'static str {
        "MTLSamplerState"
    }

    proof fn declared() {
        reveal_strlit("MTLSamplerState");
    }
}

impl SubKind for MTLSamplerState {
    type Parent = NSObjectPrototype;

    proof fn parent_declared() {
    }
}

impl Labeled for MTLSamplerState {
}

/// An owning handle to a `MTLSamplerState` object.
pub type SamplerState = Owned<MTLSamplerState>;

} // verus!
