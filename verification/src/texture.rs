//! Texture vocabulary.

use vstd::prelude::*;

use crate::bridge::Owned;
use crate::kind::CLS_MTL_TEXTURE;
use crate::kind::CLS_MTL_TEXTURE_DESCRIPTOR;
use crate::kind::Kind;
use crate::kind::NSObjectPrototype;
use crate::kind::SubKind;
use crate::protocol::Labeled;
use crate::resource::MTLResourcePrototype;

verus! {

/// Mirrors the foreign `MTLTextureType` enumeration.
#[derive(Clone, Copy, Debug, PartialEq, Eq, Structural)]
pub enum MTLTextureType {
    D1,
    D1Array,
    D2,
    D2Array,
    D2Multisample,
    Cube,
    CubeArray,
    D3,
}

/// The kind marker of the foreign `MTLTextureDescriptor` class.
pub enum MTLTextureDescriptorPrototype {
    Prototype,
}

impl Kind for MTLTextureDescriptorPrototype {
    open spec fn class_id() -> u64 {
        CLS_MTL_TEXTURE_DESCRIPTOR
    }

    open spec fn class_name() -> Seq<char> {
        "MTLTextureDescriptor"@
    }

    fn runtime_class() -> u64 {
        CLS_MTL_TEXTURE_DESCRIPTOR
    }

    fn runtime_class_name() -> &'static str {
        "MTLTextureDescriptor"
    }

    proof fn declared() {
        reveal_strlit("MTLTextureDescriptor");
    }
}

impl SubKind for MTLTextureDescriptorPrototype {
    type Parent = NSObjectPrototype;

    proof fn parent_declared() {
    }
}

/// An owning handle to a `MTLTextureDescriptor` object.
pub type MTLTextureDescriptor = Owned<MTLTextureDescriptorPrototype>;

/// The kind marker of the foreign `MTLTexture` class.
pub enum MTLTexturePrototype {
    Prototype,
}

impl Kind for MTLTexturePrototype {
    open spec fn class_id() -> u64 {
        CLS_MTL_TEXTURE
    }

    open spec fn class_name() -> Seq<char> {
        "MTLTexture"@
    }

    fn runtime_class() -> u64 {
        CLS_MTL_TEXTURE
    }

    fn runtime_class_name() -> &'static str {
        "MTLTexture"
    }

    proof fn declared() {
        reveal_strlit("MTLTexture");
    }
}

impl SubKind for MTLTexturePrototype {
    type Parent = MTLResourcePrototype;

    proof fn parent_declared() {
    }
}

impl Labeled for MTLTexturePrototype {
}

/// An owning handle to a `MTLTexture` object.
pub type MTLTexture = Owned<MTLTexturePrototype>;

} // verus!
