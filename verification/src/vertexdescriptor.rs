//! Vertex descriptor vocabulary.

use vstd::prelude::*;

use crate::bridge::Owned;
use crate::kind::CLS_MTL_VERTEX_ATTRIBUTE_DESCRIPTOR;
use crate::kind::CLS_MTL_VERTEX_ATTRIBUTE_DESCRIPTOR_ARRAY;
use crate::kind::CLS_MTL_VERTEX_BUFFER_LAYOUT_DESCRIPTOR;
use crate::kind::CLS_MTL_VERTEX_BUFFER_LAYOUT_DESCRIPTOR_ARRAY;
use crate::kind::CLS_MTL_VERTEX_DESCRIPTOR;
use crate::kind::Kind;
use crate::kind::NSObjectPrototype;
use crate::kind::SubKind;

verus! {

/// Mirrors the foreign `MTLVertexFormat` enumeration.
#[derive(Clone, Copy, Debug, PartialEq, Eq, Structural)]
pub enum MTLVertexFormat {
    Invalid,
    UChar2,
    UChar3,
    UChar4,
    Char2,
    Char3,
    Char4,
    UChar2Normalized,
    UChar3Normalized,
    UChar4Normalized,
    Char2Normalized,
    Char3Normalized,
    Char4Normalized,
    UShort2,
    UShort3,
    UShort4,
    Short2,
    Short3,
    Short4,
    UShort2Normalized,
    UShort3Normalized,
    UShort4Normalized,
    Short2Normalized,
    Short3Normalized,
    Short4Normalized,
    Half2,
    Half3,
    Half4,
    Float,
    Float2,
    Float3,
    Float4,
    Int,
    Int2,
    Int3,
    Int4,
    UInt,
    UInt2,
    UInt3,
    UInt4,
    Int1010102Normalized,
    UInt1010102Normalized,
}

/// Mirrors the foreign `MTLVertexStepFunction` enumeration.
#[derive(Clone, Copy, Debug, PartialEq, Eq, Structural)]
pub enum MTLVertexStepFunction {
    Constant,
    PerVertex,
    PerInstance,
}

/// The kind marker of the foreign `MTLVertexBufferLayoutDescriptor` class.
pub enum MTLVertexBufferLayoutDescriptorPrototype {
    Prototype,
}

impl Kind for MTLVertexBufferLayoutDescriptorPrototype {
    open spec fn class_id() -> u64 {
        CLS_MTL_VERTEX_BUFFER_LAYOUT_DESCRIPTOR
    }

    open spec fn class_name() -> Seq<char> {
        "MTLVertexBufferLayoutDescriptor"@
    }

    fn runtime_class() -> u64 {
        CLS_MTL_VERTEX_BUFFER_LAYOUT_DESCRIPTOR
    }

    fn runtime_class_name() -> &'static str {
        "MTLVertexBufferLayoutDescriptor"
    }

    proof fn declared() {
        reveal_strlit("MTLVertexBufferLayoutDescriptor");
    }
}

impl SubKind for MTLVertexBufferLayoutDescriptorPrototype {
    type Parent = NSObjectPrototype;

    proof fn parent_declared() {
    }
}

/// An owning handle to a `MTLVertexBufferLayoutDescriptor` object.
pub type MTLVertexBufferLayoutDescriptor = Owned<MTLVertexBufferLayoutDescriptorPrototype>;

/// The kind marker of the foreign `MTLVertexBufferLayoutDescriptorArray` class.
pub enum MTLVertexBufferLayoutDescriptorArrayPrototype {
    Prototype,
}

impl Kind for MTLVertexBufferLayoutDescriptorArrayPrototype {
    open spec fn class_id() -> u64 {
        CLS_MTL_VERTEX_BUFFER_LAYOUT_DESCRIPTOR_ARRAY
    }

    open spec fn class_name() -> Seq<char> {
        "MTLVertexBufferLayoutDescriptorArray"@
    }

    fn runtime_class() -> u64 {
        CLS_MTL_VERTEX_BUFFER_LAYOUT_DESCRIPTOR_ARRAY
    }

    fn runtime_class_name() -> &'static str {
        "MTLVertexBufferLayoutDescriptorArray"
    }

    proof fn declared() {
        reveal_strlit("MTLVertexBufferLayoutDescriptorArray");
    }
}

impl SubKind for MTLVertexBufferLayoutDescriptorArrayPrototype {
    type Parent = NSObjectPrototype;

    proof fn parent_declared() {
    }
}

/// An owning handle to a `MTLVertexBufferLayoutDescriptorArray` object.
pub type MTLVertexBufferLayoutDescriptorArray = Owned<MTLVertexBufferLayoutDescriptorArrayPrototype>;

/// The kind marker of the foreign `MTLVertexAttributeDescriptor` class.
pub enum MTLVertexAttributeDescriptorPrototype {
    Prototype,
}

impl Kind for MTLVertexAttributeDescriptorPrototype {
    open spec fn class_id() -> u64 {
        CLS_MTL_VERTEX_ATTRIBUTE_DESCRIPTOR
    }

    open spec fn class_name() -> Seq<char> {
        "MTLVertexAttributeDescriptor"@
    }

    fn runtime_class() -> u64 {
        CLS_MTL_VERTEX_ATTRIBUTE_DESCRIPTOR
    }

    fn runtime_class_name() -> &'static str {
        "MTLVertexAttributeDescriptor"
    }

    proof fn declared() {
        reveal_strlit("MTLVertexAttributeDescriptor");
    }
}

impl SubKind for MTLVertexAttributeDescriptorPrototype {
    type Parent = NSObjectPrototype;

    proof fn parent_declared() {
    }
}

/// An owning handle to a `MTLVertexAttributeDescriptor` object.
pub type MTLVertexAttributeDescriptor = Owned<MTLVertexAttributeDescriptorPrototype>;

/// The kind marker of the foreign `MTLVertexAttributeDescriptorArray` class.
pub enum MTLVertexAttributeDescriptorArrayPrototype {
    Prototype,
}

impl Kind for MTLVertexAttributeDescriptorArrayPrototype {
    open spec fn class_id() -> u64 {
        CLS_MTL_VERTEX_ATTRIBUTE_DESCRIPTOR_ARRAY
    }

    open spec fn class_name() -> Seq<char> {
        "MTLVertexAttributeDescriptorArray"@
    }

    fn runtime_class() -> u64 {
        CLS_MTL_VERTEX_ATTRIBUTE_DESCRIPTOR_ARRAY
    }

    fn runtime_class_name() -> &'static str {
        "MTLVertexAttributeDescriptorArray"
    }

    proof fn declared() {
        reveal_strlit("MTLVertexAttributeDescriptorArray");
    }
}

impl SubKind for MTLVertexAttributeDescriptorArrayPrototype {
    type Parent = NSObjectPrototype;

    proof fn parent_declared() {
    }
}

/// An owning handle to a `MTLVertexAttributeDescriptorArray` object.
pub type MTLVertexAttributeDescriptorArray = Owned<MTLVertexAttributeDescriptorArrayPrototype>;

/// The kind marker of the foreign `MTLVertexDescriptor` class.
pub enum MTLVertexDescriptorPrototype {
    Prototype,
}

impl Kind for MTLVertexDescriptorPrototype {
    open spec fn class_id() -> u64 {
        CLS_MTL_VERTEX_DESCRIPTOR
    }

    open spec fn class_name() -> Seq<char> {
        "MTLVertexDescriptor"@
    }

    fn runtime_class() -> u64 {
        CLS_MTL_VERTEX_DESCRIPTOR
    }

    fn runtime_class_name() -> &'static str {
        "MTLVertexDescriptor"
    }

    proof fn declared() {
        reveal_strlit("MTLVertexDescriptor");
    }
}

impl SubKind for MTLVertexDescriptorPrototype {
    type Parent = NSObjectPrototype;

    proof fn parent_declared() {
    }
}

/// An owning handle to a `MTLVertexDescriptor` object.
pub type MTLVertexDescriptor = Owned<MTLVertexDescriptorPrototype>;

} // verus!
