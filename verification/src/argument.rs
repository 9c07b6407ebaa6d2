//! Shader argument reflection vocabulary.

use vstd::prelude::*;

use crate::bridge::Owned;
use crate::kind::CLS_MTL_ARGUMENT;
use crate::kind::CLS_MTL_ARRAY_TYPE;
use crate::kind::CLS_MTL_STRUCT_MEMBER;
use crate::kind::CLS_MTL_STRUCT_TYPE;
use crate::kind::Kind;
use crate::kind::NSObjectPrototype;
use crate::kind::SubKind;

verus! {

/// Mirrors the foreign `MTLDataType` enumeration.
#[derive(Clone, Copy, Debug, PartialEq, Eq, Structural)]
pub enum MTLDataType {
    NoType,
    Struct,
    Array,
    Float,
    Float2,
    Float3,
    Float4,
    Float2x2,
    Float2x3,
    Float2x4,
    Float3x2,
    Float3x3,
    Float3x4,
    Float4x2,
    Float4x3,
    Float4x4,
    Half,
    Half2,
    Half3,
    Half4,
    Half2x2,
    Half2x3,
    Half2x4,
    Half3x2,
    Half3x3,
    Half3x4,
    Half4x2,
    Half4x3,
    Half4x4,
    Int,
    Int2,
    Int3,
    Int4,
    UInt,
    UInt2,
    UInt3,
    UInt4,
    Short,
    Short2,
    Short3,
    Short4,
    UShort,
    UShort2,
    UShort3,
    UShort4,
    Char,
    Char2,
    Char3,
    Char4,
    UChar,
    UChar2,
    UChar3,
    UChar4,
    Bool,
    Bool2,
    Bool3,
    Bool4,
}

/// Mirrors the foreign `MTLArgumentType` enumeration.
#[derive(Clone, Copy, Debug, PartialEq, Eq, Structural)]
pub enum MTLArgumentType {
    Buffer,
    ThreadgroupMemory,
    Texture,
    Sampler,
}

/// Mirrors the foreign `MTLArgumentAccess` enumeration.
#[derive(Clone, Copy, Debug, PartialEq, Eq, Structural)]
pub enum MTLArgumentAccess {
    ReadOnly,
    ReadWrite,
    WriteOnly,
}

/// The kind marker of the foreign `MTLStructMember` class.
pub enum MTLStructMemberPrototype {
    Prototype,
}

impl Kind for MTLStructMemberPrototype {
    open spec fn class_id() -> u64 {
        CLS_MTL_STRUCT_MEMBER
    }

    open spec fn class_name() -> Seq<char> {
        "MTLStructMember"@
    }

    fn runtime_class() -> u64 {
        CLS_MTL_STRUCT_MEMBER
    }

    fn runtime_class_name() -> &'static str {
        "MTLStructMember"
    }

    proof fn declared() {
        reveal_strlit("MTLStructMember");
    }
}

impl SubKind for MTLStructMemberPrototype {
    type Parent = NSObjectPrototype;

    proof fn parent_declared() {
    }
}

/// An owning handle to a `MTLStructMember` object.
pub type MTLStructMember = Owned<MTLStructMemberPrototype>;

/// The kind marker of the foreign `MTLStructType` class.
pub enum MTLStructTypePrototype {
    Prototype,
}

impl Kind for MTLStructTypePrototype {
    open spec fn class_id() -> u64 {
        CLS_MTL_STRUCT_TYPE
    }

    open spec fn class_name() -> Seq<char> {
        "MTLStructType"@
    }

    fn runtime_class() -> u64 {
        CLS_MTL_STRUCT_TYPE
    }

    fn runtime_class_name() -> &'static str {
        "MTLStructType"
    }

    proof fn declared() {
        reveal_strlit("MTLStructType");
    }
}

impl SubKind for MTLStructTypePrototype {
    type Parent = NSObjectPrototype;

    proof fn parent_declared() {
    }
}

/// An owning handle to a `MTLStructType` object.
pub type MTLStructType = Owned<MTLStructTypePrototype>;

/// The kind marker of the foreign `MTLArrayType` class.
pub enum MTLArrayTypePrototype {
    Prototype,
}

impl Kind for MTLArrayTypePrototype {
    open spec fn class_id() -> u64 {
        CLS_MTL_ARRAY_TYPE
    }

    open spec fn class_name() -> Seq<char> {
        "MTLArrayType"@
    }

    fn runtime_class() -> u64 {
        CLS_MTL_ARRAY_TYPE
    }

    fn runtime_class_name() -> &'static str {
        "MTLArrayType"
    }

    proof fn declared() {
        reveal_strlit("MTLArrayType");
    }
}

impl SubKind for MTLArrayTypePrototype {
    type Parent = NSObjectPrototype;

    proof fn parent_declared() {
    }
}

/// An owning handle to a `MTLArrayType` object.
pub type MTLArrayType = Owned<MTLArrayTypePrototype>;

/// The kind marker of the foreign `MTLArgument` class.
pub enum MTLArgumentPrototype {
    Prototype,
}

impl Kind for MTLArgumentPrototype {
    open spec fn class_id() -> u64 {
        CLS_MTL_ARGUMENT
    }

    open spec fn class_name() -> Seq<char> {
        "MTLArgument"@
    }

    fn runtime_class() -> u64 {
        CLS_MTL_ARGUMENT
    }

    fn runtime_class_name() -> &'static str {
        "MTLArgument"
    }

    proof fn declared() {
        reveal_strlit("MTLArgument");
    }
}

impl SubKind for MTLArgumentPrototype {
    type Parent = NSObjectPrototype;

    proof fn parent_declared() {
    }
}

/// An owning handle to a `MTLArgument` object.
pub type MTLArgument = Owned<MTLArgumentPrototype>;

} // verus!
