//! Resource heap vocabulary.

use vstd::prelude::*;

use crate::bridge::Owned;
use crate::kind::CLS_MTL_HEAP;
use crate::kind::CLS_MTL_HEAP_DESCRIPTOR;
use crate::kind::Kind;
use crate::kind::NSObjectPrototype;
use crate::kind::SubKind;
use crate::protocol::Labeled;

verus! {

/// The kind marker of the foreign `MTLHeap` class.
pub enum MTLHeapPrototype {
    Prototype,
}

impl Kind for MTLHeapPrototype {
    open spec fn class_id() -> u64 {
        CLS_MTL_HEAP
    }

    open spec fn class_name() -> Seq<char> {
        "MTLHeap"@
    }

    fn runtime_class() -> u64 {
        CLS_MTL_HEAP
    }

    fn runtime_class_name() -> &'static str {
        "MTLHeap"
    }

    proof fn declared() {
        reveal_strlit("MTLHeap");
    }
}

impl SubKind for MTLHeapPrototype {
    type Parent = NSObjectPrototype;

    proof fn parent_declared() {
    }
}

impl Labeled for MTLHeapPrototype {
}

/// An owning handle to a `MTLHeap` object.
pub type MTLHeap = Owned<MTLHeapPrototype>;

/// The kind marker of the foreign `MTLHeapDescriptor` class.
pub enum MTLHeapDescriptorPrototype {
    Prototype,
}

impl Kind for MTLHeapDescriptorPrototype {
    open spec fn class_id() -> u64 {
        CLS_MTL_HEAP_DESCRIPTOR
    }

    open spec fn class_name() -> Seq<char> {
        "MTLHeapDescriptor"@
    }

    fn runtime_class() -> u64 {
        CLS_MTL_HEAP_DESCRIPTOR
    }

    fn runtime_class_name() -> &'static str {
        "MTLHeapDescriptor"
    }

    proof fn declared() {
        reveal_strlit("MTLHeapDescriptor");
    }
}

impl SubKind for MTLHeapDescriptorPrototype {
    type Parent = NSObjectPrototype;

    proof fn parent_declared() {
    }
}

/// An owning handle to a `MTLHeapDescriptor` object.
pub type MTLHeapDescriptor = Owned<MTLHeapDescriptorPrototype>;

} // verus!
