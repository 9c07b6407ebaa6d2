//! Input/output file handle vocabulary.

use vstd::prelude::*;

use crate::bridge::Owned;
use crate::kind::CLS_MTL_IO_FILE_HANDLE;
use crate::kind::Kind;
use crate::kind::NSObjectPrototype;
use crate::kind::SubKind;

verus! {

/// The kind marker of the foreign `MTLIOFileHandle` class.
pub enum MTLIOFileHandle {
    Prototype,
}

impl Kind for MTLIOFileHandle {
    open spec fn class_id() -> u64 {
        CLS_MTL_IO_FILE_HANDLE
    }

    open spec fn class_name() -> Seq<char> {
        "MTLIOFileHandle"@
    }

    fn runtime_class() -> u64 {
        CLS_MTL_IO_FILE_HANDLE
    }

    fn runtime_class_name() -> &'static str {
        "MTLIOFileHandle"
    }

    proof fn declared() {
        reveal_strlit("MTLIOFileHandle");
    }
}

impl SubKind for MTLIOFileHandle {
    type Parent = NSObjectPrototype;

    proof fn parent_declared() {
    }
}

/// An owning handle to a `MTLIOFileHandle` object.
pub type IOFileHandle = Owned<MTLIOFileHandle>;

} // verus!
