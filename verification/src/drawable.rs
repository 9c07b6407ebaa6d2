//! Displayable resource vocabulary.

use vstd::prelude::*;

use crate::bridge::Owned;
use crate::kind::CLS_MTL_DRAWABLE;
use crate::kind::Kind;
use crate::kind::NSObjectPrototype;
use crate::kind::SubKind;

verus! {

/// The kind marker of the foreign `MTLDrawable` class.
pub enum MTLDrawable {
    Prototype,
}

impl Kind for MTLDrawable {
    open spec fn class_id() -> u64 {
        CLS_MTL_DRAWABLE
    }

    open spec fn class_name() -> Seq<char> {
        "MTLDrawable"@
    }

    fn runtime_class() -> u64 {
        CLS_MTL_DRAWABLE
    }

    fn runtime_class_name() -> &'static str {
        "MTLDrawable"
    }

    proof fn declared() {
        reveal_strlit("MTLDrawable");
    }
}

impl SubKind for MTLDrawable {
    type Parent = NSObjectPrototype;

    proof fn parent_declared() {
    }
}

/// An owning handle to a `MTLDrawable` object.
pub type Drawable = Owned<MTLDrawable>;

} // verus!
