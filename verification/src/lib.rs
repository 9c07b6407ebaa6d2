//! A verified foreign-object bridge for a reference-counted GPU object
//! runtime.
//!
//! The crate models the runtime's single shared piece of mutable state — the
//! reference counts of its objects — as an explicit [`Registry`] value, and
//! builds the typed layer on top of it: kind markers for the foreign class
//! hierarchy, owning and borrowing handle wrappers whose retain/release
//! obligations are stated and proved, a dynamic dispatch helper, and a typed
//! container adapter.  The laws every owning value obeys — balanced retains
//! and releases, ownership-preserving upcasts, a handle-preserving borrow
//! ladder, containers that return exactly what went in — are proved in
//! [`laws`] from the operations' contracts alone.
//!
//! The mechanical per-class vocabulary (enumerations, plain-data structs,
//! kind declarations) mirrors the foreign framework's published surface.

pub mod argument;
pub mod array;
pub mod bridge;
pub mod buffer;
pub mod color_space;
pub mod commandbuffer;
pub mod commandqueue;
pub mod constants;
pub mod counters;
pub mod depthstencil;
pub mod device;
pub mod dispatch;
pub mod drawable;
pub mod encoder;
pub mod heap;
pub mod iocommandbuffer;
pub mod iocommandqueue;
pub mod iofilehandle;
pub mod kind;
pub mod laws;
pub mod library;
pub mod mps;
pub mod pipeline;
pub mod protocol;
pub mod registry;
pub mod renderpass;
pub mod resource;
pub mod sampler;
pub mod text;
pub mod texture;
pub mod types;
pub mod vertexdescriptor;

pub use array::Array;
pub use array::NSArray;
pub use array::array_created;
pub use array::array_disposed;
pub use array::ids_of;
pub use array::occurrences;
pub use array::owned_ids;
pub use bridge::Borrowed;
pub use bridge::Owned;
pub use bridge::lemma_parent_valid;
pub use bridge::obj_valid;
pub use device::Device;
pub use dispatch::CheckedMessage;
pub use dispatch::Message;
pub use dispatch::Response;
pub use dispatch::invoke;
pub use dispatch::invoke_checked;
pub use dispatch::invoke_checked_post;
pub use dispatch::invoke_post;
pub use kind::Kind;
pub use kind::NSObjectPrototype;
pub use kind::SubKind;
pub use kind::class_descends;
pub use kind::is_subclass;
pub use kind::parent_class;
pub use laws::lemma_balanced_lifetime;
pub use laws::lemma_clone_then_drop;
pub use laws::lemma_container_round_trip;
pub use laws::lemma_ladder_correct;
pub use laws::lemma_upcast_ownership;
pub use protocol::Labeled;
pub use protocol::NSObjectProtocol;
pub use registry::Registry;
pub use registry::allocate_post;
pub use registry::obj_same;
pub use registry::release_post;
pub use registry::retain_post;
pub use registry::same_except;
pub use text::seq_contains_sub;
pub use text::str_contains_sub;

use vstd::prelude::*;

use crate::drawable::MTLDrawable;
use crate::kind::CLS_CA_METAL_DRAWABLE;
use crate::kind::CLS_CA_METAL_LAYER;
use crate::kind::CLS_NS_OBJECT;
use crate::kind::CLS_NS_URL;

verus! {

/// The kind marker of the foreign root class itself, as the vocabulary names
/// it.
pub enum NSObject {
    Prototype,
}

impl Kind for NSObject {
    open spec fn class_id() -> u64 {
        CLS_NS_OBJECT
    }

    open spec fn class_name() -> Seq<char> {
        "NSObject"@
    }

    fn runtime_class() -> u64 {
        CLS_NS_OBJECT
    }

    fn runtime_class_name() -> &'static str {
        "NSObject"
    }

    proof fn declared() {
        reveal_strlit("NSObject");
    }
}

impl SubKind for NSObject {
    type Parent = NSObjectPrototype;

    proof fn parent_declared() {
    }
}

/// An owning handle to a plain foreign object.
pub type NsObject = Owned<NSObject>;

/// The kind marker of the foreign `CAMetalDrawable` class.
pub enum CAMetalDrawable {
    Prototype,
}

impl Kind for CAMetalDrawable {
    open spec fn class_id() -> u64 {
        CLS_CA_METAL_DRAWABLE
    }

    open spec fn class_name() -> Seq<char> {
        "CAMetalDrawable"@
    }

    fn runtime_class() -> u64 {
        CLS_CA_METAL_DRAWABLE
    }

    fn runtime_class_name() -> &'static str {
        "CAMetalDrawable"
    }

    proof fn declared() {
        reveal_strlit("CAMetalDrawable");
    }
}

impl SubKind for CAMetalDrawable {
    type Parent = MTLDrawable;

    proof fn parent_declared() {
    }
}

/// An owning handle to a drawable of the windowing layer.
pub type MetalDrawable = Owned<CAMetalDrawable>;

/// The kind marker of the foreign `CAMetalLayer` class.
pub enum CAMetalLayer {
    Prototype,
}

impl Kind for CAMetalLayer {
    open spec fn class_id() -> u64 {
        CLS_CA_METAL_LAYER
    }

    open spec fn class_name() -> Seq<char> {
        "CAMetalLayer"@
    }

    fn runtime_class() -> u64 {
        CLS_CA_METAL_LAYER
    }

    fn runtime_class_name() -> &'static str {
        "CAMetalLayer"
    }

    proof fn declared() {
        reveal_strlit("CAMetalLayer");
    }
}

impl SubKind for CAMetalLayer {
    type Parent = NSObjectPrototype;

    proof fn parent_declared() {
    }
}

/// An owning handle to a windowing layer.
pub type MetalLayer = Owned<CAMetalLayer>;

/// The kind marker of the foreign `NSURL` class.
pub enum NSURL {
    Prototype,
}

impl Kind for NSURL {
    open spec fn class_id() -> u64 {
        CLS_NS_URL
    }

    open spec fn class_name() -> Seq<char> {
        "NSURL"@
    }

    fn runtime_class() -> u64 {
        CLS_NS_URL
    }

    fn runtime_class_name() -> &'static str {
        "NSURL"
    }

    proof fn declared() {
        reveal_strlit("NSURL");
    }
}

impl SubKind for NSURL {
    type Parent = NSObjectPrototype;

    proof fn parent_declared() {
    }
}

/// An owning handle to a URL object.
pub type URL = Owned<NSURL>;

} // verus!
