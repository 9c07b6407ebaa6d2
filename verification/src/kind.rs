//! Kind markers: the compile-time identity of a foreign class.
//!
//! Every foreign object reachable through this crate belongs to exactly one
//! runtime class.  A *kind* is the marker type that stands for such a class on
//! the Rust side.  Kinds form a forest under single inheritance: each kind
//! names one parent kind, and the root (`NSObjectPrototype`) is its own
//! parent.
//!
//! A class identifier encodes its whole ancestry positionally: the parent of a
//! class `c` is `c / 100`, and the root is `0`.  The parent chain is therefore
//! finite and acyclic by construction, which is what makes the subclass walk
//! below terminate.

use vstd::prelude::*;

verus! {

/// The class identifier of the hierarchy root.
pub const CLS_NS_OBJECT: u64 = 0;

// The class roster.  Every identifier encodes its parent as its value divided
// by 100, so the sibling groups below are what fixes the inheritance forest.
// Foundation classes.
pub const CLS_NS_ARRAY: u64 = 14;
pub const CLS_NS_ERROR: u64 = 15;
pub const CLS_NS_URL: u64 = 16;
pub const CLS_CA_METAL_LAYER: u64 = 17;
pub const CLS_CG_COLOR_SPACE: u64 = 55;

// Resources.
pub const CLS_MTL_RESOURCE: u64 = 1;
pub const CLS_MTL_BUFFER: u64 = 101;
pub const CLS_MTL_TEXTURE: u64 = 102;

// Command encoders.
pub const CLS_MTL_COMMAND_ENCODER: u64 = 2;
pub const CLS_MTL_PARALLEL_RENDER_COMMAND_ENCODER: u64 = 201;
pub const CLS_MTL_RENDER_COMMAND_ENCODER: u64 = 202;
pub const CLS_MTL_BLIT_COMMAND_ENCODER: u64 = 203;
pub const CLS_MTL_COMPUTE_COMMAND_ENCODER: u64 = 204;

// Drawables.
pub const CLS_MTL_DRAWABLE: u64 = 3;
pub const CLS_CA_METAL_DRAWABLE: u64 = 301;

// Compute kernels.
pub const CLS_MPS_KERNEL: u64 = 4;
pub const CLS_MPS_RAY_INTERSECTOR: u64 = 401;
pub const CLS_MPS_MATRIX_MULTIPLICATION: u64 = 402;

// Acceleration structures.
pub const CLS_MPS_ACCELERATION_STRUCTURE: u64 = 5;
pub const CLS_MPS_POLYGON_ACCELERATION_STRUCTURE: u64 = 501;
pub const CLS_MPS_TRIANGLE_ACCELERATION_STRUCTURE: u64 = 50101;
pub const CLS_MPS_INSTANCE_ACCELERATION_STRUCTURE: u64 = 502;

// Devices, queues, buffers of commands.
pub const CLS_MTL_DEVICE: u64 = 6;
pub const CLS_MTL_COMMAND_QUEUE: u64 = 7;
pub const CLS_MTL_COMMAND_BUFFER: u64 = 8;

// Shader libraries.
pub const CLS_MTL_LIBRARY: u64 = 9;
pub const CLS_MTL_FUNCTION: u64 = 10;
pub const CLS_MTL_COMPILE_OPTIONS: u64 = 11;
pub const CLS_MTL_FUNCTION_CONSTANT_VALUES: u64 = 12;
pub const CLS_MTL_VERTEX_ATTRIBUTE: u64 = 13;

// Argument reflection.
pub const CLS_MTL_ARGUMENT_ENCODER: u64 = 18;
pub const CLS_MTL_STRUCT_MEMBER: u64 = 40;
pub const CLS_MTL_STRUCT_TYPE: u64 = 41;
pub const CLS_MTL_ARRAY_TYPE: u64 = 42;
pub const CLS_MTL_ARGUMENT: u64 = 43;

// Heaps.
pub const CLS_MTL_HEAP: u64 = 19;
pub const CLS_MTL_HEAP_DESCRIPTOR: u64 = 20;

// Samplers and depth/stencil state.
pub const CLS_MTL_SAMPLER_DESCRIPTOR: u64 = 21;
pub const CLS_MTL_SAMPLER_STATE: u64 = 22;
pub const CLS_MTL_STENCIL_DESCRIPTOR: u64 = 23;
pub const CLS_MTL_DEPTH_STENCIL_DESCRIPTOR: u64 = 24;
pub const CLS_MTL_DEPTH_STENCIL_STATE: u64 = 25;

// Texture descriptors.
pub const CLS_MTL_TEXTURE_DESCRIPTOR: u64 = 26;

// Pipelines.
pub const CLS_MTL_RENDER_PIPELINE_COLOR_ATTACHMENT_DESCRIPTOR: u64 = 27;
pub const CLS_MTL_RENDER_PIPELINE_REFLECTION: u64 = 28;
pub const CLS_MTL_RENDER_PIPELINE_DESCRIPTOR: u64 = 29;
pub const CLS_MTL_RENDER_PIPELINE_STATE: u64 = 30;
pub const CLS_MTL_RENDER_PIPELINE_COLOR_ATTACHMENT_DESCRIPTOR_ARRAY: u64 = 31;
pub const CLS_MTL_PIPELINE_BUFFER_DESCRIPTOR: u64 = 32;
pub const CLS_MTL_PIPELINE_BUFFER_DESCRIPTOR_ARRAY: u64 = 33;

// Render passes.
pub const CLS_MTL_RENDER_PASS_ATTACHMENT_DESCRIPTOR: u64 = 34;
pub const CLS_MTL_RENDER_PASS_COLOR_ATTACHMENT_DESCRIPTOR: u64 = 3401;
pub const CLS_MTL_RENDER_PASS_DEPTH_ATTACHMENT_DESCRIPTOR: u64 = 3402;
pub const CLS_MTL_RENDER_PASS_STENCIL_ATTACHMENT_DESCRIPTOR: u64 = 3403;
pub const CLS_MTL_RENDER_PASS_COLOR_ATTACHMENT_DESCRIPTOR_ARRAY: u64 = 35;
pub const CLS_MTL_RENDER_PASS_DESCRIPTOR: u64 = 36;

// Counters.
pub const CLS_MTL_COUNTER_SAMPLE_BUFFER: u64 = 37;
pub const CLS_MTL_COUNTER: u64 = 38;
pub const CLS_MTL_COUNTER_SET: u64 = 39;

// Vertex descriptors.
pub const CLS_MTL_VERTEX_BUFFER_LAYOUT_DESCRIPTOR: u64 = 44;
pub const CLS_MTL_VERTEX_BUFFER_LAYOUT_DESCRIPTOR_ARRAY: u64 = 45;
pub const CLS_MTL_VERTEX_ATTRIBUTE_DESCRIPTOR: u64 = 46;
pub const CLS_MTL_VERTEX_ATTRIBUTE_DESCRIPTOR_ARRAY: u64 = 47;
pub const CLS_MTL_VERTEX_DESCRIPTOR: u64 = 48;

// Input/output command queues.
pub const CLS_MTL_IO_COMMAND_BUFFER: u64 = 49;
pub const CLS_MTL_IO_COMMAND_QUEUE: u64 = 50;
pub const CLS_MTL_IO_SCRATCH_BUFFER: u64 = 51;
pub const CLS_MTL_IO_SCRATCH_BUFFER_ALLOCATOR: u64 = 52;
pub const CLS_MTL_IO_COMMAND_QUEUE_DESCRIPTOR: u64 = 53;
pub const CLS_MTL_IO_FILE_HANDLE: u64 = 54;

// Performance counter names.
pub const CLS_MTL_COMMON_COUNTER_SET: u64 = 59;
pub const CLS_MTL_COMMON_COUNTER: u64 = 60;

// Acceleration structure groups and matrices.
pub const CLS_MPS_ACCELERATION_STRUCTURE_GROUP: u64 = 56;
pub const CLS_MPS_MATRIX_DESCRIPTOR: u64 = 57;
pub const CLS_MPS_MATRIX: u64 = 58;

/// The parent class of `c`.  The root is its own parent.
pub open spec fn parent_class(c: u64) -> u64 {
    c / 100
}

/// `c` is `d` or a (transitive) descendant of `d` in the class forest.
pub open spec fn is_subclass(c: u64, d: u64) -> bool
    decreases c,
{
    c == d || (c > 0 && is_subclass(parent_class(c), d))
}

/// A descendant of `d` is also a descendant of `d`'s parent: walking one rung
/// up the ladder never loses an ancestor.
pub proof fn lemma_subclass_parent(c: u64, d: u64)
    requires
        is_subclass(c, d),
    ensures
        is_subclass(c, parent_class(d)),
    decreases c,
{
    if c == d {
        if c > 0 {
            assert(is_subclass(parent_class(c), parent_class(c)));
        }
    } else {
        lemma_subclass_parent(c / 100, d);
    }
}

/// A kind: the marker type standing for one foreign class.
///
/// This is the contract every generated owning/borrowing pair must satisfy:
/// the kind reports its runtime class identity (`class_id`) and the class's
/// printable name (`class_name`).  A kind that declares a parent additionally
/// implements [`SubKind`].
pub trait Kind {
    /// The class identifier, with the ancestry encoded as described above.
    spec fn class_id() -> u64;

    /// The runtime class name, as the foreign runtime would report it.
    spec fn class_name() -> Seq<char>;

    /// The class identifier, for runtime kind checks.
    fn runtime_class() -> (c: u64)
        ensures
            c == Self::class_id(),
    ;

    /// The runtime class name, used when the model runtime records a new
    /// object and when diagnostics print one.
    fn runtime_class_name() -> (n: &'static str)
        ensures
            n@ == Self::class_name(),
    ;

    /// The declaration obligation: the class name is never empty.
    proof fn declared()
        ensures
            Self::class_name().len() > 0,
    ;
}

/// A kind with a declared parent kind.
///
/// `parent_declared` ties the type-level parent to the identifier encoding,
/// so the borrow ladder of `Borrowed` values and the runtime class walk of
/// `is_subclass` can never disagree.
pub trait SubKind: Kind {
    /// The declared parent kind.
    type Parent: Kind;

    /// The declaration obligation: the declared parent kind carries exactly
    /// the parent class of this kind's identifier.
    proof fn parent_declared()
        ensures
            <Self::Parent as Kind>::class_id() == parent_class(Self::class_id()),
    ;
}

/// The root kind: every other kind ultimately descends from it.
pub enum NSObjectPrototype {
    Prototype,
}

impl Kind for NSObjectPrototype {
    open spec fn class_id() -> u64 {
        CLS_NS_OBJECT
    }

    open spec fn class_name() -> Seq<char> {
        "NSObject"@
    }

    fn runtime_class() -> u64 {
        CLS_NS_OBJECT
    }

    fn runtime_class_name() -> &'static str {
        "NSObject"
    }

    proof fn declared() {
        reveal_strlit("NSObject");
    }
}

/// Exec walk of the parent chain: does class `c` descend from class `d`?
///
/// This is the diagnostic `is_kind_of` check of the capability protocol; the
/// typed layer dispatches by declared kind and only ever consults this for
/// validation.
pub fn class_descends(c: u64, d: u64) -> (r: bool)
    ensures
        r == is_subclass(c, d),
{
    let mut cur: u64 = c;
    loop
        invariant
            is_subclass(cur, d) ==> is_subclass(c, d),
            is_subclass(c, d) ==> is_subclass(cur, d),
        decreases cur,
    {
        if cur == d {
            return true;
        }
        if cur == 0 {
            return false;
        }
        cur = cur / 100;
    }
}

} // verus!
