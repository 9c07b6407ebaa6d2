//! Compute-kernel vocabulary and the typed matrix buffer.
//!
//! The matrix-multiply kernels themselves are callers of the bridge and stay
//! outside it; what lives here is the vocabulary of their kinds, the element
//! types a matrix can carry, and [`MatrixBuffer`], the typed view of a
//! buffer's payload words.

use vstd::prelude::*;

use crate::bridge::Borrowed;
use crate::bridge::Owned;
use crate::buffer::Buffer;
use crate::device::MTLDevice;
use crate::device::buffer_created;
use crate::kind::CLS_MPS_ACCELERATION_STRUCTURE;
use crate::kind::CLS_MPS_ACCELERATION_STRUCTURE_GROUP;
use crate::kind::CLS_MPS_INSTANCE_ACCELERATION_STRUCTURE;
use crate::kind::CLS_MPS_KERNEL;
use crate::kind::CLS_MPS_MATRIX;
use crate::kind::CLS_MPS_MATRIX_DESCRIPTOR;
use crate::kind::CLS_MPS_MATRIX_MULTIPLICATION;
use crate::kind::CLS_MPS_POLYGON_ACCELERATION_STRUCTURE;
use crate::kind::CLS_MPS_RAY_INTERSECTOR;
use crate::kind::CLS_MPS_TRIANGLE_ACCELERATION_STRUCTURE;
use crate::kind::Kind;
use crate::kind::NSObjectPrototype;
use crate::kind::SubKind;
use crate::registry::Registry;
use crate::resource::MTLResourceOptions;
use core::marker::PhantomData;

verus! {

/// Mirrors the foreign `MPSRayDataType` enumeration.
#[derive(Clone, Copy, Debug, PartialEq, Eq, Structural)]
pub enum MPSRayDataType {
    OriginDirection,
    OriginMinDistanceDirectionMaxDistance,
    OriginMaskDirectionMaxDistance,
}

/// Mirrors the foreign `MPSIntersectionDataType` enumeration.
#[derive(Clone, Copy, Debug, PartialEq, Eq, Structural)]
pub enum MPSIntersectionDataType {
    Distance,
    DistancePrimitiveIndex,
    DistancePrimitiveIndexCoordinates,
    DistancePrimitiveIndexInstanceIndex,
    DistancePrimitiveIndexInstanceIndexCoordinates,
}

/// Mirrors the foreign `MPSIntersectionType` enumeration.
#[derive(Clone, Copy, Debug, PartialEq, Eq, Structural)]
pub enum MPSIntersectionType {
    Nearest,
    Any,
}

/// Mirrors the foreign `MPSRayMaskOperator` enumeration.
#[derive(Clone, Copy, Debug, PartialEq, Eq, Structural)]
pub enum MPSRayMaskOperator {
    And,
    NotAnd,
    Or,
    NotOr,
    Xor,
    NotXor,
    LessThan,
    LessThanOrEqualTo,
    GreaterThan,
    GreaterThanOrEqualTo,
}

/// Mirrors the foreign `MPSTriangleIntersectionTestType` enumeration.
#[derive(Clone, Copy, Debug, PartialEq, Eq, Structural)]
pub enum MPSTriangleIntersectionTestType {
    Default,
    Watertight,
}

/// Mirrors the foreign `MPSAccelerationStructureStatus` enumeration.
#[derive(Clone, Copy, Debug, PartialEq, Eq, Structural)]
pub enum MPSAccelerationStructureStatus {
    Unbuilt,
    Built,
}

/// Mirrors the foreign `MPSTransformType` enumeration.
#[derive(Clone, Copy, Debug, PartialEq, Eq, Structural)]
pub enum MPSTransformType {
    Float4x4,
    Identity,
}

/// The kind marker of the foreign `MPSKernel` class.
pub enum MPSKernel {
    Prototype,
}

impl Kind for MPSKernel {
    open spec fn class_id() -> u64 {
        CLS_MPS_KERNEL
    }

    open spec fn class_name() -> Seq<char> {
        "MPSKernel"@
    }

    fn runtime_class() -> u64 {
        CLS_MPS_KERNEL
    }

    fn runtime_class_name() -> &'static str {
        "MPSKernel"
    }

    proof fn declared() {
        reveal_strlit("MPSKernel");
    }
}

impl SubKind for MPSKernel {
    type Parent = NSObjectPrototype;

    proof fn parent_declared() {
    }
}

/// An owning handle to a compute kernel.
pub type Kernel = Owned<MPSKernel>;

/// The kind marker of the foreign `MPSRayIntersector` class.
pub enum MPSRayIntersector {
    Prototype,
}

impl Kind for MPSRayIntersector {
    open spec fn class_id() -> u64 {
        CLS_MPS_RAY_INTERSECTOR
    }

    open spec fn class_name() -> Seq<char> {
        "MPSRayIntersector"@
    }

    fn runtime_class() -> u64 {
        CLS_MPS_RAY_INTERSECTOR
    }

    fn runtime_class_name() -> &'static str {
        "MPSRayIntersector"
    }

    proof fn declared() {
        reveal_strlit("MPSRayIntersector");
    }
}

impl SubKind for MPSRayIntersector {
    type Parent = MPSKernel;

    proof fn parent_declared() {
    }
}

/// An owning handle to a ray intersector kernel.
pub type RayIntersector = Owned<MPSRayIntersector>;

/// The kind marker of the foreign `MPSAccelerationStructureGroup` class.
pub enum MPSAccelerationStructureGroup {
    Prototype,
}

impl Kind for MPSAccelerationStructureGroup {
    open spec fn class_id() -> u64 {
        CLS_MPS_ACCELERATION_STRUCTURE_GROUP
    }

    open spec fn class_name() -> Seq<char> {
        "MPSAccelerationStructureGroup"@
    }

    fn runtime_class() -> u64 {
        CLS_MPS_ACCELERATION_STRUCTURE_GROUP
    }

    fn runtime_class_name() -> &'static str {
        "MPSAccelerationStructureGroup"
    }

    proof fn declared() {
        reveal_strlit("MPSAccelerationStructureGroup");
    }
}

impl SubKind for MPSAccelerationStructureGroup {
    type Parent = NSObjectPrototype;

    proof fn parent_declared() {
    }
}

/// An owning handle to an acceleration structure group.
pub type AccelerationStructureGroup = Owned<MPSAccelerationStructureGroup>;

/// The kind marker of the foreign `MPSAccelerationStructure` class.
pub enum MPSAccelerationStructure {
    Prototype,
}

impl Kind for MPSAccelerationStructure {
    open spec fn class_id() -> u64 {
        CLS_MPS_ACCELERATION_STRUCTURE
    }

    open spec fn class_name() -> Seq<char> {
        "MPSAccelerationStructure"@
    }

    fn runtime_class() -> u64 {
        CLS_MPS_ACCELERATION_STRUCTURE
    }

    fn runtime_class_name() -> &'static str {
        "MPSAccelerationStructure"
    }

    proof fn declared() {
        reveal_strlit("MPSAccelerationStructure");
    }
}

impl SubKind for MPSAccelerationStructure {
    type Parent = NSObjectPrototype;

    proof fn parent_declared() {
    }
}

/// An owning handle to an acceleration structure.
pub type AccelerationStructure = Owned<MPSAccelerationStructure>;

/// The kind marker of the foreign `MPSPolygonAccelerationStructure` class.
pub enum MPSPolygonAccelerationStructure {
    Prototype,
}

impl Kind for MPSPolygonAccelerationStructure {
    open spec fn class_id() -> u64 {
        CLS_MPS_POLYGON_ACCELERATION_STRUCTURE
    }

    open spec fn class_name() -> Seq<char> {
        "MPSPolygonAccelerationStructure"@
    }

    fn runtime_class() -> u64 {
        CLS_MPS_POLYGON_ACCELERATION_STRUCTURE
    }

    fn runtime_class_name() -> &'static str {
        "MPSPolygonAccelerationStructure"
    }

    proof fn declared() {
        reveal_strlit("MPSPolygonAccelerationStructure");
    }
}

impl SubKind for MPSPolygonAccelerationStructure {
    type Parent = MPSAccelerationStructure;

    proof fn parent_declared() {
    }
}

/// An owning handle to a polygon acceleration structure.
pub type PolygonAccelerationStructure = Owned<MPSPolygonAccelerationStructure>;

/// The kind marker of the foreign `MPSTriangleAccelerationStructure` class.
pub enum MPSTriangleAccelerationStructure {
    Prototype,
}

impl Kind for MPSTriangleAccelerationStructure {
    open spec fn class_id() -> u64 {
        CLS_MPS_TRIANGLE_ACCELERATION_STRUCTURE
    }

    open spec fn class_name() -> Seq<char> {
        "MPSTriangleAccelerationStructure"@
    }

    fn runtime_class() -> u64 {
        CLS_MPS_TRIANGLE_ACCELERATION_STRUCTURE
    }

    fn runtime_class_name() -> &'static str {
        "MPSTriangleAccelerationStructure"
    }

    proof fn declared() {
        reveal_strlit("MPSTriangleAccelerationStructure");
    }
}

impl SubKind for MPSTriangleAccelerationStructure {
    type Parent = MPSPolygonAccelerationStructure;

    proof fn parent_declared() {
    }
}

/// An owning handle to a triangle acceleration structure.
pub type TriangleAccelerationStructure = Owned<MPSTriangleAccelerationStructure>;

/// The kind marker of the foreign `MPSInstanceAccelerationStructure` class.
pub enum MPSInstanceAccelerationStructure {
    Prototype,
}

impl Kind for MPSInstanceAccelerationStructure {
    open spec fn class_id() -> u64 {
        CLS_MPS_INSTANCE_ACCELERATION_STRUCTURE
    }

    open spec fn class_name() -> Seq<char> {
        "MPSInstanceAccelerationStructure"@
    }

    fn runtime_class() -> u64 {
        CLS_MPS_INSTANCE_ACCELERATION_STRUCTURE
    }

    fn runtime_class_name() -> &'static str {
        "MPSInstanceAccelerationStructure"
    }

    proof fn declared() {
        reveal_strlit("MPSInstanceAccelerationStructure");
    }
}

impl SubKind for MPSInstanceAccelerationStructure {
    type Parent = MPSAccelerationStructure;

    proof fn parent_declared() {
    }
}

/// An owning handle to an instance acceleration structure.
pub type InstanceAccelerationStructure = Owned<MPSInstanceAccelerationStructure>;

/// The kind marker of the foreign `MPSMatrixDescriptor` class.
pub enum MPSMatrixDescriptor {
    Prototype,
}

impl Kind for MPSMatrixDescriptor {
    open spec fn class_id() -> u64 {
        CLS_MPS_MATRIX_DESCRIPTOR
    }

    open spec fn class_name() -> Seq<char> {
        "MPSMatrixDescriptor"@
    }

    fn runtime_class() -> u64 {
        CLS_MPS_MATRIX_DESCRIPTOR
    }

    fn runtime_class_name() -> &'static str {
        "MPSMatrixDescriptor"
    }

    proof fn declared() {
        reveal_strlit("MPSMatrixDescriptor");
    }
}

impl SubKind for MPSMatrixDescriptor {
    type Parent = NSObjectPrototype;

    proof fn parent_declared() {
    }
}

/// An owning handle to a matrix descriptor.
pub type MatrixDescriptor = Owned<MPSMatrixDescriptor>;

/// The kind marker of the foreign `MPSMatrix` class.
pub enum MPSMatrix {
    Prototype,
}

impl Kind for MPSMatrix {
    open spec fn class_id() -> u64 {
        CLS_MPS_MATRIX
    }

    open spec fn class_name() -> Seq<char> {
        "MPSMatrix"@
    }

    fn runtime_class() -> u64 {
        CLS_MPS_MATRIX
    }

    fn runtime_class_name() -> &'static str {
        "MPSMatrix"
    }

    proof fn declared() {
        reveal_strlit("MPSMatrix");
    }
}

impl SubKind for MPSMatrix {
    type Parent = NSObjectPrototype;

    proof fn parent_declared() {
    }
}

/// An owning handle to a matrix object.
pub type MatrixObject = Owned<MPSMatrix>;

/// The kind marker of the foreign `MPSMatrixMultiplication` class.
pub enum MPSMatrixMultiplication {
    Prototype,
}

impl Kind for MPSMatrixMultiplication {
    open spec fn class_id() -> u64 {
        CLS_MPS_MATRIX_MULTIPLICATION
    }

    open spec fn class_name() -> Seq<char> {
        "MPSMatrixMultiplication"@
    }

    fn runtime_class() -> u64 {
        CLS_MPS_MATRIX_MULTIPLICATION
    }

    fn runtime_class_name() -> &'static str {
        "MPSMatrixMultiplication"
    }

    proof fn declared() {
        reveal_strlit("MPSMatrixMultiplication");
    }
}

impl SubKind for MPSMatrixMultiplication {
    type Parent = MPSKernel;

    proof fn parent_declared() {
    }
}

/// An owning handle to a matrix multiplication kernel.
pub type MatrixMultiplication = Owned<MPSMatrixMultiplication>;

/// The bit marking signed element encodings.
pub const MPS_SIGNEDBIT_ENCODING: u64 = 0x20000000;

/// The bit marking alternate element encodings.
pub const MPS_ALTERNATE_ENCODING: u64 = 0x80000000;

/// The element size, in bytes, that a data type identifier encodes.
pub open spec fn spec_size_of_data_type(t: u64) -> u64 {
    (t & 0xFFFF) >> 3
}

/// The element size, in bytes, that a data type identifier encodes.
pub fn size_of_data_type(t: u64) -> (s: u64)
    ensures
        s == spec_size_of_data_type(t),
{
    (t & 0xFFFF) >> 3
}

/// An element type a matrix buffer can carry: its foreign data type
/// identifier, and the codec between the element and the model buffer's
/// payload words.
pub trait MPSDataType {
    /// The element type.
    type Type;

    /// The foreign data type identifier.
    spec fn type_id() -> u64;

    /// The word an element is stored as.
    spec fn spec_to_word(v: Self::Type) -> u64;

    /// The element a stored word decodes to.
    spec fn spec_from_word(w: u64) -> Self::Type;

    /// The foreign data type identifier.
    fn data_type() -> (t: u64)
        ensures
            t == Self::type_id(),
    ;

    /// Encodes an element into a payload word.
    fn to_word(v: Self::Type) -> (w: u64)
        ensures
            w == Self::spec_to_word(v),
    ;

    /// Decodes a payload word back into an element.
    fn from_word(w: u64) -> (v: Self::Type)
        ensures
            v == Self::spec_from_word(w),
    ;

    /// Decoding inverts encoding: storing an element and reading it back
    /// yields the element.
    proof fn word_round_trip(v: Self::Type)
        ensures
            Self::spec_from_word(Self::spec_to_word(v)) == v,
    ;
}

/// Signed 8-bit integer elements.
#[derive(Clone, Copy, Debug, PartialEq, Eq, Structural)]
pub struct Int8;

impl MPSDataType for Int8 {
    type Type = i8;

    open spec fn type_id() -> u64 {
        MPS_SIGNEDBIT_ENCODING | 8
    }

    open spec fn spec_to_word(v: i8) -> u64 {
        v as u64
    }

    open spec fn spec_from_word(w: u64) -> i8 {
        w as i8
    }

    fn data_type() -> u64 {
        MPS_SIGNEDBIT_ENCODING | 8
    }

    fn to_word(v: i8) -> u64 {
        v as u64
    }

    fn from_word(w: u64) -> i8 {
        w as i8
    }

    proof fn word_round_trip(v: i8) {
        assert((v as u64) as i8 == v) by (bit_vector);
    }
}

/// Signed 16-bit integer elements.
#[derive(Clone, Copy, Debug, PartialEq, Eq, Structural)]
pub struct Int16;

impl MPSDataType for Int16 {
    type Type = i16;

    open spec fn type_id() -> u64 {
        MPS_SIGNEDBIT_ENCODING | 16
    }

    open spec fn spec_to_word(v: i16) -> u64 {
        v as u64
    }

    open spec fn spec_from_word(w: u64) -> i16 {
        w as i16
    }

    fn data_type() -> u64 {
        MPS_SIGNEDBIT_ENCODING | 16
    }

    fn to_word(v: i16) -> u64 {
        v as u64
    }

    fn from_word(w: u64) -> i16 {
        w as i16
    }

    proof fn word_round_trip(v: i16) {
        assert((v as u64) as i16 == v) by (bit_vector);
    }
}

/// Signed 32-bit integer elements.
#[derive(Clone, Copy, Debug, PartialEq, Eq, Structural)]
pub struct Int32;

impl MPSDataType for Int32 {
    type Type = i32;

    open spec fn type_id() -> u64 {
        MPS_SIGNEDBIT_ENCODING | 32
    }

    open spec fn spec_to_word(v: i32) -> u64 {
        v as u64
    }

    open spec fn spec_from_word(w: u64) -> i32 {
        w as i32
    }

    fn data_type() -> u64 {
        MPS_SIGNEDBIT_ENCODING | 32
    }

    fn to_word(v: i32) -> u64 {
        v as u64
    }

    fn from_word(w: u64) -> i32 {
        w as i32
    }

    proof fn word_round_trip(v: i32) {
        assert((v as u64) as i32 == v) by (bit_vector);
    }
}

/// Signed 64-bit integer elements.
#[derive(Clone, Copy, Debug, PartialEq, Eq, Structural)]
pub struct Int64;

impl MPSDataType for Int64 {
    type Type = i64;

    open spec fn type_id() -> u64 {
        MPS_SIGNEDBIT_ENCODING | 64
    }

    open spec fn spec_to_word(v: i64) -> u64 {
        v as u64
    }

    open spec fn spec_from_word(w: u64) -> i64 {
        w as i64
    }

    fn data_type() -> u64 {
        MPS_SIGNEDBIT_ENCODING | 64
    }

    fn to_word(v: i64) -> u64 {
        v as u64
    }

    fn from_word(w: u64) -> i64 {
        w as i64
    }

    proof fn word_round_trip(v: i64) {
        assert((v as u64) as i64 == v) by (bit_vector);
    }
}

/// Unsigned 8-bit integer elements.
#[derive(Clone, Copy, Debug, PartialEq, Eq, Structural)]
pub struct UInt8;

impl MPSDataType for UInt8 {
    type Type = u8;

    open spec fn type_id() -> u64 {
        8
    }

    open spec fn spec_to_word(v: u8) -> u64 {
        v as u64
    }

    open spec fn spec_from_word(w: u64) -> u8 {
        w as u8
    }

    fn data_type() -> u64 {
        8
    }

    fn to_word(v: u8) -> u64 {
        v as u64
    }

    fn from_word(w: u64) -> u8 {
        w as u8
    }

    proof fn word_round_trip(v: u8) {
        assert((v as u64) as u8 == v) by (bit_vector);
    }
}

/// Unsigned 16-bit integer elements.
#[derive(Clone, Copy, Debug, PartialEq, Eq, Structural)]
pub struct UInt16;

impl MPSDataType for UInt16 {
    type Type = u16;

    open spec fn type_id() -> u64 {
        16
    }

    open spec fn spec_to_word(v: u16) -> u64 {
        v as u64
    }

    open spec fn spec_from_word(w: u64) -> u16 {
        w as u16
    }

    fn data_type() -> u64 {
        16
    }

    fn to_word(v: u16) -> u64 {
        v as u64
    }

    fn from_word(w: u64) -> u16 {
        w as u16
    }

    proof fn word_round_trip(v: u16) {
        assert((v as u64) as u16 == v) by (bit_vector);
    }
}

/// Unsigned 32-bit integer elements.
#[derive(Clone, Copy, Debug, PartialEq, Eq, Structural)]
pub struct UInt32;

impl MPSDataType for UInt32 {
    type Type = u32;

    open spec fn type_id() -> u64 {
        32
    }

    open spec fn spec_to_word(v: u32) -> u64 {
        v as u64
    }

    open spec fn spec_from_word(w: u64) -> u32 {
        w as u32
    }

    fn data_type() -> u64 {
        32
    }

    fn to_word(v: u32) -> u64 {
        v as u64
    }

    fn from_word(w: u64) -> u32 {
        w as u32
    }

    proof fn word_round_trip(v: u32) {
        assert((v as u64) as u32 == v) by (bit_vector);
    }
}

/// Unsigned 64-bit integer elements.
#[derive(Clone, Copy, Debug, PartialEq, Eq, Structural)]
pub struct UInt64;

impl MPSDataType for UInt64 {
    type Type = u64;

    open spec fn type_id() -> u64 {
        64
    }

    open spec fn spec_to_word(v: u64) -> u64 {
        v
    }

    open spec fn spec_from_word(w: u64) -> u64 {
        w
    }

    fn data_type() -> u64 {
        64
    }

    fn to_word(v: u64) -> u64 {
        v
    }

    fn from_word(w: u64) -> u64 {
        w
    }

    proof fn word_round_trip(v: u64) {
    }
}

/// Boolean elements, stored as one word each.
#[derive(Clone, Copy, Debug, PartialEq, Eq, Structural)]
pub struct Bool;

impl MPSDataType for Bool {
    type Type = bool;

    open spec fn type_id() -> u64 {
        MPS_ALTERNATE_ENCODING | 8
    }

    open spec fn spec_to_word(v: bool) -> u64 {
        if v {
            1
        } else {
            0
        }
    }

    open spec fn spec_from_word(w: u64) -> bool {
        w != 0
    }

    fn data_type() -> u64 {
        MPS_ALTERNATE_ENCODING | 8
    }

    fn to_word(v: bool) -> u64 {
        if v {
            1
        } else {
            0
        }
    }

    fn from_word(w: u64) -> bool {
        w != 0
    }

    proof fn word_round_trip(v: bool) {
    }
}

/// Marks a type constraint as satisfiable.
pub trait Valid {

}

/// Marks an element type as a valid multiplication input.
pub struct GEMMInput<T: MPSDataType> {
    marker: PhantomData<T>,
}

/// The integer input types the multiplication kernels accept.  The
/// floating-point inputs the foreign kernels also take have no counterpart
/// here.
impl Valid for GEMMInput<Int8> {

}

impl Valid for GEMMInput<Int16> {

}

/// Marks an element type as a valid multiplication result.  The foreign
/// kernels produce only floating-point results, so no type carries this mark
/// here.
pub struct GEMMResult<T: MPSDataType> {
    marker: PhantomData<T>,
}

/// Marks a triple of element types as a valid multiplication specification.
pub struct GEMMSpecification<A, B, C> where A: MPSDataType, B: MPSDataType, C: MPSDataType {
    marker: PhantomData<(A, B, C)>,
}

/// A typed view of a buffer holding a matrix of `rows` by `columns`
/// elements.
pub struct MatrixBuffer<T> {
    /// The buffer the elements live in.
    pub buffer: Buffer,
    rows: usize,
    columns: usize,
    count: usize,
    marker: PhantomData<T>,
}

impl<T: MPSDataType> MatrixBuffer<T> {
    /// How many elements the matrix holds.
    pub closed spec fn spec_count(&self) -> usize {
        self.count
    }

    /// The handle of the buffer the elements live in.
    pub closed spec fn buffer_id(&self) -> usize {
        self.buffer.id()
    }

    /// The backing buffer is a live buffer object.
    pub open spec fn valid(&self, rt: Registry) -> bool {
        crate::bridge::obj_valid::<crate::buffer::MTLBuffer>(rt, self.buffer_id())
    }

    /// The matrix's element count, `rows * columns`.
    pub fn count(&self) -> (n: usize)
        ensures
            n == self.spec_count(),
    {
        self.count
    }

    /// Allocates a fresh buffer of `length` zeroed words on the device and
    /// views it as a matrix of `rows` by `columns` elements.
    pub fn new(
        rt: &mut Registry,
        device: &Borrowed<'_, MTLDevice>,
        rows: usize,
        columns: usize,
        length: usize,
        options: MTLResourceOptions,
    ) -> (m: MatrixBuffer<T>)
        requires
            device.valid(*old(rt)),
            old(rt).obj_ct() < usize::MAX - 1,
            rows * columns <= length,
        ensures
            buffer_created(*old(rt), *final(rt), length, m.buffer_id()),
            m.valid(*final(rt)),
            m.spec_count() == rows * columns,
    {
        let buffer = device.new_buffer(rt, length, options);
        let count = rows * columns;
        MatrixBuffer { buffer, rows, columns, count, marker: PhantomData }
    }

    /// Views an existing buffer as a matrix of `rows` by `columns` elements,
    /// taking over the buffer's one release obligation.
    pub fn from_buffer(buffer: Buffer, rows: usize, columns: usize) -> (m: MatrixBuffer<T>)
        requires
            rows * columns <= usize::MAX,
        ensures
            m.buffer_id() == buffer.id(),
            m.spec_count() == rows * columns,
    {
        let count = rows * columns;
        MatrixBuffer { buffer, rows, columns, count, marker: PhantomData }
    }

    /// Reads the matrix's elements out of the buffer, in row-major order.
    pub fn contents(&self, rt: &Registry) -> (v: Vec<<T as MPSDataType>::Type>)
        requires
            self.valid(*rt),
            self.spec_count() <= rt.words_of(self.buffer_id()).len(),
        ensures
            v@.len() == self.spec_count(),
            forall|i: int|
                0 <= i < v@.len() ==> v@[i] == T::spec_from_word(
                    #[trigger] rt.words_of(self.buffer_id())[i],
                ),
    {
        let b = self.buffer.as_borrowed();
        let mut out: Vec<<T as MPSDataType>::Type> = Vec::new();
        let mut i: usize = 0;
        while i < self.count
            invariant
                i <= self.count,
                self.buffer.valid(*rt),
                self.spec_count() == self.count,
                self.count <= rt.words_of(self.buffer.id()).len(),
                b.id() == self.buffer.id(),
                self.buffer_id() == self.buffer.id(),
                out@.len() == i,
                forall|l: int|
                    0 <= l < i ==> out@[l] == T::spec_from_word(
                        #[trigger] rt.words_of(self.buffer.id())[l],
                    ),
            decreases self.count - i,
        {
            let w = b.read_word(rt, i);
            out.push(T::from_word(w));
            i += 1;
        }
        out
    }
}

} // verus!
