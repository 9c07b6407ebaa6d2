//! The device: the root factory object of the bridged runtime.
//!
//! Every constructor here follows one uniform convention: check for the null
//! handle and return `None` or a descriptive error — never wrap an absent
//! object.

use vstd::prelude::*;

use crate::bridge::Borrowed;
use crate::bridge::Owned;
use crate::commandqueue::MTLCommandQueue;
use crate::commandqueue::MTLCommandQueuePrototype;
use crate::dispatch::CheckedMessage;
use crate::dispatch::checked_failure_state;
use crate::dispatch::invoke_checked;
use crate::kind::CLS_MTL_BUFFER;
use crate::kind::CLS_MTL_DEVICE;
use crate::kind::CLS_MTL_LIBRARY;
use crate::kind::Kind;
use crate::kind::NSObjectPrototype;
use crate::kind::SubKind;
use crate::library::Library;
use crate::library::MTLCompileOptions;
use crate::library::MTLLibrary;
use crate::registry::Registry;
use crate::registry::allocate_post;
use crate::registry::obj_same;
use crate::resource::MTLResourceOptions;

verus! {

/// Mirrors the foreign `MTLFeatureSet` enumeration.
#[allow(non_camel_case_types)]
#[derive(Clone, Copy, Debug, PartialEq, Eq, Structural)]
pub enum MTLFeatureSet {
    iOS_GPUFamily1_v1,
    iOS_GPUFamily2_v1,
    iOS_GPUFamily1_v2,
    iOS_GPUFamily2_v2,
    iOS_GPUFamily3_v1,
    iOS_GPUFamily1_v3,
    iOS_GPUFamily2_v3,
    iOS_GPUFamily3_v2,
    iOS_GPUFamily1_v4,
    iOS_GPUFamily2_v4,
    iOS_GPUFamily3_v3,
    tvOS_GPUFamily1_v1,
    tvOS_GPUFamily1_v2,
    tvOS_GPUFamily1_v3,
    macOS_GPUFamily1_v1,
    macOS_GPUFamily1_v2,
    macOS_ReadWriteTextureTier2,
    macOS_GPUFamily1_v3,
}

/// Mirrors the foreign `MTLArgumentBuffersTier` enumeration.
#[allow(non_camel_case_types)]
#[derive(Clone, Copy, Debug, PartialEq, Eq, Structural)]
pub enum MTLArgumentBuffersTier {
    tier1,
    tier2,
}

/// The kind marker of the foreign `MTLDevice` class.
pub enum MTLDevice {
    Prototype,
}

impl Kind for MTLDevice {
    open spec fn class_id() -> u64 {
        CLS_MTL_DEVICE
    }

    open spec fn class_name() -> Seq<char> {
        "MTLDevice"@
    }

    fn runtime_class() -> u64 {
        CLS_MTL_DEVICE
    }

    fn runtime_class_name() -> &'static str {
        "MTLDevice"
    }

    proof fn declared() {
        reveal_strlit("MTLDevice");
    }
}

impl SubKind for MTLDevice {
    type Parent = NSObjectPrototype;

    proof fn parent_declared() {
    }
}

/// An owning handle to a device.
pub type Device = Owned<MTLDevice>;

/// What creating a buffer did: a fresh buffer of `length` zeroed words, owned
/// by the caller, and nothing else moved.
pub open spec fn buffer_created(r0: Registry, r1: Registry, length: usize, id: usize) -> bool {
    &&& id == r0.obj_ct() + 1
    &&& !r0.contains(id)
    &&& r1.contains(id)
    &&& r1.obj_ct() == r0.obj_ct() + 1
    &&& r1.count_of(id) == 1
    &&& r1.class_of(id) == CLS_MTL_BUFFER
    &&& r1.name_of(id) == "MTLBuffer"@
    &&& r1.words_of(id).len() == length
    &&& forall|i: int| 0 <= i < length ==> r1.words_of(id)[i] == 0u64
    &&& r1.elems_of(id) == Seq::<usize>::empty()
    &&& forall|j: usize| j != id ==> #[trigger] obj_same(r0, r1, j)
    &&& r1.has_system_device() == r0.has_system_device()
    &&& r1.retains_tally() == r0.retains_tally() + 1
    &&& r1.releases_tally() == r0.releases_tally()
}

impl Owned<MTLDevice> {
    /// The system default device, when the machine has one; `None` — never a
    /// wrapped null handle — when it does not.
    pub fn system_default(rt: &mut Registry) -> (r: Option<Device>)
        requires
            old(rt).obj_ct() < usize::MAX - 1,
        ensures
            r is Some <==> old(rt).has_system_device(),
            r is None ==> *final(rt) == *old(rt),
            r matches Some(d) ==> allocate_post(
                *old(rt),
                *final(rt),
                CLS_MTL_DEVICE,
                "MTLDevice"@,
                Seq::<char>::empty(),
                Seq::<usize>::empty(),
                Seq::<u64>::empty(),
                d.id(),
            ) && d.valid(*final(rt)),
    {
        if rt.system_device_present() {
            Some(Owned::<MTLDevice>::create(rt))
        } else {
            None
        }
    }
}

impl<'a> Borrowed<'a, MTLDevice> {
    /// A fresh command queue on this device, owned by the caller.
    pub fn new_command_queue(&self, rt: &mut Registry) -> (q: MTLCommandQueue)
        requires
            self.valid(*old(rt)),
            old(rt).obj_ct() < usize::MAX - 1,
        ensures
            allocate_post(
                *old(rt),
                *final(rt),
                MTLCommandQueuePrototype::class_id(),
                MTLCommandQueuePrototype::class_name(),
                Seq::<char>::empty(),
                Seq::<usize>::empty(),
                Seq::<u64>::empty(),
                q.id(),
            ),
            q.valid(*final(rt)),
    {
        self.make_child::<MTLCommandQueuePrototype>(rt)
    }

    /// A fresh texture described by `descriptor`, owned by the caller.
    pub fn new_texture(
        &self,
        rt: &mut Registry,
        descriptor: &Borrowed<'_, crate::texture::MTLTextureDescriptorPrototype>,
    ) -> (t: Owned<crate::texture::MTLTexturePrototype>)
        requires
            self.valid(*old(rt)),
            descriptor.valid(*old(rt)),
            old(rt).obj_ct() < usize::MAX - 1,
        ensures
            allocate_post(
                *old(rt),
                *final(rt),
                crate::texture::MTLTexturePrototype::class_id(),
                crate::texture::MTLTexturePrototype::class_name(),
                Seq::<char>::empty(),
                Seq::<usize>::empty(),
                Seq::<u64>::empty(),
                t.id(),
            ),
            t.valid(*final(rt)),
    {
        self.make_child::<crate::texture::MTLTexturePrototype>(rt)
    }

    /// A fresh buffer of `length` zeroed words, owned by the caller.  The
    /// options select cache and storage behavior the model does not
    /// distinguish.
    pub fn new_buffer(&self, rt: &mut Registry, length: usize, options: MTLResourceOptions) -> (b:
        crate::buffer::Buffer)
        requires
            self.valid(*old(rt)),
            old(rt).obj_ct() < usize::MAX - 1,
        ensures
            buffer_created(*old(rt), *final(rt), length, b.id()),
            b.valid(*final(rt)),
    {
        let words: Vec<u64> = vec![0u64; length];
        let id = rt.allocate(CLS_MTL_BUFFER, "MTLBuffer", String::new(), Vec::new(), words);
        Owned::adopt(rt, id)
    }

    /// A fresh buffer initialized with the given words, owned by the caller.
    pub fn new_buffer_with_data(
        &self,
        rt: &mut Registry,
        data: Vec<u64>,
        options: MTLResourceOptions,
    ) -> (b: crate::buffer::Buffer)
        requires
            self.valid(*old(rt)),
            old(rt).obj_ct() < usize::MAX - 1,
        ensures
            allocate_post(
                *old(rt),
                *final(rt),
                CLS_MTL_BUFFER,
                "MTLBuffer"@,
                Seq::<char>::empty(),
                Seq::<usize>::empty(),
                data@,
                b.id(),
            ),
            b.valid(*final(rt)),
    {
        let id = rt.allocate(CLS_MTL_BUFFER, "MTLBuffer", String::new(), Vec::new(), data);
        Owned::adopt(rt, id)
    }

    /// Compiles shader source into a library.  The model runtime accepts any
    /// non-empty source; an empty source fails with the description the
    /// foreign error object reported, and the error object does not leak.
    pub fn new_library_with_source(
        &self,
        rt: &mut Registry,
        source: &str,
        options: &Borrowed<'_, MTLCompileOptions>,
    ) -> (r: Result<Library, String>)
        requires
            self.valid(*old(rt)),
            options.valid(*old(rt)),
            old(rt).obj_ct() < usize::MAX - 1,
        ensures
            r is Ok <==> source@.len() > 0,
            r matches Ok(lib) ==> allocate_post(
                *old(rt),
                *final(rt),
                CLS_MTL_LIBRARY,
                "MTLLibrary"@,
                source@,
                Seq::<usize>::empty(),
                Seq::<u64>::empty(),
                lib.id(),
            ) && lib.valid(*final(rt)),
            r matches Err(m) ==> m@ == "compilation failed: empty shader source"@ && m@.len() > 0
                && checked_failure_state(*old(rt), *final(rt)),
    {
        let req = CheckedMessage::CompileSource(source.to_owned());
        match invoke_checked(rt, self.raw_id(), req) {
            Ok(id) => Ok(Owned::<MTLLibrary>::adopt(rt, id)),
            Err(m) => Err(m),
        }
    }

    /// A fresh child object of kind `C`, requested from this device through
    /// the dispatcher and owned by the caller.
    fn make_child<C: Kind>(&self, rt: &mut Registry) -> (o: Owned<C>)
        requires
            self.valid(*old(rt)),
            old(rt).obj_ct() < usize::MAX - 1,
        ensures
            allocate_post(
                *old(rt),
                *final(rt),
                C::class_id(),
                C::class_name(),
                Seq::<char>::empty(),
                Seq::<usize>::empty(),
                Seq::<u64>::empty(),
                o.id(),
            ),
            o.valid(*final(rt)),
    {
        let name = C::runtime_class_name();
        let msg = crate::dispatch::Message::NewObject {
            class: C::runtime_class(),
            name: name.to_owned(),
        };
        match crate::dispatch::invoke(rt, self.raw_id(), msg) {
            crate::dispatch::Response::Handle(id) => Owned::<C>::adopt(rt, id),
            _ => Owned::<C>::create(rt),
        }
    }
}

} // verus!
