//! Scenario tests for the bridge: lifetimes, upcasts, the borrow ladder,
//! optional and fallible constructors, and the container adapter.

use metal::buffer::MTLBuffer;
use metal::bridge::Owned;
use metal::device::Device;
use metal::device::MTLDevice;
use metal::kind::NSObjectPrototype;
use metal::library::CompileOptions;
use metal::library::MTLCompileOptions;
use metal::registry::Registry;
use metal::resource::MTLResourceOptions;
use metal::resource::MTLResourcePrototype;
use metal::Array;
use metal::NSArray;

fn device(rt: &mut Registry) -> Device {
    Device::system_default(rt).expect("a system device was requested")
}

#[test]
fn balanced_lifetime_create_release() {
    let mut rt = Registry::new(true);
    let d = device(&mut rt);
    let id = d.raw_id();
    assert_eq!(rt.refcount(id), 1);
    d.release(&mut rt);
    assert_eq!(rt.refcount(id), 0);
    assert!(!rt.is_live(id));
}

#[test]
fn clone_retains_and_both_release() {
    let mut rt = Registry::new(true);
    let d = device(&mut rt);
    let opts = MTLResourceOptions::storage_mode_shared();
    let b = d.as_borrowed().new_buffer(&mut rt, 4, opts);
    let id = b.raw_id();
    assert_eq!(rt.refcount(id), 1);
    let b2 = b.clone_in(&mut rt);
    assert_eq!(b2.raw_id(), id);
    assert_eq!(rt.refcount(id), 2);
    b.release(&mut rt);
    assert_eq!(rt.refcount(id), 1);
    b2.release(&mut rt);
    assert_eq!(rt.refcount(id), 0);
    d.release(&mut rt);
}

#[test]
fn upcast_is_ownership_preserving() {
    let mut rt = Registry::new(true);
    let d = device(&mut rt);
    let opts = MTLResourceOptions::storage_mode_shared();
    let b = d.as_borrowed().new_buffer(&mut rt, 1, opts);
    let id = b.raw_id();
    let before = rt.object_count();
    let r: Owned<MTLResourcePrototype> = b.upcast(&rt);
    assert_eq!(r.raw_id(), id);
    assert_eq!(rt.refcount(id), 1);
    assert_eq!(rt.object_count(), before);
    r.release(&mut rt);
    assert_eq!(rt.refcount(id), 0);
    d.release(&mut rt);
}

#[test]
fn ladder_reaches_grandparent_with_identical_result() {
    let mut rt = Registry::new(true);
    let d = device(&mut rt);
    let opts = MTLResourceOptions::storage_mode_shared();
    let b = d.as_borrowed().new_buffer(&mut rt, 1, opts);

    // Two hops up the ladder from the buffer view.
    let buffer_view = b.as_borrowed();
    let resource_view = buffer_view.parent(&rt);
    let root_view = resource_view.parent(&rt);
    assert_eq!(root_view.raw_id(), b.raw_id());
    let through_ladder = root_view.description(&mut rt);

    // A root-kind view of the same handle, obtained by reclassifying a
    // clone.
    let b2 = b.clone_in(&mut rt);
    let r2: Owned<MTLResourcePrototype> = b2.upcast(&rt);
    let o2: Owned<NSObjectPrototype> = r2.upcast(&rt);
    let direct = o2.as_borrowed().description(&mut rt);

    assert_eq!(through_ladder, direct);
    assert_eq!(through_ladder, "MTLBuffer");

    o2.release(&mut rt);
    b.release(&mut rt);
    d.release(&mut rt);
}

#[test]
fn optional_constructor_checks_for_null() {
    let mut absent = Registry::new(false);
    assert!(Device::system_default(&mut absent).is_none());

    let mut rt = Registry::new(true);
    let d = Device::system_default(&mut rt).expect("device present");
    assert_ne!(d.raw_id(), 0);
    d.release(&mut rt);

    let none: Option<Owned<MTLDevice>> = Owned::from_raw(&rt, 0);
    assert!(none.is_none());
}

#[test]
fn error_round_trip_reports_description_and_leaks_nothing() {
    let mut rt = Registry::new(true);
    let d = device(&mut rt);
    let opts: CompileOptions = Owned::<MTLCompileOptions>::create(&mut rt);
    let before = rt.object_count();

    let err = match d.as_borrowed().new_library_with_source(&mut rt, "", &opts.as_borrowed()) {
        Ok(lib) => {
            lib.release(&mut rt);
            panic!("empty source must be refused");
        },
        Err(m) => m,
    };
    assert!(!err.is_empty());
    assert_eq!(err, "compilation failed: empty shader source");
    // The error object was created and fully released: no usable object
    // remains.
    assert_eq!(rt.object_count(), before + 1);
    assert!(!rt.is_live(before + 1));

    opts.release(&mut rt);
    d.release(&mut rt);
}

#[test]
fn compilation_success_and_function_lookup() {
    let mut rt = Registry::new(true);
    let d = device(&mut rt);
    let opts: CompileOptions = Owned::<MTLCompileOptions>::create(&mut rt);

    let lib = d
        .as_borrowed()
        .new_library_with_source(&mut rt, "vertex main_vs fragment main_fs", &opts.as_borrowed())
        .expect("non-empty source compiles");

    let f = lib
        .as_borrowed()
        .get_function(&mut rt, "main_vs", None)
        .expect("a name from the source is defined");
    assert_eq!(f.as_borrowed().name(&mut rt), "main_vs");

    let missing = match lib.as_borrowed().get_function(&mut rt, "main_cs", None) {
        Ok(f) => {
            f.release(&mut rt);
            panic!("a name absent from the source must not be defined");
        },
        Err(m) => m,
    };
    assert_eq!(missing, "Function 'main_cs' does not exist");

    let unnamed = match lib.as_borrowed().get_function(&mut rt, "", None) {
        Ok(f) => {
            f.release(&mut rt);
            panic!("the empty name must never be defined");
        },
        Err(m) => m,
    };
    assert_eq!(unnamed, "Function '' does not exist");

    f.release(&mut rt);
    lib.release(&mut rt);
    opts.release(&mut rt);
    d.release(&mut rt);
}

#[test]
fn container_round_trip_returns_the_same_objects() {
    let mut rt = Registry::new(true);
    let d = device(&mut rt);
    let opts = MTLResourceOptions::storage_mode_shared();
    let b0 = d.as_borrowed().new_buffer(&mut rt, 1, opts);
    let b1 = d.as_borrowed().new_buffer(&mut rt, 2, opts);
    let b2 = d.as_borrowed().new_buffer(&mut rt, 3, opts);

    let array: Array<MTLBuffer> = {
        let views = [b0.as_borrowed(), b1.as_borrowed(), b2.as_borrowed()];
        Owned::<NSArray<MTLBuffer>>::from_slice(&mut rt, &views)
    };
    // The container retained each element.
    assert_eq!(rt.refcount(b0.raw_id()), 2);
    assert_eq!(rt.refcount(b1.raw_id()), 2);
    assert_eq!(rt.refcount(b2.raw_id()), 2);

    assert_eq!(array.len(&mut rt), 3);
    let e0 = array.get(&mut rt, 0);
    assert!(e0.same_object(&b0.as_borrowed()));
    assert_eq!(array.get(&mut rt, 1).raw_id(), b1.raw_id());
    assert_eq!(array.get(&mut rt, 2).raw_id(), b2.raw_id());

    // Tearing the container down returns each element reference.
    array.dispose(&mut rt);
    assert_eq!(rt.refcount(b0.raw_id()), 1);
    assert_eq!(rt.refcount(b1.raw_id()), 1);
    assert_eq!(rt.refcount(b2.raw_id()), 1);

    b0.release(&mut rt);
    b1.release(&mut rt);
    b2.release(&mut rt);
    d.release(&mut rt);
}

#[test]
fn container_retains_duplicates_per_occurrence() {
    let mut rt = Registry::new(true);
    let d = device(&mut rt);
    let opts = MTLResourceOptions::storage_mode_shared();
    let b = d.as_borrowed().new_buffer(&mut rt, 1, opts);

    let array: Array<MTLBuffer> = {
        let views = [b.as_borrowed(), b.as_borrowed(), b.as_borrowed()];
        Owned::<NSArray<MTLBuffer>>::from_slice(&mut rt, &views)
    };
    assert_eq!(rt.refcount(b.raw_id()), 4);
    assert_eq!(array.len(&mut rt), 3);
    array.dispose(&mut rt);
    assert_eq!(rt.refcount(b.raw_id()), 1);

    b.release(&mut rt);
    d.release(&mut rt);
}

#[test]
fn clone_survives_dropping_the_original() {
    let mut rt = Registry::new(true);
    let d = device(&mut rt);
    let id = d.raw_id();
    let second = d.clone_in(&mut rt);
    d.release(&mut rt);

    // The second owner is still valid and its description call succeeds.
    assert!(rt.is_live(id));
    let description = second.as_borrowed().description(&mut rt);
    assert_eq!(description, "MTLDevice");

    // After the second release the counts are balanced at zero net.
    second.release(&mut rt);
    assert_eq!(rt.refcount(id), 0);
    assert!(!rt.is_live(id));
}

#[test]
fn labels_round_trip_through_dispatch() {
    let mut rt = Registry::new(true);
    let d = device(&mut rt);
    let q = d.as_borrowed().new_command_queue(&mut rt);
    let view = q.as_borrowed();
    assert_eq!(view.label(&mut rt), "");
    view.set_label(&mut rt, String::from("main queue"));
    assert_eq!(view.label(&mut rt), "main queue");
    // The description of a labeled object is its label.
    assert_eq!(view.description(&mut rt), "main queue");
    q.release(&mut rt);
    d.release(&mut rt);
}

#[test]
fn kind_checks_walk_the_class_forest() {
    let mut rt = Registry::new(true);
    let d = device(&mut rt);
    let opts = MTLResourceOptions::storage_mode_shared();
    let b = d.as_borrowed().new_buffer(&mut rt, 1, opts);
    let view = b.as_borrowed();
    assert!(view.is_kind_of::<MTLBuffer>(&mut rt));
    assert!(view.is_kind_of::<MTLResourcePrototype>(&mut rt));
    assert!(view.is_kind_of::<NSObjectPrototype>(&mut rt));
    assert!(!view.is_kind_of::<MTLDevice>(&mut rt));
    assert_eq!(view.runtime_class_of(&mut rt), metal::kind::CLS_MTL_BUFFER);
    b.release(&mut rt);
    d.release(&mut rt);
}

#[test]
fn borrowed_view_clones_into_a_new_owner() {
    let mut rt = Registry::new(true);
    let d = device(&mut rt);
    let id = d.raw_id();
    let second = {
        let view = d.as_borrowed();
        view.to_owned_in(&mut rt)
    };
    assert_eq!(second.raw_id(), id);
    assert_eq!(rt.refcount(id), 2);
    d.release(&mut rt);
    second.release(&mut rt);
    assert_eq!(rt.refcount(id), 0);
}

#[test]
fn empty_container_has_no_elements() {
    let mut rt = Registry::new(true);
    let views: [metal::Borrowed<MTLBuffer>; 0] = [];
    let array: Array<MTLBuffer> = Owned::<NSArray<MTLBuffer>>::from_slice(&mut rt, &views);
    assert_eq!(array.len(&mut rt), 0);
    let aid = array.raw_id();
    array.dispose(&mut rt);
    assert!(!rt.is_live(aid));
}

#[test]
fn owned_slice_containers_borrow_their_elements() {
    let mut rt = Registry::new(true);
    let d = device(&mut rt);
    let opts = MTLResourceOptions::storage_mode_shared();
    let b0 = d.as_borrowed().new_buffer(&mut rt, 1, opts);
    let b1 = d.as_borrowed().new_buffer(&mut rt, 1, opts);
    let owners = [b0, b1];
    let array: Array<MTLBuffer> = Owned::<NSArray<MTLBuffer>>::from_owned_slice(&mut rt, &owners);
    assert_eq!(array.len(&mut rt), 2);
    assert_eq!(array.get(&mut rt, 0).raw_id(), owners[0].raw_id());
    assert_eq!(rt.refcount(owners[0].raw_id()), 2);
    array.dispose(&mut rt);
    assert_eq!(rt.refcount(owners[0].raw_id()), 1);
    let [b0, b1] = owners;
    b0.release(&mut rt);
    b1.release(&mut rt);
    d.release(&mut rt);
}

#[test]
fn command_chain_objects_are_owned_and_released() {
    let mut rt = Registry::new(true);
    let d = device(&mut rt);
    let q = d.as_borrowed().new_command_queue(&mut rt);
    let cb = q.as_borrowed().new_command_buffer(&mut rt);
    let enc = cb.as_borrowed().new_blit_command_encoder(&mut rt);
    assert_eq!(rt.refcount(q.raw_id()), 1);
    assert_eq!(rt.refcount(cb.raw_id()), 1);
    assert_eq!(rt.refcount(enc.raw_id()), 1);
    assert_eq!(enc.as_borrowed().description(&mut rt), "MTLBlitCommandEncoder");
    let enc_id = enc.raw_id();
    let cb_id = cb.raw_id();
    let q_id = q.raw_id();
    enc.release(&mut rt);
    cb.release(&mut rt);
    q.release(&mut rt);
    d.release(&mut rt);
    assert!(!rt.is_live(enc_id));
    assert!(!rt.is_live(cb_id));
    assert!(!rt.is_live(q_id));
}
