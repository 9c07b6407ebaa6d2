//! Tests of the plain vocabulary: geometry types, packed resource options,
//! typed matrix buffers, and the substring search the library model rests on.

use metal::bridge::Owned;
use metal::commandbuffer::MTLCommandBufferStatus;
use metal::constants::MTLPixelFormat;
use metal::device::Device;
use metal::mps::Bool;
use metal::mps::Int8;
use metal::mps::MPSDataType;
use metal::mps::MatrixBuffer;
use metal::mps::UInt32;
use metal::mps::size_of_data_type;
use metal::registry::Registry;
use metal::resource::MTLCPUCacheMode;
use metal::resource::MTLResourceOptions;
use metal::resource::MTLStorageMode;
use metal::str_contains_sub;
use metal::types::MTLOrigin;
use metal::types::MTLRegion;
use metal::types::MTLSize;

#[test]
fn size_new_sets_all_fields() {
    let s = MTLSize::new(16, 8, 4);
    assert_eq!(s.width, 16);
    assert_eq!(s.height, 8);
    assert_eq!(s.depth, 4);
}

#[test]
fn region_constructors_fill_the_missing_dimensions() {
    let r1 = MTLRegion::new_1d(5, 10);
    assert_eq!(r1.origin, MTLOrigin { x: 5, y: 0, z: 0 });
    assert_eq!(r1.size, MTLSize { width: 10, height: 1, depth: 1 });

    let r2 = MTLRegion::new_2d(1, 2, 30, 40);
    assert_eq!(r2.origin, MTLOrigin { x: 1, y: 2, z: 0 });
    assert_eq!(r2.size, MTLSize { width: 30, height: 40, depth: 1 });

    let r3 = MTLRegion::new_3d(1, 2, 3, 4, 5, 6);
    assert_eq!(r3.origin, MTLOrigin { x: 1, y: 2, z: 3 });
    assert_eq!(r3.size, MTLSize { width: 4, height: 5, depth: 6 });
}

#[test]
fn resource_options_pack_and_unpack() {
    let o = MTLResourceOptions::from_modes(MTLCPUCacheMode::WriteCombined, MTLStorageMode::Private);
    assert_eq!(o.bits, 1 + 2 * 16);
    assert_eq!(o.cpu_cache_mode(), 1);
    assert_eq!(o.storage_mode(), 2);

    let shared = MTLResourceOptions::storage_mode_shared();
    assert_eq!(shared.bits, 0);
    assert_eq!(shared.storage_mode(), 0);
    assert_eq!(shared.cpu_cache_mode(), 0);
}

#[test]
fn data_type_identifiers_encode_sizes() {
    assert_eq!(size_of_data_type(Int8::data_type()), 1);
    assert_eq!(size_of_data_type(UInt32::data_type()), 4);
    assert_eq!(Int8::data_type(), 0x2000_0008);
    assert_eq!(UInt32::data_type(), 32);
    assert_eq!(Bool::data_type(), 0x8000_0008);
}

#[test]
fn word_codec_round_trips_signed_values() {
    assert_eq!(Int8::from_word(Int8::to_word(-5)), -5);
    assert_eq!(Int8::from_word(Int8::to_word(127)), 127);
    assert_eq!(UInt32::from_word(UInt32::to_word(4_000_000_000)), 4_000_000_000);
    assert_eq!(Bool::from_word(Bool::to_word(true)), true);
    assert_eq!(Bool::from_word(Bool::to_word(false)), false);
}

#[test]
fn matrix_buffer_reads_back_what_was_written() {
    let mut rt = Registry::new(true);
    let d = Device::system_default(&mut rt).expect("device present");
    let opts = MTLResourceOptions::storage_mode_shared();

    let data: Vec<u64> = vec![
        UInt32::to_word(10),
        UInt32::to_word(20),
        UInt32::to_word(30),
        UInt32::to_word(40),
        UInt32::to_word(50),
        UInt32::to_word(60),
    ];
    let buffer = d.as_borrowed().new_buffer_with_data(&mut rt, data, opts);
    let m: MatrixBuffer<UInt32> = MatrixBuffer::from_buffer(buffer, 2, 3);
    assert_eq!(m.count(), 6);
    assert_eq!(m.contents(&rt), vec![10, 20, 30, 40, 50, 60]);

    m.buffer.release(&mut rt);
    d.release(&mut rt);
}

#[test]
fn matrix_buffer_new_is_zeroed_and_writable() {
    let mut rt = Registry::new(true);
    let d = Device::system_default(&mut rt).expect("device present");
    let opts = MTLResourceOptions::storage_mode_shared();

    let m: MatrixBuffer<Int8> = MatrixBuffer::new(&mut rt, &d.as_borrowed(), 2, 2, 4, opts);
    assert_eq!(m.count(), 4);
    assert_eq!(m.contents(&rt), vec![0, 0, 0, 0]);

    let view = m.buffer.as_borrowed();
    assert_eq!(view.length(&rt), 4);
    view.write_word(&mut rt, 2, Int8::to_word(-7));
    assert_eq!(view.read_word(&rt, 2), Int8::to_word(-7));
    assert_eq!(m.contents(&rt), vec![0, 0, -7, 0]);

    m.buffer.release(&mut rt);
    d.release(&mut rt);
}

#[test]
fn substring_search_matches_the_specification() {
    assert!(str_contains_sub("vertex main_vs fragment", "main_vs"));
    assert!(str_contains_sub("abc", ""));
    assert!(str_contains_sub("abc", "abc"));
    assert!(str_contains_sub("aaab", "aab"));
    assert!(!str_contains_sub("abc", "abcd"));
    assert!(!str_contains_sub("", "a"));
    assert!(!str_contains_sub("abab", "aba_"));
}

#[test]
fn class_walk_follows_declared_parents() {
    assert!(metal::class_descends(metal::kind::CLS_MTL_BUFFER, metal::kind::CLS_MTL_RESOURCE));
    assert!(metal::class_descends(
        metal::kind::CLS_MPS_TRIANGLE_ACCELERATION_STRUCTURE,
        metal::kind::CLS_MPS_ACCELERATION_STRUCTURE,
    ));
    assert!(metal::class_descends(metal::kind::CLS_MTL_DEVICE, metal::kind::CLS_NS_OBJECT));
    assert!(!metal::class_descends(metal::kind::CLS_MTL_RESOURCE, metal::kind::CLS_MTL_BUFFER));
}

#[test]
fn enumeration_values_compare_structurally() {
    assert_eq!(MTLPixelFormat::MTLPixelFormatRGBA8Unorm, MTLPixelFormat::MTLPixelFormatRGBA8Unorm);
    assert_ne!(MTLPixelFormat::MTLPixelFormatRGBA8Unorm, MTLPixelFormat::MTLPixelFormatBGRA8Unorm);
    assert_ne!(MTLCommandBufferStatus::NotEnqueued, MTLCommandBufferStatus::Error);
}

#[test]
fn allocation_never_reuses_identifiers() {
    let mut rt = Registry::new(true);
    let d = Device::system_default(&mut rt).expect("device present");
    let first = d.raw_id();
    d.release(&mut rt);
    let d2 = Device::system_default(&mut rt).expect("device present");
    assert_ne!(d2.raw_id(), first);
    assert!(!rt.is_live(first));
    let _ = Owned::raw_id(&d2);
    d2.release(&mut rt);
}
