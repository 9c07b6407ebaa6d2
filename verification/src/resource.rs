//! Resources: the common ancestor of buffers and textures, and the packed
//! resource option bits.

use vstd::prelude::*;

use crate::bridge::Owned;
use crate::kind::CLS_MTL_RESOURCE;
use crate::kind::Kind;
use crate::kind::NSObjectPrototype;
use crate::kind::SubKind;
use crate::protocol::Labeled;

verus! {

/// Mirrors the foreign `MTLPurgeableState` enumeration.
#[derive(Clone, Copy, Debug, PartialEq, Eq, Structural)]
pub enum MTLPurgeableState {
    KeepCurrent,
    NonVolatile,
    Volatile,
    Empty,
}

/// Mirrors the foreign `MTLCPUCacheMode` enumeration.
#[derive(Clone, Copy, Debug, PartialEq, Eq, Structural)]
pub enum MTLCPUCacheMode {
    DefaultCache,
    WriteCombined,
}

/// Mirrors the foreign `MTLStorageMode` enumeration.
#[derive(Clone, Copy, Debug, PartialEq, Eq, Structural)]
pub enum MTLStorageMode {
    Shared,
    Managed,
    Private,
}

/// Where the cache-mode field sits in the packed resource options.
pub const MTLResourceCPUCacheModeShift: u64 = 0;

/// The mask of the cache-mode field.
pub const MTLResourceCPUCacheModeMask: u64 = 0xf << MTLResourceCPUCacheModeShift;

/// Where the storage-mode field sits in the packed resource options.
pub const MTLResourceStorageModeShift: u64 = 4;

/// The mask of the storage-mode field.
pub const MTLResourceStorageModeMask: u64 = 0xf << MTLResourceStorageModeShift;

impl MTLCPUCacheMode {
    /// The numeric value the foreign interface assigns this mode.
    pub open spec fn spec_code(self) -> u64 {
        match self {
            MTLCPUCacheMode::DefaultCache => 0,
            MTLCPUCacheMode::WriteCombined => 1,
        }
    }

    /// The numeric value the foreign interface assigns this mode.
    pub fn code(self) -> (c: u64)
        ensures
            c == self.spec_code(),
    {
        match self {
            MTLCPUCacheMode::DefaultCache => 0,
            MTLCPUCacheMode::WriteCombined => 1,
        }
    }
}

impl MTLStorageMode {
    /// The numeric value the foreign interface assigns this mode.
    pub open spec fn spec_code(self) -> u64 {
        match self {
            MTLStorageMode::Shared => 0,
            MTLStorageMode::Managed => 1,
            MTLStorageMode::Private => 2,
        }
    }

    /// The numeric value the foreign interface assigns this mode.
    pub fn code(self) -> (c: u64)
        ensures
            c == self.spec_code(),
    {
        match self {
            MTLStorageMode::Shared => 0,
            MTLStorageMode::Managed => 1,
            MTLStorageMode::Private => 2,
        }
    }
}

/// The packed resource options: a cache mode in the low field and a storage
/// mode in the next, with the same layout as the foreign bit field.
#[derive(Clone, Copy, Debug, PartialEq, Eq, Structural)]
pub struct MTLResourceOptions {
    pub bits: u64,
}

impl MTLResourceOptions {
    /// Packs a cache mode and a storage mode.
    pub fn from_modes(cache: MTLCPUCacheMode, storage: MTLStorageMode) -> (r:
        MTLResourceOptions)
        ensures
            r.bits == cache.spec_code() + storage.spec_code() * 16,
            r.cpu_cache_mode_code() == cache.spec_code(),
            r.storage_mode_code() == storage.spec_code(),
    {
        let bits = cache.code() + storage.code() * 16;
        MTLResourceOptions { bits }
    }

    /// Shared storage with the default cache mode: the zero word.
    pub fn storage_mode_shared() -> (r: MTLResourceOptions)
        ensures
            r.bits == 0,
            r.storage_mode_code() == MTLStorageMode::Shared.spec_code(),
    {
        MTLResourceOptions { bits: 0 }
    }

    /// The packed cache-mode field.
    pub open spec fn cpu_cache_mode_code(self) -> u64 {
        self.bits % 16
    }

    /// The packed storage-mode field.
    pub open spec fn storage_mode_code(self) -> u64 {
        (self.bits / 16) % 16
    }

    /// Unpacks the cache-mode field.
    pub fn cpu_cache_mode(self) -> (c: u64)
        ensures
            c == self.cpu_cache_mode_code(),
    {
        self.bits % 16
    }

    /// Unpacks the storage-mode field.
    pub fn storage_mode(self) -> (s: u64)
        ensures
            s == self.storage_mode_code(),
    {
        (self.bits / 16) % 16
    }
}

/// A size and an alignment, as the foreign heap interface reports them.
#[derive(Clone, Copy, Debug, PartialEq, Eq, Structural)]
pub struct MTLSizeAndAlign {
    pub size: usize,
    pub align: usize,
}

/// The kind marker of the foreign `MTLResource` class.
pub enum MTLResourcePrototype {
    Prototype,
}

impl Kind for MTLResourcePrototype {
    open spec fn class_id() -> u64 {
        CLS_MTL_RESOURCE
    }

    open spec fn class_name() -> Seq<char> {
        "MTLResource"@
    }

    fn runtime_class() -> u64 {
        CLS_MTL_RESOURCE
    }

    fn runtime_class_name() -> &'static str {
        "MTLResource"
    }

    proof fn declared() {
        reveal_strlit("MTLResource");
    }
}

impl SubKind for MTLResourcePrototype {
    type Parent = NSObjectPrototype;

    proof fn parent_declared() {
    }
}

impl Labeled for MTLResourcePrototype {

}

/// An owning handle to a resource, viewed at the ancestor kind.
pub type MTLResource = Owned<MTLResourcePrototype>;

} // verus!
