//! Performance counter vocabulary.

use vstd::prelude::*;

use crate::bridge::Owned;
use crate::kind::CLS_MTL_COMMON_COUNTER;
use crate::kind::CLS_MTL_COMMON_COUNTER_SET;
use crate::kind::CLS_MTL_COUNTER;
use crate::kind::CLS_MTL_COUNTER_SAMPLE_BUFFER;
use crate::kind::CLS_MTL_COUNTER_SET;
use crate::kind::Kind;
use crate::kind::NSObjectPrototype;
use crate::kind::SubKind;

verus! {

/// The kind marker of the foreign `MTLCounterSampleBuffer` class.
pub enum MTLCounterSampleBuffer {
    Prototype,
}

impl Kind for MTLCounterSampleBuffer {
    open spec fn class_id() -> u64 {
        CLS_MTL_COUNTER_SAMPLE_BUFFER
    }

    open spec fn class_name() -> Seq<char> {
        "MTLCounterSampleBuffer"@
    }

    fn runtime_class() -> u64 {
        CLS_MTL_COUNTER_SAMPLE_BUFFER
    }

    fn runtime_class_name() -> &'static str {
        "MTLCounterSampleBuffer"
    }

    proof fn declared() {
        reveal_strlit("MTLCounterSampleBuffer");
    }
}

impl SubKind for MTLCounterSampleBuffer {
    type Parent = NSObjectPrototype;

    proof fn parent_declared() {
    }
}

/// The kind marker of the foreign `MTLCounter` class.
pub enum MTLCounter {
    Prototype,
}

impl Kind for MTLCounter {
    open spec fn class_id() -> u64 {
        CLS_MTL_COUNTER
    }

    open spec fn class_name() -> Seq<char> {
        "MTLCounter"@
    }

    fn runtime_class() -> u64 {
        CLS_MTL_COUNTER
    }

    fn runtime_class_name() -> &'static str {
        "MTLCounter"
    }

    proof fn declared() {
        reveal_strlit("MTLCounter");
    }
}

impl SubKind for MTLCounter {
    type Parent = NSObjectPrototype;

    proof fn parent_declared() {
    }
}

/// The kind marker of the foreign `MTLCounterSet` class.
pub enum MTLCounterSet {
    Prototype,
}

impl Kind for MTLCounterSet {
    open spec fn class_id() -> u64 {
        CLS_MTL_COUNTER_SET
    }

    open spec fn class_name() -> Seq<char> {
        "MTLCounterSet"@
    }

    fn runtime_class() -> u64 {
        CLS_MTL_COUNTER_SET
    }

    fn runtime_class_name() -> &'static str {
        "MTLCounterSet"
    }

    proof fn declared() {
        reveal_strlit("MTLCounterSet");
    }
}

impl SubKind for MTLCounterSet {
    type Parent = NSObjectPrototype;

    proof fn parent_declared() {
    }
}

/// The kind marker of the foreign `MTLCommonCounterSet` class.
pub enum MTLCommonCounterSet {
    Prototype,
}

impl Kind for MTLCommonCounterSet {
    open spec fn class_id() -> u64 {
        CLS_MTL_COMMON_COUNTER_SET
    }

    open spec fn class_name() -> Seq<char> {
        "MTLCommonCounterSet"@
    }

    fn runtime_class() -> u64 {
        CLS_MTL_COMMON_COUNTER_SET
    }

    fn runtime_class_name() -> &'static str {
        "MTLCommonCounterSet"
    }

    proof fn declared() {
        reveal_strlit("MTLCommonCounterSet");
    }
}

impl SubKind for MTLCommonCounterSet {
    type Parent = NSObjectPrototype;

    proof fn parent_declared() {
    }
}

/// The kind marker of the foreign `MTLCommonCounter` class.
pub enum MTLCommonCounter {
    Prototype,
}

impl Kind for MTLCommonCounter {
    open spec fn class_id() -> u64 {
        CLS_MTL_COMMON_COUNTER
    }

    open spec fn class_name() -> Seq<char> {
        "MTLCommonCounter"@
    }

    fn runtime_class() -> u64 {
        CLS_MTL_COMMON_COUNTER
    }

    fn runtime_class_name() -> &'static str {
        "MTLCommonCounter"
    }

    proof fn declared() {
        reveal_strlit("MTLCommonCounter");
    }
}

impl SubKind for MTLCommonCounter {
    type Parent = NSObjectPrototype;

    proof fn parent_declared() {
    }
}

/// An owning handle to a `MTLCounterSampleBuffer` object.
pub type CounterSampleBuffer = Owned<MTLCounterSampleBuffer>;

/// An owning handle to a `MTLCounter` object.
pub type Counter = Owned<MTLCounter>;

/// An owning handle to a `MTLCounterSet` object.
pub type CounterSet = Owned<MTLCounterSet>;

/// An owning handle to a `MTLCommonCounter` object.
pub type CommonCounter = Owned<MTLCommonCounter>;

} // verus!
