//! The model of the foreign runtime's object store.
//!
//! The only shared mutable state of the bridged runtime is the set of live
//! objects and their reference counts; the bridge never reads that state
//! directly, it only triggers retains and releases.  This module makes that
//! state explicit as a [`Registry`] value so that every retain/release
//! obligation of the typed layer can be stated and proved against it.
//!
//! An object is designated by a non-zero `usize` identifier; `0` plays the
//! role of the null handle and never designates an object.  Identifiers are
//! never reused: an object whose count reaches zero is dead, and every
//! operation of the runtime demands a live receiver.
//!
//! Besides its reference count, each object records its runtime class, the
//! class name, a mutable label, and — for objects that have them — a list of
//! referenced objects (containers) and a block of payload words (buffers).
//! The ghost tallies `retains` and `releases` count every counting operation
//! ever issued, so that balance laws can be stated exactly.

use vstd::prelude::*;

verus! {

/// One object of the modeled runtime.
struct Slot {
    /// The current reference count; zero means the object is dead.
    count: u64,
    /// The runtime class the object was created with.
    class: u64,
    /// The class name, fixed at creation, reported by diagnostics.
    name: String,
    /// A mutable label; fallible operations store failure messages here.
    label: String,
    /// Identifiers of objects this object references (container contents).
    elems: Vec<usize>,
    /// Payload words (buffer contents).
    words: Vec<u64>,
}

/// The modeled runtime: every object ever allocated, plus the instrumentation
/// tallies.
pub struct Registry {
    slots: Vec<Slot>,
    /// Whether a system default device is present on this machine.
    system_device: bool,
    /// How many retain-equivalents were ever issued (creation counts as one).
    retains: Ghost<int>,
    /// How many releases were ever issued.
    releases: Ghost<int>,
}

impl Registry {
    /// How many objects were ever allocated.
    pub closed spec fn obj_ct(&self) -> nat {
        self.slots@.len()
    }

    /// Does `id` designate an object (live or dead)?
    pub open spec fn contains(&self, id: usize) -> bool {
        1 <= id <= self.obj_ct()
    }

    /// The reference count of `id`; zero for the dead and for the never
    /// allocated.
    pub closed spec fn count_of(&self, id: usize) -> u64 {
        if self.contains(id) {
            self.slots@[id - 1].count
        } else {
            0
        }
    }

    /// Is `id` a live object?
    pub open spec fn live(&self, id: usize) -> bool {
        self.count_of(id) > 0
    }

    /// The runtime class of `id`.
    pub closed spec fn class_of(&self, id: usize) -> u64 {
        if self.contains(id) {
            self.slots@[id - 1].class
        } else {
            0
        }
    }

    /// The class name recorded for `id`.
    pub closed spec fn name_of(&self, id: usize) -> Seq<char> {
        if self.contains(id) {
            self.slots@[id - 1].name@
        } else {
            Seq::empty()
        }
    }

    /// The label of `id`.
    pub closed spec fn label_of(&self, id: usize) -> Seq<char> {
        if self.contains(id) {
            self.slots@[id - 1].label@
        } else {
            Seq::empty()
        }
    }

    /// The referenced objects of `id`.
    pub closed spec fn elems_of(&self, id: usize) -> Seq<usize> {
        if self.contains(id) {
            self.slots@[id - 1].elems@
        } else {
            Seq::empty()
        }
    }

    /// The payload words of `id`.
    pub closed spec fn words_of(&self, id: usize) -> Seq<u64> {
        if self.contains(id) {
            self.slots@[id - 1].words@
        } else {
            Seq::empty()
        }
    }

    /// The diagnostic description of `id`: its label when one was set, its
    /// class name otherwise.
    pub open spec fn description_of(&self, id: usize) -> Seq<char> {
        if self.label_of(id).len() > 0 {
            self.label_of(id)
        } else {
            self.name_of(id)
        }
    }

    /// How many retain-equivalents were ever issued.
    pub closed spec fn retains_tally(&self) -> int {
        self.retains@
    }

    /// How many releases were ever issued.
    pub closed spec fn releases_tally(&self) -> int {
        self.releases@
    }

    /// Whether a system default device is present.
    pub closed spec fn has_system_device(&self) -> bool {
        self.system_device
    }
}

/// Object `id` has the same attributes in `r0` and `r1`, its reference count
/// aside.
pub open spec fn obj_attrs_same(r0: Registry, r1: Registry, id: usize) -> bool {
    &&& r0.contains(id) == r1.contains(id)
    &&& r0.class_of(id) == r1.class_of(id)
    &&& r0.name_of(id) == r1.name_of(id)
    &&& r0.label_of(id) == r1.label_of(id)
    &&& r0.elems_of(id) == r1.elems_of(id)
    &&& r0.words_of(id) == r1.words_of(id)
}

/// Object `id` looks the same in `r0` and `r1`.
pub open spec fn obj_same(r0: Registry, r1: Registry, id: usize) -> bool {
    &&& obj_attrs_same(r0, r1, id)
    &&& r0.count_of(id) == r1.count_of(id)
}

/// Every object but `id` looks the same in `r0` and `r1`, and no object was
/// allocated or lost.
pub open spec fn same_except(r0: Registry, r1: Registry, id: usize) -> bool {
    &&& r1.obj_ct() == r0.obj_ct()
    &&& r1.has_system_device() == r0.has_system_device()
    &&& forall|j: usize| j != id ==> #[trigger] obj_same(r0, r1, j)
}

/// What `allocate` did: `id` is the fresh object, owned by the caller with count
/// one, and nothing else moved.  Creation is the caller's one
/// retain-equivalent.
pub open spec fn allocate_post(
    r0: Registry,
    r1: Registry,
    class: u64,
    name: Seq<char>,
    label: Seq<char>,
    elems: Seq<usize>,
    words: Seq<u64>,
    id: usize,
) -> bool {
    &&& id == r0.obj_ct() + 1
    &&& !r0.contains(id)
    &&& r1.contains(id)
    &&& r1.obj_ct() == r0.obj_ct() + 1
    &&& r1.count_of(id) == 1
    &&& r1.class_of(id) == class
    &&& r1.name_of(id) == name
    &&& r1.label_of(id) == label
    &&& r1.elems_of(id) == elems
    &&& r1.words_of(id) == words
    &&& r1.has_system_device() == r0.has_system_device()
    &&& forall|j: usize| j != id ==> #[trigger] obj_same(r0, r1, j)
    &&& r1.retains_tally() == r0.retains_tally() + 1
    &&& r1.releases_tally() == r0.releases_tally()
}

/// What `retain` did: one more count on `id`, one more retain on the tally,
/// and nothing else moved.
pub open spec fn retain_post(r0: Registry, r1: Registry, id: usize) -> bool {
    &&& r1.count_of(id) == r0.count_of(id) + 1
    &&& r1.class_of(id) == r0.class_of(id)
    &&& r1.name_of(id) == r0.name_of(id)
    &&& r1.label_of(id) == r0.label_of(id)
    &&& r1.elems_of(id) == r0.elems_of(id)
    &&& r1.words_of(id) == r0.words_of(id)
    &&& same_except(r0, r1, id)
    &&& r1.retains_tally() == r0.retains_tally() + 1
    &&& r1.releases_tally() == r0.releases_tally()
}

/// What `release` did: one count less on `id` — possibly freeing it — one
/// more release on the tally, and nothing else moved.
pub open spec fn release_post(r0: Registry, r1: Registry, id: usize) -> bool {
    &&& r1.count_of(id) == r0.count_of(id) - 1
    &&& r1.class_of(id) == r0.class_of(id)
    &&& r1.name_of(id) == r0.name_of(id)
    &&& r1.label_of(id) == r0.label_of(id)
    &&& r1.elems_of(id) == r0.elems_of(id)
    &&& r1.words_of(id) == r0.words_of(id)
    &&& same_except(r0, r1, id)
    &&& r1.retains_tally() == r0.retains_tally()
    &&& r1.releases_tally() == r0.releases_tally() + 1
}

impl Registry {
    /// A fresh runtime with no objects and balanced tallies.
    pub fn new(system_device: bool) -> (r: Registry)
        ensures
            r.obj_ct() == 0,
            r.retains_tally() == 0,
            r.releases_tally() == 0,
            r.has_system_device() == system_device,
    {
        Registry {
            slots: Vec::new(),
            system_device,
            retains: Ghost(0int),
            releases: Ghost(0int),
        }
    }

    /// Allocates a fresh object.  The returned identifier is non-null and the
    /// caller holds its one reference: the foreign convention is "returned
    /// already owned".
    pub fn allocate(
        &mut self,
        class: u64,
        name: &str,
        label: String,
        elems: Vec<usize>,
        words: Vec<u64>,
    ) -> (id: usize)
        requires
            old(self).obj_ct() < usize::MAX - 1,
        ensures
            allocate_post(*old(self), *final(self), class, name@, label@, elems@, words@, id),
    {
        let id = self.slots.len() + 1;
        let slot = Slot { count: 1, class, name: name.to_owned(), label, elems, words };
        self.slots.push(slot);
        proof {
            self.retains = Ghost(self.retains@ + 1);
        }
        assert(forall|j: usize| j != id ==> #[trigger] obj_same(*old(self), *self, j));
        id
    }

    /// Issues one retain on a live object: its count grows by one and the
    /// same identifier remains valid.
    pub fn retain(&mut self, id: usize)
        requires
            old(self).live(id),
            old(self).count_of(id) < u64::MAX,
        ensures
            retain_post(*old(self), *final(self), id),
    {
        let i = id - 1;
        let c = self.slots[i].count;
        self.slots[i].count = c + 1;
        proof {
            self.retains = Ghost(self.retains@ + 1);
        }
        assert(forall|j: usize| j != id ==> #[trigger] obj_same(*old(self), *self, j));
    }

    /// Issues one release on a live object: its count drops by one; at zero
    /// the object is dead and must never be used again.
    pub fn release(&mut self, id: usize)
        requires
            old(self).live(id),
        ensures
            release_post(*old(self), *final(self), id),
    {
        let i = id - 1;
        let c = self.slots[i].count;
        self.slots[i].count = c - 1;
        proof {
            self.releases = Ghost(self.releases@ + 1);
        }
        assert(forall|j: usize| j != id ==> #[trigger] obj_same(*old(self), *self, j));
    }

    /// Replaces the label of a live object.
    pub fn set_label(&mut self, id: usize, label: String)
        requires
            old(self).live(id),
        ensures
            final(self).label_of(id) == label@,
            final(self).count_of(id) == old(self).count_of(id),
            final(self).class_of(id) == old(self).class_of(id),
            final(self).name_of(id) == old(self).name_of(id),
            final(self).elems_of(id) == old(self).elems_of(id),
            final(self).words_of(id) == old(self).words_of(id),
            same_except(*old(self), *final(self), id),
            final(self).retains_tally() == old(self).retains_tally(),
            final(self).releases_tally() == old(self).releases_tally(),
    {
        let i = id - 1;
        self.slots[i].label = label;
        assert(forall|j: usize| j != id ==> #[trigger] obj_same(*old(self), *self, j));
    }

    /// The reference count of `id`, as the instrumented runtime reports it.
    pub fn refcount(&self, id: usize) -> (c: u64)
        ensures
            c == self.count_of(id),
    {
        if 1 <= id && id <= self.slots.len() {
            self.slots[id - 1].count
        } else {
            0
        }
    }

    /// Is `id` a live object?
    pub fn is_live(&self, id: usize) -> (r: bool)
        ensures
            r == self.live(id),
    {
        self.refcount(id) > 0
    }

    /// Whether a system default device is present.
    pub fn system_device_present(&self) -> (b: bool)
        ensures
            b == self.has_system_device(),
    {
        self.system_device
    }

    /// How many objects were ever allocated.
    pub fn object_count(&self) -> (n: usize)
        ensures
            n == self.obj_ct(),
    {
        self.slots.len()
    }

    /// The runtime class of a live object.
    pub fn runtime_class_of(&self, id: usize) -> (c: u64)
        requires
            self.live(id),
        ensures
            c == self.class_of(id),
    {
        self.slots[id - 1].class
    }

    /// The label of a live object, copied out.
    pub fn label_text(&self, id: usize) -> (l: String)
        requires
            self.live(id),
        ensures
            l@ == self.label_of(id),
    {
        self.slots[id - 1].label.clone()
    }

    /// The diagnostic description of a live object, copied out: its label
    /// when one was set, its class name otherwise.  A read-only call: it
    /// neither retains nor leaks.
    pub fn description_text(&self, id: usize) -> (d: String)
        requires
            self.live(id),
        ensures
            d@ == self.description_of(id),
    {
        if !self.slots[id - 1].label.as_str().is_empty() {
            self.slots[id - 1].label.clone()
        } else {
            self.slots[id - 1].name.clone()
        }
    }

    /// How many objects a live container references.
    pub fn elems_len(&self, id: usize) -> (n: usize)
        requires
            self.live(id),
        ensures
            n == self.elems_of(id).len(),
    {
        self.slots[id - 1].elems.len()
    }

    /// The `i`-th referenced object of a live container.  Out of range is a
    /// contract violation, as it is in the foreign runtime.
    pub fn elem_at(&self, id: usize, i: usize) -> (e: usize)
        requires
            self.live(id),
            i < self.elems_of(id).len(),
        ensures
            e == self.elems_of(id)[i as int],
    {
        self.slots[id - 1].elems[i]
    }

    /// How many payload words a live object carries.
    pub fn words_len(&self, id: usize) -> (n: usize)
        requires
            self.live(id),
        ensures
            n == self.words_of(id).len(),
    {
        self.slots[id - 1].words.len()
    }

    /// The `i`-th payload word of a live object.
    pub fn word_at(&self, id: usize, i: usize) -> (w: u64)
        requires
            self.live(id),
            i < self.words_of(id).len(),
        ensures
            w == self.words_of(id)[i as int],
    {
        self.slots[id - 1].words[i]
    }

    /// Overwrites the `i`-th payload word of a live object.
    pub fn set_word(&mut self, id: usize, i: usize, w: u64)
        requires
            old(self).live(id),
            i < old(self).words_of(id).len(),
        ensures
            final(self).words_of(id) == old(self).words_of(id).update(i as int, w),
            final(self).count_of(id) == old(self).count_of(id),
            final(self).class_of(id) == old(self).class_of(id),
            final(self).name_of(id) == old(self).name_of(id),
            final(self).label_of(id) == old(self).label_of(id),
            final(self).elems_of(id) == old(self).elems_of(id),
            same_except(*old(self), *final(self), id),
            final(self).retains_tally() == old(self).retains_tally(),
            final(self).releases_tally() == old(self).releases_tally(),
    {
        let oi = id - 1;
        self.slots[oi].words[i] = w;
        assert(forall|j: usize| j != id ==> #[trigger] obj_same(*old(self), *self, j));
    }
}

} // verus!
