//! The owning/borrowing pair: the heart of the bridge.
//!
//! For a kind `K`, [`Owned<K>`] wraps one non-null handle and carries exactly
//! one release obligation; [`Borrowed<'_, K>`] is the non-owning view, always
//! derived from an owning value (or from a container that keeps its elements
//! alive) and unable to outlive it.  Neither wrapper ever holds a null
//! handle: constructors that can come back empty return `None` instead.
//!
//! Because the runtime state is an explicit [`Registry`] value, the release
//! that a destructor would issue is an explicit, consuming [`Owned::release`]
//! call, and every retain/release is accounted for in the registry's tallies.

use vstd::prelude::*;

use crate::dispatch::Message;
use crate::dispatch::Response;
use crate::dispatch::invoke;
use crate::kind::Kind;
use crate::kind::SubKind;
use crate::kind::is_subclass;
use crate::kind::lemma_subclass_parent;
use crate::registry::Registry;
use crate::registry::allocate_post;
use crate::registry::release_post;
use crate::registry::retain_post;
use core::marker::PhantomData;

verus! {

/// Handle `id` designates a live object whose runtime class descends from
/// `K`'s class: the invariant of every `Owned<K>` and `Borrowed<'_, K>`.
pub open spec fn obj_valid<K: Kind>(rt: Registry, id: usize) -> bool {
    &&& id != 0
    &&& rt.live(id)
    &&& is_subclass(rt.class_of(id), K::class_id())
}

/// A handle valid for a kind is valid for the kind's declared parent: the
/// upcast and the borrow ladder never invalidate a handle.
pub proof fn lemma_parent_valid<K: SubKind>(rt: Registry, id: usize)
    requires
        obj_valid::<K>(rt, id),
    ensures
        obj_valid::<K::Parent>(rt, id),
{
    K::parent_declared();
    lemma_subclass_parent(rt.class_of(id), K::class_id());
}

/// An owning handle of kind `K`: responsible for exactly one release.
pub struct Owned<K: Kind> {
    handle: usize,
    kind: PhantomData<K>,
}

/// A borrowing handle of kind `K`: a non-owning view that cannot outlive the
/// owning value (or backing container) it was derived from.
pub struct Borrowed<'a, K: Kind> {
    handle: usize,
    owner: PhantomData<&'a K>,
}

impl<K: Kind> Owned<K> {
    /// The raw handle value.
    pub closed spec fn id(&self) -> usize {
        self.handle
    }

    /// The owning value designates a live object of its declared kind.
    pub open spec fn valid(&self, rt: Registry) -> bool {
        obj_valid::<K>(rt, self.id())
    }

    /// The raw handle value, for foreign identity comparisons.
    pub fn raw_id(&self) -> (r: usize)
        ensures
            r == self.id(),
    {
        self.handle
    }

    /// Creates a fresh object of kind `K`.  The foreign convention is
    /// "returned already owned": the new value holds the object's one
    /// reference and no extra retain is issued.
    pub fn create(rt: &mut Registry) -> (o: Owned<K>)
        requires
            old(rt).obj_ct() < usize::MAX - 1,
        ensures
            allocate_post(
                *old(rt),
                *final(rt),
                K::class_id(),
                K::class_name(),
                Seq::<char>::empty(),
                Seq::<usize>::empty(),
                Seq::<u64>::empty(),
                o.id(),
            ),
            o.valid(*final(rt)),
    {
        let name = K::runtime_class_name();
        let id = rt.allocate(K::runtime_class(), name, String::new(), Vec::new(), Vec::new());
        Owned { handle: id, kind: PhantomData }
    }

    /// Wraps a raw handle that a foreign constructor returned already owned,
    /// mapping the null handle to "no object": a null handle is never wrapped
    /// into an owning value.
    pub fn from_raw(rt: &Registry, raw: usize) -> (o: Option<Owned<K>>)
        requires
            raw != 0 ==> obj_valid::<K>(*rt, raw),
        ensures
            raw == 0 ==> o is None,
            raw != 0 ==> (o matches Some(w) && w.id() == raw && w.valid(*rt)),
    {
        if raw == 0 {
            None
        } else {
            Some(Owned { handle: raw, kind: PhantomData })
        }
    }

    /// Adopts a raw handle that is known non-null, already owned, and of the
    /// right kind: the crate-internal step behind every typed constructor.
    pub(crate) fn adopt(rt: &Registry, raw: usize) -> (o: Owned<K>)
        requires
            obj_valid::<K>(*rt, raw),
        ensures
            o.id() == raw,
            o.valid(*rt),
    {
        Owned { handle: raw, kind: PhantomData }
    }

    /// Clones the owning value: one retain, then a second, independent owning
    /// value of the same object.  Each of the two will release exactly once.
    pub fn clone_in(&self, rt: &mut Registry) -> (o: Owned<K>)
        requires
            self.valid(*old(rt)),
            old(rt).count_of(self.id()) < u64::MAX,
        ensures
            retain_post(*old(rt), *final(rt), self.id()),
            o.id() == self.id(),
            o.valid(*final(rt)),
            self.valid(*final(rt)),
    {
        rt.retain(self.handle);
        Owned { handle: self.handle, kind: PhantomData }
    }

    /// Ends this owning value's life: exactly one release, consuming the
    /// value.  At count zero the object is freed.
    pub fn release(self, rt: &mut Registry)
        requires
            self.valid(*old(rt)),
        ensures
            release_post(*old(rt), *final(rt), self.id()),
    {
        rt.release(self.handle);
    }

    /// The borrowing view of this owning value.
    pub fn as_borrowed(&self) -> (b: Borrowed<'_, K>)
        ensures
            b.id() == self.id(),
    {
        Borrowed { handle: self.handle, owner: PhantomData }
    }
}

impl<K: SubKind> Owned<K> {
    /// Reclassifies the owning value as its declared parent kind, consuming
    /// it.  The single release obligation transfers to the result; no retain
    /// or release is issued, since the object's identity and count are
    /// unaffected by reclassification.
    pub fn upcast(self, rt: &Registry) -> (o: Owned<K::Parent>)
        requires
            self.valid(*rt),
        ensures
            o.id() == self.id(),
            o.valid(*rt),
    {
        proof {
            lemma_parent_valid::<K>(*rt, self.id());
        }
        Owned { handle: self.handle, kind: PhantomData }
    }
}

impl<'a, K: Kind> Borrowed<'a, K> {
    /// The raw handle value.
    pub closed spec fn id(&self) -> usize {
        self.handle
    }

    /// The borrowing value designates a live object of its declared kind.
    pub open spec fn valid(&self, rt: Registry) -> bool {
        obj_valid::<K>(rt, self.id())
    }

    /// The raw handle value, for foreign identity comparisons.
    pub fn raw_id(&self) -> (r: usize)
        ensures
            r == self.id(),
    {
        self.handle
    }

    /// Views a raw handle that some live owner keeps alive; the caller ties
    /// the lifetime to that owner.  Crate-internal.
    pub(crate) fn attach(rt: &Registry, raw: usize) -> (b: Borrowed<'a, K>)
        requires
            obj_valid::<K>(*rt, raw),
        ensures
            b.id() == raw,
            b.valid(*rt),
    {
        Borrowed { handle: raw, owner: PhantomData }
    }

    /// Foreign identity: do the two views designate the same object?
    pub fn same_object<K2: Kind>(&self, other: &Borrowed<'_, K2>) -> (r: bool)
        ensures
            r == (self.id() == other.id()),
    {
        self.handle == other.handle
    }

    /// Clones the borrowing value into an owning one: one retain, then a new
    /// owning value of the same object.
    pub fn to_owned_in(&self, rt: &mut Registry) -> (o: Owned<K>)
        requires
            self.valid(*old(rt)),
            old(rt).count_of(self.id()) < u64::MAX,
        ensures
            retain_post(*old(rt), *final(rt), self.id()),
            o.id() == self.id(),
            o.valid(*final(rt)),
    {
        rt.retain(self.handle);
        Owned { handle: self.handle, kind: PhantomData }
    }

    /// Asks the object for its diagnostic description: a read-only call that
    /// neither retains nor leaks.
    pub fn description(&self, rt: &mut Registry) -> (d: String)
        requires
            self.valid(*old(rt)),
        ensures
            *final(rt) == *old(rt),
            d@ == old(rt).description_of(self.id()),
    {
        match invoke(rt, self.handle, Message::Description) {
            Response::Text(s) => s,
            _ => String::new(),
        }
    }

    /// The object's runtime class, as the runtime reports it.
    pub fn runtime_class_of(&self, rt: &mut Registry) -> (c: u64)
        requires
            self.valid(*old(rt)),
        ensures
            *final(rt) == *old(rt),
            c == old(rt).class_of(self.id()),
    {
        match invoke(rt, self.handle, Message::RuntimeClass) {
            Response::ClassId(c) => c,
            _ => 0,
        }
    }

    /// The diagnostic kind check: does the object's runtime class descend
    /// from `D`'s class?  Dispatch never relies on this; it goes by declared
    /// kind.
    pub fn is_kind_of<D: Kind>(&self, rt: &mut Registry) -> (r: bool)
        requires
            self.valid(*old(rt)),
        ensures
            *final(rt) == *old(rt),
            r == is_subclass(old(rt).class_of(self.id()), D::class_id()),
    {
        match invoke(rt, self.handle, Message::IsKindOf(D::runtime_class())) {
            Response::Truth(b) => b,
            _ => false,
        }
    }
}

impl<'a, K: SubKind> Borrowed<'a, K> {
    /// One rung of the borrow ladder: the same handle, viewed as the declared
    /// parent kind.  A reinterpretation, not a foreign call; composing it
    /// reaches every ancestor kind.
    pub fn parent(&self, rt: &Registry) -> (b: Borrowed<'a, K::Parent>)
        requires
            self.valid(*rt),
        ensures
            b.id() == self.id(),
            b.valid(*rt),
    {
        proof {
            lemma_parent_valid::<K>(*rt, self.id());
        }
        Borrowed { handle: self.handle, owner: PhantomData }
    }
}

} // verus!
