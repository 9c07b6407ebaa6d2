//! The container adapter: a foreign ordered container of objects of one kind.
//!
//! [`NSArray<K>`] is the kind marker of the foreign array class, tagged with
//! the element kind; an owned array is an [`Owned<NSArray<K>>`].  Construction
//! copies the borrowed element handles into a fresh foreign container, which
//! retains each element — the slice itself is neither retained nor kept
//! alive.  `len` and `get` are bounds-checked by the runtime: an out-of-range
//! index is a contract violation, not a typed error.
//!
//! The model runtime does not cascade releases, so the container's teardown
//! is the explicit [`dispose`](Owned::<NSArray<K>>::dispose): it returns the
//! container's element references and then the container's own reference.

use vstd::prelude::*;

use crate::bridge::Borrowed;
use crate::bridge::Owned;
use crate::bridge::obj_valid;
use crate::dispatch::Message;
use crate::dispatch::Response;
use crate::dispatch::invoke;
use crate::kind::CLS_NS_ARRAY;
use crate::kind::Kind;
use crate::kind::NSObjectPrototype;
use crate::kind::SubKind;
use crate::registry::Registry;
use crate::registry::obj_attrs_same;
use core::marker::PhantomData;

verus! {

/// The foreign array class, tagged with its element kind.
pub struct NSArray<T> {
    marker: PhantomData<T>,
}

impl<T: Kind> Kind for NSArray<T> {
    open spec fn class_id() -> u64 {
        CLS_NS_ARRAY
    }

    open spec fn class_name() -> Seq<char> {
        "NSArray"@
    }

    fn runtime_class() -> u64 {
        CLS_NS_ARRAY
    }

    fn runtime_class_name() -> &'static str {
        "NSArray"
    }

    proof fn declared() {
        reveal_strlit("NSArray");
    }
}

impl<T: Kind> SubKind for NSArray<T> {
    type Parent = NSObjectPrototype;

    proof fn parent_declared() {
    }
}

/// An owned foreign array of elements of kind `K`.
pub type Array<K> = Owned<NSArray<K>>;

/// How often `x` occurs in `s`.
pub open spec fn occurrences(s: Seq<usize>, x: usize) -> nat
    decreases s.len(),
{
    if s.len() == 0 {
        0
    } else {
        occurrences(s.drop_last(), x) + if s.last() == x {
            1nat
        } else {
            0nat
        }
    }
}

/// Appending one element raises its occurrence tally by one and no other.
pub proof fn lemma_occurrences_push(s: Seq<usize>, x: usize, y: usize)
    ensures
        occurrences(s.push(x), y) == occurrences(s, y) + if x == y {
            1int
        } else {
            0int
        },
{
    assert(s.push(x).drop_last() =~= s);
}

/// A prefix never holds more occurrences than the whole.
pub proof fn lemma_occurrences_prefix(s: Seq<usize>, y: usize, k: int)
    requires
        0 <= k <= s.len(),
    ensures
        occurrences(s.subrange(0, k), y) <= occurrences(s, y),
    decreases s.len() - k,
{
    if k == s.len() {
        assert(s.subrange(0, k) =~= s);
    } else {
        assert(s.subrange(0, k + 1) =~= s.subrange(0, k).push(s[k]));
        lemma_occurrences_push(s.subrange(0, k), s[k], y);
        lemma_occurrences_prefix(s, y, k + 1);
    }
}

/// The raw handles of a slice of borrowed elements, in order.
pub open spec fn ids_of<'a, K: Kind>(s: Seq<Borrowed<'a, K>>) -> Seq<usize> {
    Seq::new(s.len(), |i: int| s[i].id())
}

/// The raw handles of a slice of owning elements, in order.
pub open spec fn owned_ids<K: Kind>(s: Seq<Owned<K>>) -> Seq<usize> {
    Seq::new(s.len(), |i: int| s[i].id())
}

/// What constructing an array did: `aid` is the fresh container holding
/// exactly the given handles in order, every element was retained once per
/// occurrence, and nothing else moved.
pub open spec fn array_created(r0: Registry, r1: Registry, ids: Seq<usize>, aid: usize) -> bool {
    &&& aid == r0.obj_ct() + 1
    &&& !r0.contains(aid)
    &&& r1.contains(aid)
    &&& r1.obj_ct() == r0.obj_ct() + 1
    &&& r1.count_of(aid) == 1
    &&& r1.class_of(aid) == CLS_NS_ARRAY
    &&& r1.name_of(aid) == "NSArray"@
    &&& r1.elems_of(aid) == ids
    &&& r1.words_of(aid) == Seq::<u64>::empty()
    &&& forall|j: usize|
        j != aid ==> #[trigger] r1.count_of(j) == r0.count_of(j) + occurrences(ids, j)
    &&& forall|j: usize| j != aid ==> #[trigger] obj_attrs_same(r0, r1, j)
    &&& r1.retains_tally() == r0.retains_tally() + ids.len() + 1
    &&& r1.releases_tally() == r0.releases_tally()
    &&& r1.has_system_device() == r0.has_system_device()
}

/// What disposing an array did: every element reference was returned, then
/// the container's own, and nothing else moved.
pub open spec fn array_disposed(r0: Registry, r1: Registry, ids: Seq<usize>, aid: usize) -> bool {
    &&& r1.obj_ct() == r0.obj_ct()
    &&& r1.count_of(aid) == 0
    &&& forall|j: usize|
        j != aid ==> #[trigger] r1.count_of(j) == r0.count_of(j) - occurrences(ids, j)
    &&& forall|j: usize| #[trigger] obj_attrs_same(r0, r1, j)
    &&& r1.retains_tally() == r0.retains_tally()
    &&& r1.releases_tally() == r0.releases_tally() + ids.len() + 1
    &&& r1.has_system_device() == r0.has_system_device()
}

impl<K: Kind> Owned<NSArray<K>> {
    /// Builds a foreign array from borrowed elements.  The container retains
    /// each element; the slice itself is not retained or kept alive beyond
    /// the call.  The result is owned by the caller.
    pub fn from_slice<'a>(rt: &mut Registry, s: &[Borrowed<'a, K>]) -> (a: Array<K>)
        requires
            old(rt).obj_ct() < usize::MAX - 1,
            forall|l: int| 0 <= l < s@.len() ==> (#[trigger] s@[l]).valid(*old(rt)),
            forall|y: usize|
                #[trigger] old(rt).count_of(y) + occurrences(ids_of(s@), y) <= u64::MAX,
        ensures
            array_created(*old(rt), *final(rt), ids_of(s@), a.id()),
            a.valid(*final(rt)),
    {
        let ghost r0 = *old(rt);
        let ghost ids = ids_of(s@);
        let mut handles: Vec<usize> = Vec::new();
        let mut k: usize = 0;
        while k < s.len()
            invariant
                k <= s@.len(),
                handles@.len() == k,
                forall|l: int| 0 <= l < k ==> handles@[l] == ids_of(s@)[l],
            decreases s@.len() - k,
        {
            let b = &s[k];
            handles.push(b.raw_id());
            k += 1;
        }
        assert(handles@ =~= ids);
        let mut k: usize = 0;
        while k < handles.len()
            invariant
                k <= handles@.len(),
                handles@ == ids,
                ids == ids_of(s@),
                forall|l: int| 0 <= l < s@.len() ==> (#[trigger] s@[l]).valid(r0),
                forall|y: usize| #[trigger] r0.count_of(y) + occurrences(ids, y) <= u64::MAX,
                rt.obj_ct() == r0.obj_ct(),
                r0.obj_ct() < usize::MAX - 1,
                forall|y: usize|
                    #[trigger] rt.count_of(y) == r0.count_of(y) + occurrences(
                        ids.subrange(0, k as int),
                        y,
                    ),
                forall|y: usize| #[trigger] obj_attrs_same(r0, *rt, y),
                rt.retains_tally() == r0.retains_tally() + k,
                rt.releases_tally() == r0.releases_tally(),
                rt.has_system_device() == r0.has_system_device(),
            decreases handles@.len() - k,
        {
            let e = handles[k];
            proof {
                assert(ids[k as int] == s@[k as int].id());
                lemma_occurrences_prefix(ids, e, k + 1);
                assert(ids.subrange(0, k as int + 1) =~= ids.subrange(0, k as int).push(e));
                lemma_occurrences_push(ids.subrange(0, k as int), e, e);
                assert(rt.count_of(e) < u64::MAX);
                assert(rt.live(e)) by {
                    assert(s@[k as int].valid(r0));
                    assert(r0.count_of(e) > 0);
                }
            }
            let ghost prev = *rt;
            rt.retain(e);
            proof {
                assert forall|y: usize|
                    #[trigger] rt.count_of(y) == r0.count_of(y) + occurrences(
                        ids.subrange(0, k as int + 1),
                        y,
                    ) by {
                    assert(ids.subrange(0, k as int + 1) =~= ids.subrange(0, k as int).push(e));
                    lemma_occurrences_push(ids.subrange(0, k as int), e, y);
                    if y != e {
                        assert(crate::registry::obj_same(prev, *rt, y));
                    }
                }
                assert forall|y: usize| #[trigger] obj_attrs_same(r0, *rt, y) by {
                    assert(obj_attrs_same(r0, prev, y));
                    if y != e {
                        assert(crate::registry::obj_same(prev, *rt, y));
                    } else {
                        assert(obj_attrs_same(prev, *rt, y));
                    }
                }
            }
            k += 1;
        }
        assert(ids.subrange(0, ids.len() as int) =~= ids);
        let ghost before_alloc = *rt;
        let aid = rt.allocate(CLS_NS_ARRAY, "NSArray", String::new(), handles, Vec::new());
        let a = Owned::<NSArray<K>>::adopt(rt, aid);
        proof {
            assert forall|j: usize|
                j != aid implies #[trigger] rt.count_of(j) == r0.count_of(j) + occurrences(
                ids,
                j,
            ) by {
                assert(crate::registry::obj_same(before_alloc, *rt, j));
            }
            assert forall|j: usize| j != aid implies #[trigger] obj_attrs_same(r0, *rt, j) by {
                assert(crate::registry::obj_same(before_alloc, *rt, j));
                assert(obj_attrs_same(r0, before_alloc, j));
            }
        }
        a
    }

    /// Builds a foreign array from owning elements, borrowing each for the
    /// duration of the call: the elements keep their own references, and the
    /// container adds one more per occurrence.
    pub fn from_owned_slice<'a>(rt: &mut Registry, s: &'a [Owned<K>]) -> (a: Array<K>)
        requires
            old(rt).obj_ct() < usize::MAX - 1,
            forall|l: int| 0 <= l < s@.len() ==> (#[trigger] s@[l]).valid(*old(rt)),
            forall|y: usize|
                #[trigger] old(rt).count_of(y) + occurrences(owned_ids(s@), y) <= u64::MAX,
        ensures
            array_created(*old(rt), *final(rt), owned_ids(s@), a.id()),
            a.valid(*final(rt)),
    {
        let mut views: Vec<Borrowed<'a, K>> = Vec::new();
        let mut k: usize = 0;
        while k < s.len()
            invariant
                k <= s@.len(),
                views@.len() == k,
                forall|l: int| 0 <= l < k ==> #[trigger] views@[l].id() == s@[l].id(),
            decreases s@.len() - k,
        {
            views.push(s[k].as_borrowed());
            k += 1;
        }
        proof {
            assert(ids_of(views@) =~= owned_ids(s@));
            assert forall|l: int| 0 <= l < views@.len() implies (#[trigger] views@[l]).valid(
                *rt,
            ) by {
                assert(s@[l].valid(*rt));
            }
        }
        Owned::<NSArray<K>>::from_slice(rt, views.as_slice())
    }

    /// How many elements the container references.
    pub fn len(&self, rt: &mut Registry) -> (n: usize)
        requires
            self.valid(*old(rt)),
        ensures
            *final(rt) == *old(rt),
            n == old(rt).elems_of(self.id()).len(),
    {
        match invoke(rt, self.raw_id(), Message::ElementCount) {
            Response::Amount(n) => n,
            _ => 0,
        }
    }

    /// The `i`-th element, as a borrowing view backed by the container's own
    /// retention of it.  An out-of-range index is a contract violation, as in
    /// the foreign runtime.
    pub fn get<'s>(&'s self, rt: &mut Registry, i: usize) -> (b: Borrowed<'s, K>)
        requires
            self.valid(*old(rt)),
            i < old(rt).elems_of(self.id()).len(),
            obj_valid::<K>(*old(rt), old(rt).elems_of(self.id())[i as int]),
        ensures
            *final(rt) == *old(rt),
            b.id() == old(rt).elems_of(self.id())[i as int],
            b.valid(*final(rt)),
    {
        let raw = match invoke(rt, self.raw_id(), Message::ElementAt(i)) {
            Response::Handle(e) => e,
            _ => 0,
        };
        Borrowed::attach(rt, raw)
    }

    /// Returns the container's element references and then its own: the
    /// teardown of the last owner.  Requires sole ownership, a container that
    /// does not contain itself, and elements whose counts cover the
    /// container's references.
    pub fn dispose(self, rt: &mut Registry)
        requires
            self.valid(*old(rt)),
            old(rt).count_of(self.id()) == 1,
            occurrences(old(rt).elems_of(self.id()), self.id()) == 0,
            forall|y: usize|
                y != self.id() ==> occurrences(old(rt).elems_of(self.id()), y) <= #[trigger] old(
                    rt,
                ).count_of(y),
        ensures
            array_disposed(*old(rt), *final(rt), old(rt).elems_of(self.id()), self.id()),
    {
        let ghost r0 = *old(rt);
        let ghost aid_g = self.id();
        let ghost ids = r0.elems_of(self.id());
        let aid = self.raw_id();
        let n = rt.elems_len(aid);
        let mut k: usize = 0;
        while k < n
            invariant
                k <= n,
                n == ids.len(),
                ids == r0.elems_of(aid),
                aid == aid_g,
                occurrences(ids, aid) == 0,
                forall|y: usize|
                    y != aid ==> occurrences(ids, y) <= #[trigger] r0.count_of(y),
                rt.obj_ct() == r0.obj_ct(),
                rt.count_of(aid) == 1,
                forall|y: usize|
                    y != aid ==> #[trigger] rt.count_of(y) == r0.count_of(y) - occurrences(
                        ids.subrange(0, k as int),
                        y,
                    ),
                forall|y: usize| #[trigger] obj_attrs_same(r0, *rt, y),
                rt.retains_tally() == r0.retains_tally(),
                rt.releases_tally() == r0.releases_tally() + k,
                rt.has_system_device() == r0.has_system_device(),
            decreases n - k,
        {
            proof {
                assert(obj_attrs_same(r0, *rt, aid));
            }
            let e = rt.elem_at(aid, k);
            proof {
                assert(e == ids[k as int]);
                lemma_occurrences_prefix(ids, e, k + 1);
                assert(ids.subrange(0, k as int + 1) =~= ids.subrange(0, k as int).push(e));
                lemma_occurrences_push(ids.subrange(0, k as int), e, e);
                assert(e != aid);
                assert(rt.live(e));
            }
            let ghost prev = *rt;
            rt.release(e);
            proof {
                assert forall|y: usize|
                    y != aid implies #[trigger] rt.count_of(y) == r0.count_of(y) - occurrences(
                    ids.subrange(0, k as int + 1),
                    y,
                ) by {
                    assert(ids.subrange(0, k as int + 1) =~= ids.subrange(0, k as int).push(e));
                    lemma_occurrences_push(ids.subrange(0, k as int), e, y);
                    if y != e {
                        assert(crate::registry::obj_same(prev, *rt, y));
                    }
                }
                assert forall|y: usize| #[trigger] obj_attrs_same(r0, *rt, y) by {
                    if y != e {
                        assert(crate::registry::obj_same(prev, *rt, y));
                    }
                    assert(obj_attrs_same(r0, prev, y));
                }
                assert(crate::registry::obj_same(prev, *rt, aid));
            }
            k += 1;
        }
        assert(ids.subrange(0, ids.len() as int) =~= ids);
        let ghost before_last = *rt;
        rt.release(aid);
        proof {
            assert forall|y: usize|
                y != aid implies #[trigger] rt.count_of(y) == r0.count_of(y) - occurrences(
                ids,
                y,
            ) by {
                assert(crate::registry::obj_same(before_last, *rt, y));
            }
            assert forall|y: usize| #[trigger] obj_attrs_same(r0, *rt, y) by {
                if y != aid {
                    assert(crate::registry::obj_same(before_last, *rt, y));
                }
                assert(obj_attrs_same(r0, before_last, y));
            }
        }
    }

}

} // verus!
