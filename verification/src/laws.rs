//! The bridge's laws: what must hold of every owning value, upcast, borrow
//! ladder and container, proved from the contracts of the operations alone.
//!
//! Each law quantifies over runtime states and relates them through the
//! operations' published postconditions (`allocate_post`, `retain_post`,
//! `release_post`, `invoke_post`, `array_created`), so it covers every
//! execution of the corresponding calls.

use vstd::prelude::*;

use crate::array::array_created;
use crate::dispatch::Message;
use crate::dispatch::Response;
use crate::dispatch::invoke_post;
use crate::kind::SubKind;
use crate::registry::Registry;
use crate::registry::allocate_post;
use crate::registry::obj_same;
use crate::registry::release_post;
use crate::registry::retain_post;

verus! {

/// Balanced lifetime: an owning value created and then released without
/// being cloned issues exactly one retain-equivalent (the initial ownership)
/// and exactly one release.  The object ends dead and no other object moves.
pub proof fn lemma_balanced_lifetime(
    r0: Registry,
    r1: Registry,
    r2: Registry,
    class: u64,
    name: Seq<char>,
    label: Seq<char>,
    elems: Seq<usize>,
    words: Seq<u64>,
    id: usize,
)
    requires
        allocate_post(r0, r1, class, name, label, elems, words, id),
        release_post(r1, r2, id),
    ensures
        r2.retains_tally() == r0.retains_tally() + 1,
        r2.releases_tally() == r0.releases_tally() + 1,
        !r2.live(id),
        forall|j: usize| j != id ==> #[trigger] obj_same(r0, r2, j),
{
    assert forall|j: usize| j != id implies #[trigger] obj_same(r0, r2, j) by {
        assert(obj_same(r0, r1, j));
        assert(obj_same(r1, r2, j));
    }
}

/// Balanced lifetime of a clone, and survival of the second owner: after
/// cloning an owning value, releasing one owner leaves the object live with
/// an unchanged description — the other owner is still valid — and releasing
/// the second frees it, with exactly one retain beyond the initial ownership,
/// two releases, and zero net effect on everything else.
pub proof fn lemma_clone_then_drop(
    r0: Registry,
    r1: Registry,
    r2: Registry,
    r3: Registry,
    r4: Registry,
    class: u64,
    name: Seq<char>,
    label: Seq<char>,
    elems: Seq<usize>,
    words: Seq<u64>,
    id: usize,
)
    requires
        allocate_post(r0, r1, class, name, label, elems, words, id),
        retain_post(r1, r2, id),
        release_post(r2, r3, id),
        release_post(r3, r4, id),
    ensures
        r3.live(id),
        r3.description_of(id) == r1.description_of(id),
        !r4.live(id),
        r4.retains_tally() == r0.retains_tally() + 2,
        r4.releases_tally() == r0.releases_tally() + 2,
        forall|j: usize| j != id ==> #[trigger] obj_same(r0, r4, j),
{
    assert forall|j: usize| j != id implies #[trigger] obj_same(r0, r4, j) by {
        assert(obj_same(r0, r1, j));
        assert(obj_same(r1, r2, j));
        assert(obj_same(r2, r3, j));
        assert(obj_same(r3, r4, j));
    }
}

/// Upcast is ownership-preserving.  `Owned::upcast` reads the registry but
/// cannot move it (it takes `&Registry`), keeps the handle, and yields a
/// value that is valid for the parent kind; so dropping the reclassified
/// value is one release of the very object created — not two, and none
/// skipped.
pub proof fn lemma_upcast_ownership<K: SubKind>(r0: Registry, r1: Registry, id: usize)
    requires
        crate::bridge::obj_valid::<K>(r0, id),
        release_post(r0, r1, id),
    ensures
        crate::bridge::obj_valid::<K::Parent>(r0, id),
        r1.releases_tally() == r0.releases_tally() + 1,
        r1.retains_tally() == r0.retains_tally(),
        r1.count_of(id) == r0.count_of(id) - 1,
{
    crate::bridge::lemma_parent_valid::<K>(r0, id);
}

/// The text a dispatch response carries.
pub open spec fn text_of(resp: Response) -> Seq<char> {
    match resp {
        Response::Text(s) => s@,
        _ => Seq::empty(),
    }
}

/// Deref ladder correctness: the borrow ladder keeps the handle
/// (`Borrowed::parent` ensures it), and a read-only operation's result is a
/// function of the registry and the handle alone; so an operation defined on
/// an ancestor kind, invoked through a descendant's view taken up the ladder,
/// returns the identical description as invoking it on an ancestor view of
/// the same handle directly — and neither invocation moves the registry.
pub proof fn lemma_ladder_correct(
    r0: Registry,
    r1: Registry,
    r2: Registry,
    through_ladder: usize,
    direct: usize,
    ra: Response,
    rb: Response,
)
    requires
        through_ladder == direct,
        invoke_post(r0, r1, through_ladder, Message::Description, ra),
        invoke_post(r1, r2, direct, Message::Description, rb),
    ensures
        r1 == r0,
        r2 == r0,
        text_of(ra) == text_of(rb),
{
}

/// Container adapter round trip: a container built from `ids` answers its
/// element count with exactly `ids.len()`, and yields for each index the very
/// handle that went in — foreign identity, not a copy — while the registry
/// stays put.
pub proof fn lemma_container_round_trip(
    r0: Registry,
    r1: Registry,
    r2: Registry,
    r3: Registry,
    ids: Seq<usize>,
    aid: usize,
    i: usize,
    rlen: Response,
    rget: Response,
)
    requires
        array_created(r0, r1, ids, aid),
        invoke_post(r1, r2, aid, Message::ElementCount, rlen),
        i < ids.len(),
        invoke_post(r2, r3, aid, Message::ElementAt(i), rget),
    ensures
        r2 == r1,
        r3 == r1,
        rlen matches Response::Amount(n) && n == ids.len(),
        rget matches Response::Handle(e) && e == ids[i as int],
{
}

} // verus!
