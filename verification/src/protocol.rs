//! Capability protocols.
//!
//! A protocol contributes operations to any kind that claims it, independent
//! of the kind's position in the inheritance chain.  Protocols add only
//! operations — storage and lifetime stay with the object — so one kind may
//! claim several protocols without conflict.

use vstd::prelude::*;

use crate::bridge::Borrowed;
use crate::dispatch::Message;
use crate::dispatch::Response;
use crate::dispatch::invoke;
use crate::kind::Kind;
use crate::registry::Registry;
use crate::registry::same_except;

verus! {

/// The base capability protocol: a kind reports its runtime class and answers
/// the generic object operations (retain, release, kind check, description).
/// Its obligations are exactly those of [`Kind`], so every kind conforms.
pub trait NSObjectProtocol: Kind {

}

impl<K: Kind> NSObjectProtocol for K {

}

/// The labeling capability: the foreign runtime lets objects of a claiming
/// kind carry a mutable diagnostic label.
pub trait Labeled: Kind {

}

impl<'a, K: Labeled> Borrowed<'a, K> {
    /// The object's label, copied out.
    pub fn label(&self, rt: &mut Registry) -> (l: String)
        requires
            self.valid(*old(rt)),
        ensures
            *final(rt) == *old(rt),
            l@ == old(rt).label_of(self.id()),
    {
        match invoke(rt, self.raw_id(), Message::Label) {
            Response::Text(s) => s,
            _ => String::new(),
        }
    }

    /// Replaces the object's label.
    pub fn set_label(&self, rt: &mut Registry, label: String)
        requires
            self.valid(*old(rt)),
        ensures
            final(rt).label_of(self.id()) == label@,
            final(rt).count_of(self.id()) == old(rt).count_of(self.id()),
            same_except(*old(rt), *final(rt), self.id()),
            final(rt).retains_tally() == old(rt).retains_tally(),
            final(rt).releases_tally() == old(rt).releases_tally(),
            self.valid(*final(rt)),
    {
        let resp = invoke(rt, self.raw_id(), Message::SetLabel(label));
        match resp {
            Response::Done => (),
            _ => (),
        }
    }
}

} // verus!
