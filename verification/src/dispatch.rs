//! The dynamic dispatch helper.
//!
//! Every concrete operation of the typed layer funnels through [`invoke`]:
//! one named operation, one receiver, one typed response.  The contract below
//! fixes, per operation, exactly which response arrives and how the runtime
//! state moves — what the foreign runtime leaves unchecked is checked here.
//! A null or dead receiver is a contract violation and is excluded by
//! `requires`, never caught at run time.
//!
//! [`invoke_checked`] is the variant for operations that can fail: on failure
//! the runtime materializes an error object, the helper copies its
//! description out, releases the error object — the message outlives it, the
//! object does not — and returns the message as the error.

use vstd::prelude::*;

use crate::kind::CLS_MTL_DEVICE;
use crate::kind::CLS_MTL_FUNCTION;
use crate::kind::CLS_MTL_LIBRARY;
use crate::kind::CLS_NS_ARRAY;
use crate::kind::CLS_NS_ERROR;
use crate::kind::is_subclass;
use crate::registry::Registry;
use crate::registry::allocate_post;
use crate::registry::obj_same;
use crate::registry::same_except;
use crate::text::seq_contains_sub;
use crate::text::str_contains_sub;

verus! {

/// The operations the model runtime dispatches dynamically.
pub enum Message {
    /// Ask for the diagnostic description.
    Description,
    /// Ask for the runtime class.
    RuntimeClass,
    /// Ask whether the runtime class descends from the given class.
    IsKindOf(u64),
    /// Ask for the label.
    Label,
    /// Replace the label.
    SetLabel(String),
    /// Ask a container how many elements it references.
    ElementCount,
    /// Ask a container for the element at an index.  Out of range is a
    /// contract violation, not a typed error: a known sharp edge.
    ElementAt(usize),
    /// Ask a factory object for a fresh child object of the given class,
    /// returned already owned by the caller.
    NewObject { class: u64, name: String },
}

/// The typed responses of the dispatcher.
pub enum Response {
    /// Nothing to return.
    Done,
    /// A truth value.
    Truth(bool),
    /// A cardinality or index.
    Amount(usize),
    /// A class identifier.
    ClassId(u64),
    /// A copied-out string.
    Text(String),
    /// A handle; whether it is owned is fixed per operation.
    Handle(usize),
}

/// Which classes respond to which operations.  Sending an operation to a
/// class that does not respond to it is a contract violation, exactly as a
/// missing selector is in the foreign runtime.
pub open spec fn responds_to(class: u64, msg: Message) -> bool {
    match msg {
        Message::ElementCount => is_subclass(class, CLS_NS_ARRAY),
        Message::ElementAt(_) => is_subclass(class, CLS_NS_ARRAY),
        _ => true,
    }
}

/// The per-operation argument obligations.
pub open spec fn message_wf(r0: Registry, receiver: usize, msg: Message) -> bool {
    match msg {
        Message::ElementAt(i) => i < r0.elems_of(receiver).len(),
        Message::NewObject { class, name } => r0.obj_ct() < usize::MAX - 1,
        _ => true,
    }
}

/// What each operation returns and how the runtime moves: the dispatch
/// contract.
pub open spec fn invoke_post(
    r0: Registry,
    r1: Registry,
    receiver: usize,
    msg: Message,
    resp: Response,
) -> bool {
    match msg {
        Message::Description => r1 == r0 && (resp matches Response::Text(d)
            && d@ == r0.description_of(receiver)),
        Message::RuntimeClass => r1 == r0 && (resp matches Response::ClassId(c)
            && c == r0.class_of(receiver)),
        Message::IsKindOf(d) => r1 == r0 && (resp matches Response::Truth(b)
            && b == is_subclass(r0.class_of(receiver), d)),
        Message::Label => r1 == r0 && (resp matches Response::Text(l)
            && l@ == r0.label_of(receiver)),
        Message::SetLabel(l) => {
            &&& resp is Done
            &&& r1.label_of(receiver) == l@
            &&& r1.count_of(receiver) == r0.count_of(receiver)
            &&& r1.class_of(receiver) == r0.class_of(receiver)
            &&& r1.name_of(receiver) == r0.name_of(receiver)
            &&& r1.elems_of(receiver) == r0.elems_of(receiver)
            &&& r1.words_of(receiver) == r0.words_of(receiver)
            &&& same_except(r0, r1, receiver)
            &&& r1.retains_tally() == r0.retains_tally()
            &&& r1.releases_tally() == r0.releases_tally()
        },
        Message::ElementCount => r1 == r0 && (resp matches Response::Amount(n)
            && n == r0.elems_of(receiver).len()),
        Message::ElementAt(i) => r1 == r0 && (resp matches Response::Handle(e)
            && e == r0.elems_of(receiver)[i as int]),
        Message::NewObject { class, name } => resp matches Response::Handle(id)
            && allocate_post(
            r0,
            r1,
            class,
            name@,
            Seq::<char>::empty(),
            Seq::<usize>::empty(),
            Seq::<u64>::empty(),
            id,
        ),
    }
}

/// Performs one dynamic call on a live receiver.  The response's variant and
/// value are fixed per operation by [`invoke_post`]; the call is synchronous
/// and introduces no concurrency.
pub fn invoke(rt: &mut Registry, receiver: usize, msg: Message) -> (resp: Response)
    requires
        old(rt).live(receiver),
        responds_to(old(rt).class_of(receiver), msg),
        message_wf(*old(rt), receiver, msg),
    ensures
        invoke_post(*old(rt), *final(rt), receiver, msg, resp),
{
    match msg {
        Message::Description => Response::Text(rt.description_text(receiver)),
        Message::RuntimeClass => Response::ClassId(rt.runtime_class_of(receiver)),
        Message::IsKindOf(d) => {
            let c = rt.runtime_class_of(receiver);
            Response::Truth(crate::kind::class_descends(c, d))
        },
        Message::Label => Response::Text(rt.label_text(receiver)),
        Message::SetLabel(l) => {
            rt.set_label(receiver, l);
            Response::Done
        },
        Message::ElementCount => Response::Amount(rt.elems_len(receiver)),
        Message::ElementAt(i) => Response::Handle(rt.elem_at(receiver, i)),
        Message::NewObject { class, name } => {
            let id = rt.allocate(class, name.as_str(), String::new(), Vec::new(), Vec::new());
            Response::Handle(id)
        },
    }
}

/// The fallible operations: constructions the runtime may refuse.
pub enum CheckedMessage {
    /// Compile shader source into a library object.  The model runtime
    /// accepts any non-empty source and stores it as the library's text.
    CompileSource(String),
    /// Look a function up in a library object.  The model runtime defines
    /// every non-empty name that occurs in the library's stored source.
    FindFunction(String),
}

/// Which classes the fallible operations may be sent to.
pub open spec fn checked_responds(class: u64, req: CheckedMessage) -> bool {
    match req {
        CheckedMessage::CompileSource(_) => is_subclass(class, CLS_MTL_DEVICE),
        CheckedMessage::FindFunction(_) => is_subclass(class, CLS_MTL_LIBRARY),
    }
}

/// On which requests the runtime succeeds: exactly these return `Ok`.
pub open spec fn checked_accepts(r0: Registry, receiver: usize, req: CheckedMessage) -> bool {
    match req {
        CheckedMessage::CompileSource(src) => src@.len() > 0,
        CheckedMessage::FindFunction(name) => name@.len() > 0 && seq_contains_sub(
            r0.label_of(receiver),
            name@,
        ),
    }
}

/// The message the foreign error object reports for a refused request.
pub open spec fn checked_failure_message(req: CheckedMessage) -> Seq<char> {
    match req {
        CheckedMessage::CompileSource(_) => "compilation failed: empty shader source"@,
        CheckedMessage::FindFunction(name) => "Function '"@ + name@ + "' does not exist"@,
    }
}

/// The class of the object a successful request creates.
pub open spec fn checked_new_class(req: CheckedMessage) -> u64 {
    match req {
        CheckedMessage::CompileSource(_) => CLS_MTL_LIBRARY,
        CheckedMessage::FindFunction(_) => CLS_MTL_FUNCTION,
    }
}

/// The class name of the object a successful request creates.
pub open spec fn checked_new_name(req: CheckedMessage) -> Seq<char> {
    match req {
        CheckedMessage::CompileSource(_) => "MTLLibrary"@,
        CheckedMessage::FindFunction(_) => "MTLFunction"@,
    }
}

/// The label of the object a successful request creates: the library keeps
/// its source, the function keeps its name.
pub open spec fn checked_new_label(req: CheckedMessage) -> Seq<char> {
    match req {
        CheckedMessage::CompileSource(src) => src@,
        CheckedMessage::FindFunction(name) => name@,
    }
}

/// How a refused request leaves the runtime: the error object was created and
/// fully released — no leak — and nothing else moved.
pub open spec fn checked_failure_state(r0: Registry, r1: Registry) -> bool {
    &&& r1.obj_ct() == r0.obj_ct() + 1
    &&& !r1.live((r0.obj_ct() + 1) as usize)
    &&& forall|j: usize| j as int != r0.obj_ct() + 1 ==> #[trigger] obj_same(r0, r1, j)
    &&& r1.has_system_device() == r0.has_system_device()
    &&& r1.retains_tally() == r0.retains_tally() + 1
    &&& r1.releases_tally() == r0.releases_tally() + 1
}

/// What `invoke_checked` did.  `Ok` exactly on the accepted requests, with a
/// fresh object owned by the caller.  On failure, the returned description is
/// never empty, it is exactly what the error object reported, and the error
/// object itself was created and fully released: no leak, and nothing else
/// moved.
pub open spec fn invoke_checked_post(
    r0: Registry,
    r1: Registry,
    receiver: usize,
    req: CheckedMessage,
    result: Result<usize, String>,
) -> bool {
    &&& (result is Ok <==> checked_accepts(r0, receiver, req))
    &&& match result {
        Ok(id) => allocate_post(
            r0,
            r1,
            checked_new_class(req),
            checked_new_name(req),
            checked_new_label(req),
            Seq::<usize>::empty(),
            Seq::<u64>::empty(),
            id,
        ),
        Err(m) => {
            &&& m@ == checked_failure_message(req)
            &&& m@.len() > 0
            &&& checked_failure_state(r0, r1)
        },
    }
}

/// Materializes a refusal the way the runtime does: allocates the error
/// object carrying the message, copies its description out, and releases the
/// error object.  The description outlives the object; the object does not
/// leak.
fn checked_fail(rt: &mut Registry, msg: String) -> (m: String)
    requires
        old(rt).obj_ct() < usize::MAX - 1,
        msg@.len() > 0,
    ensures
        m@ == msg@,
        final(rt).obj_ct() == old(rt).obj_ct() + 1,
        !final(rt).live((old(rt).obj_ct() + 1) as usize),
        forall|j: usize|
            j as int != old(rt).obj_ct() + 1 ==> #[trigger] obj_same(*old(rt), *final(rt), j),
        final(rt).has_system_device() == old(rt).has_system_device(),
        final(rt).retains_tally() == old(rt).retains_tally() + 1,
        final(rt).releases_tally() == old(rt).releases_tally() + 1,
{
    let err_id = rt.allocate(CLS_NS_ERROR, "NSError", msg, Vec::new(), Vec::new());
    let ghost mid = *rt;
    let m = rt.description_text(err_id);
    rt.release(err_id);
    proof {
        assert forall|j: usize| j != err_id implies #[trigger] obj_same(*old(rt), *rt, j) by {
            assert(obj_same(*old(rt), mid, j));
            assert(obj_same(mid, *rt, j));
        }
    }
    m
}

/// Performs one fallible construction on a live receiver; see
/// [`invoke_checked_post`] for the full contract.
pub fn invoke_checked(rt: &mut Registry, receiver: usize, req: CheckedMessage) -> (result: Result<
    usize,
    String,
>)
    requires
        old(rt).live(receiver),
        checked_responds(old(rt).class_of(receiver), req),
        old(rt).obj_ct() < usize::MAX - 1,
    ensures
        invoke_checked_post(*old(rt), *final(rt), receiver, req, result),
{
    match req {
        CheckedMessage::CompileSource(src) => {
            if !src.as_str().is_empty() {
                let id = rt.allocate(CLS_MTL_LIBRARY, "MTLLibrary", src, Vec::new(), Vec::new());
                Ok(id)
            } else {
                let msg = String::from_str("compilation failed: empty shader source");
                proof {
                    reveal_strlit("compilation failed: empty shader source");
                }
                Err(checked_fail(rt, msg))
            }
        },
        CheckedMessage::FindFunction(name) => {
            let source = rt.label_text(receiver);
            if !name.as_str().is_empty() && str_contains_sub(source.as_str(), name.as_str()) {
                let id = rt.allocate(CLS_MTL_FUNCTION, "MTLFunction", name, Vec::new(), Vec::new());
                Ok(id)
            } else {
                let msg = String::from_str("Function '").concat(name.as_str()).concat(
                    "' does not exist",
                );
                proof {
                    reveal_strlit("Function '");
                }
                Err(checked_fail(rt, msg))
            }
        },
    }
}

} // verus!
