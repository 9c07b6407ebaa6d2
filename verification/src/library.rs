//! Shader libraries and the functions compiled into them.
//!
//! The model runtime keeps a library's source as its stored text and treats
//! every non-empty name that occurs in it as a defined function; looking up
//! any other name fails the way the foreign runtime does, with a descriptive
//! error and no leaked object.

use vstd::prelude::*;

use crate::bridge::Borrowed;
use crate::bridge::Owned;
use crate::dispatch::CheckedMessage;
use crate::dispatch::Message;
use crate::dispatch::Response;
use crate::dispatch::checked_failure_state;
use crate::dispatch::invoke;
use crate::dispatch::invoke_checked;
use crate::kind::CLS_MTL_COMPILE_OPTIONS;
use crate::kind::CLS_MTL_FUNCTION;
use crate::kind::CLS_MTL_FUNCTION_CONSTANT_VALUES;
use crate::kind::CLS_MTL_LIBRARY;
use crate::kind::CLS_MTL_VERTEX_ATTRIBUTE;
use crate::kind::Kind;
use crate::kind::NSObjectPrototype;
use crate::kind::SubKind;
use crate::protocol::Labeled;
use crate::registry::Registry;
use crate::registry::allocate_post;
use crate::text::seq_contains_sub;

verus! {

/// Mirrors the foreign `MTLFunctionType` enumeration.
#[derive(Clone, Copy, Debug, PartialEq, Eq, Structural)]
pub enum MTLFunctionType {
    Vertex,
    Fragment,
    Kernel,
}

/// Mirrors the foreign `MTLLanguageVersion` enumeration.
#[allow(non_camel_case_types)]
#[derive(Clone, Copy, Debug, PartialEq, Eq, Structural)]
pub enum MTLLanguageVersion {
    V1_0,
    V1_1,
    V1_2,
    V2_0,
}

/// Mirrors the foreign `MTLLibraryError` enumeration.
#[derive(Clone, Copy, Debug, PartialEq, Eq, Structural)]
pub enum MTLLibraryError {
    Unsupported,
    Internal,
    CompileFailure,
    CompileWarning,
}

/// The kind marker of the foreign `MTLVertexAttribute` class.
pub enum MTLVertexAttribute {
    Prototype,
}

impl Kind for MTLVertexAttribute {
    open spec fn class_id() -> u64 {
        CLS_MTL_VERTEX_ATTRIBUTE
    }

    open spec fn class_name() -> Seq<char> {
        "MTLVertexAttribute"@
    }

    fn runtime_class() -> u64 {
        CLS_MTL_VERTEX_ATTRIBUTE
    }

    fn runtime_class_name() -> &'static str {
        "MTLVertexAttribute"
    }

    proof fn declared() {
        reveal_strlit("MTLVertexAttribute");
    }
}

impl SubKind for MTLVertexAttribute {
    type Parent = NSObjectPrototype;

    proof fn parent_declared() {
    }
}

/// An owning handle to a vertex attribute.
pub type VertexAttribute = Owned<MTLVertexAttribute>;

/// The kind marker of the foreign `MTLFunction` class.
pub enum MTLFunction {
    Prototype,
}

impl Kind for MTLFunction {
    open spec fn class_id() -> u64 {
        CLS_MTL_FUNCTION
    }

    open spec fn class_name() -> Seq<char> {
        "MTLFunction"@
    }

    fn runtime_class() -> u64 {
        CLS_MTL_FUNCTION
    }

    fn runtime_class_name() -> &'static str {
        "MTLFunction"
    }

    proof fn declared() {
        reveal_strlit("MTLFunction");
    }
}

impl SubKind for MTLFunction {
    type Parent = NSObjectPrototype;

    proof fn parent_declared() {
    }
}

/// An owning handle to a shader function.
pub type Function = Owned<MTLFunction>;

/// The kind marker of the foreign `MTLFunctionConstantValues` class.
pub enum MTLFunctionConstantValues {
    Prototype,
}

impl Kind for MTLFunctionConstantValues {
    open spec fn class_id() -> u64 {
        CLS_MTL_FUNCTION_CONSTANT_VALUES
    }

    open spec fn class_name() -> Seq<char> {
        "MTLFunctionConstantValues"@
    }

    fn runtime_class() -> u64 {
        CLS_MTL_FUNCTION_CONSTANT_VALUES
    }

    fn runtime_class_name() -> &'static str {
        "MTLFunctionConstantValues"
    }

    proof fn declared() {
        reveal_strlit("MTLFunctionConstantValues");
    }
}

impl SubKind for MTLFunctionConstantValues {
    type Parent = NSObjectPrototype;

    proof fn parent_declared() {
    }
}

/// An owning handle to a set of function constant values.
pub type FunctionConstantValues = Owned<MTLFunctionConstantValues>;

/// The kind marker of the foreign `MTLCompileOptions` class.
pub enum MTLCompileOptions {
    Prototype,
}

impl Kind for MTLCompileOptions {
    open spec fn class_id() -> u64 {
        CLS_MTL_COMPILE_OPTIONS
    }

    open spec fn class_name() -> Seq<char> {
        "MTLCompileOptions"@
    }

    fn runtime_class() -> u64 {
        CLS_MTL_COMPILE_OPTIONS
    }

    fn runtime_class_name() -> &'static str {
        "MTLCompileOptions"
    }

    proof fn declared() {
        reveal_strlit("MTLCompileOptions");
    }
}

impl SubKind for MTLCompileOptions {
    type Parent = NSObjectPrototype;

    proof fn parent_declared() {
    }
}

/// An owning handle to a set of compile options.
pub type CompileOptions = Owned<MTLCompileOptions>;

/// The kind marker of the foreign `MTLLibrary` class.
pub enum MTLLibrary {
    Prototype,
}

impl Kind for MTLLibrary {
    open spec fn class_id() -> u64 {
        CLS_MTL_LIBRARY
    }

    open spec fn class_name() -> Seq<char> {
        "MTLLibrary"@
    }

    fn runtime_class() -> u64 {
        CLS_MTL_LIBRARY
    }

    fn runtime_class_name() -> &'static str {
        "MTLLibrary"
    }

    proof fn declared() {
        reveal_strlit("MTLLibrary");
    }
}

impl SubKind for MTLLibrary {
    type Parent = NSObjectPrototype;

    proof fn parent_declared() {
    }
}

impl Labeled for MTLLibrary {

}

/// An owning handle to a shader library.
pub type Library = Owned<MTLLibrary>;

impl<'a> Borrowed<'a, MTLFunction> {
    /// The function's name, as the runtime reports it.
    pub fn name(&self, rt: &mut Registry) -> (n: String)
        requires
            self.valid(*old(rt)),
        ensures
            *final(rt) == *old(rt),
            n@ == old(rt).label_of(self.id()),
    {
        match invoke(rt, self.raw_id(), Message::Label) {
            Response::Text(s) => s,
            _ => String::new(),
        }
    }
}

impl<'a> Borrowed<'a, MTLLibrary> {
    /// Looks a function up by name.  Succeeds exactly when the non-empty
    /// name occurs in the library's stored source, handing back a fresh
    /// owned function object carrying that name; fails otherwise with the
    /// error object's description, and the error object does not leak.
    pub fn get_function(
        &self,
        rt: &mut Registry,
        name: &str,
        constants: Option<&Owned<MTLFunctionConstantValues>>,
    ) -> (r: Result<Function, String>)
        requires
            self.valid(*old(rt)),
            old(rt).obj_ct() < usize::MAX - 1,
            constants matches Some(c) ==> c.valid(*old(rt)),
        ensures
            r is Ok <==> name@.len() > 0 && seq_contains_sub(
                old(rt).label_of(self.id()),
                name@,
            ),
            r matches Ok(f) ==> allocate_post(
                *old(rt),
                *final(rt),
                CLS_MTL_FUNCTION,
                "MTLFunction"@,
                name@,
                Seq::<usize>::empty(),
                Seq::<u64>::empty(),
                f.id(),
            ) && f.valid(*final(rt)),
            r matches Err(m) ==> m@ == "Function '"@ + name@ + "' does not exist"@
                && checked_failure_state(*old(rt), *final(rt)),
    {
        let req = CheckedMessage::FindFunction(name.to_owned());
        match invoke_checked(rt, self.raw_id(), req) {
            Ok(id) => Ok(Owned::<MTLFunction>::adopt(rt, id)),
            Err(m) => Err(m),
        }
    }
}

} // verus!
