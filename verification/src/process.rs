//! What a running process holds of a call: terms, code and stack frames.

use vstd::prelude::*;
use vstd::string::*;
use std::sync::Arc;

verus! {

/// A tagged machine word that stands for an Erlang term.
#[derive(Clone, Copy, Debug, PartialEq, Eq, Structural)]
pub struct Term {
    pub tagged: usize,
}

/// The native code of a function, known by the address of its entry point.
#[derive(Clone, Copy, Debug, PartialEq, Eq, Structural)]
pub struct Code {
    pub address: usize,
}

/// The module, name and arity of a function at run time.
#[derive(Debug, PartialEq, Eq)]
pub struct ModuleFunctionArity {
    pub module: String,
    pub function: String,
    pub arity: usize,
}

/// `Arc::clone` of std: one more handle to the value that `handle` shares.
///
/// Trusted: the new handle points at the same value.
#[verifier::external_body]
pub(crate) fn share<T>(handle: &Arc<T>) -> (other: Arc<T>)
    ensures
        other == *handle,
{
    Arc::clone(handle)
}

/// One activation of a function on a process's stack: the function, its
/// code and the terms pushed for it, the last pushed on top.
#[derive(Debug)]
pub struct Frame {
    module_function_arity: Arc<ModuleFunctionArity>,
    code: Code,
    data: Vec<Term>,
}

/// What a `Frame` holds.
pub struct FrameView {
    pub module_function_arity: ModuleFunctionArity,
    pub code: Code,
    pub data: Seq<Term>,
}

impl View for Frame {
    type V = FrameView;

    closed spec fn view(&self) -> FrameView {
        FrameView {
            module_function_arity: *self.module_function_arity,
            code: self.code,
            data: self.data@,
        }
    }
}

impl Frame {
    /// A frame for the function, with nothing pushed.
    pub fn new(module_function_arity: Arc<ModuleFunctionArity>, code: Code) -> (frame: Self)
        ensures
            frame@ == (FrameView {
                module_function_arity: *module_function_arity,
                code,
                data: Seq::empty(),
            }),
    {
        Frame { module_function_arity, code, data: Vec::new() }
    }

    /// Pushes a term on top of the frame's data.
    pub fn push(&mut self, term: Term)
        ensures
            final(self)@ == (FrameView { data: old(self)@.data.push(term), ..old(self)@ }),
    {
        self.data.push(term);
    }

    /// How many terms the frame holds.
    pub fn len(&self) -> (n: usize)
        ensures
            n == self@.data.len(),
    {
        self.data.len()
    }

    /// The term at depth `i`, counted from the first one pushed.
    pub fn get(&self, i: usize) -> (term: Option<Term>)
        ensures
            term == (if i < self@.data.len() {
                Some(self@.data[i as int])
            } else {
                None
            }),
    {
        if i < self.data.len() {
            Some(self.data[i])
        } else {
            None
        }
    }

    /// The function that the frame runs.
    pub fn module_function_arity(&self) -> (shared: Arc<ModuleFunctionArity>)
        ensures
            *shared == self@.module_function_arity,
    {
        share(&self.module_function_arity)
    }

    /// The code that the frame runs.
    pub fn code(&self) -> (code: Code)
        ensures
            code == self@.code,
    {
        self.code
    }
}

} // verus!
