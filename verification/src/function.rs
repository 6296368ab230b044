//! A function as a value at run time.

use vstd::prelude::*;
use std::sync::Arc;
use vstd::std_specs::cmp::PartialEqSpecImpl;
use crate::process::{share, Code, Frame, FrameView, ModuleFunctionArity, Term};

verus! {

/// A function value: which function it is and the code that runs it. Two
/// function values are equal if they run the same code.
#[derive(Debug)]
pub struct Function {
    module_function_arity: Arc<ModuleFunctionArity>,
    code: Code,
}

impl Function {
    /// Which function this is.
    pub closed spec fn identity(&self) -> ModuleFunctionArity {
        *self.module_function_arity
    }

    /// The code that runs it.
    pub closed spec fn entry(&self) -> Code {
        self.code
    }

    pub fn new(module_function_arity: Arc<ModuleFunctionArity>, code: Code) -> (function: Self)
        ensures
            function.identity() == *module_function_arity,
            function.entry() == code,
    {
        Function { module_function_arity, code }
    }

    /// A frame that calls the function with the given arguments, or `None`
    /// if their number is not the function's arity. The arguments are
    /// pushed last to first, which leaves the first one on top.
    pub fn frame_with_arguments(&self, argument_vec: Vec<Term>) -> (frame: Option<Frame>)
        ensures
            frame is Some <==> argument_vec@.len() == self.identity().arity,
            frame matches Some(f) ==> f@ == (FrameView {
                module_function_arity: self.identity(),
                code: self.entry(),
                data: argument_vec@.reverse(),
            }),
    {
        if argument_vec.len() == self.module_function_arity.arity {
            let mut frame = self.frame();
            let mut left: usize = argument_vec.len();
            while left > 0
                invariant
                    left <= argument_vec.len(),
                    frame@.module_function_arity == self.identity(),
                    frame@.code == self.entry(),
                    frame@.data == argument_vec@.reverse().subrange(
                        0,
                        argument_vec@.len() - left,
                    ),
                decreases left,
            {
                left -= 1;
                frame.push(argument_vec[left]);
                assert(frame@.data =~= argument_vec@.reverse().subrange(
                    0,
                    argument_vec@.len() - left,
                ));
            }
            assert(frame@.data =~= argument_vec@.reverse());
            Some(frame)
        } else {
            None
        }
    }

    /// Which function this is.
    pub fn module_function_arity(&self) -> (shared: Arc<ModuleFunctionArity>)
        ensures
            *shared == self.identity(),
    {
        share(&self.module_function_arity)
    }

    /// The code that runs the function. Equal functions have the same code,
    /// so this is what a hash of a function is made from.
    pub fn code(&self) -> (code: Code)
        ensures
            code == self.entry(),
    {
        self.code
    }

    /// A frame that calls the function, with no argument pushed yet.
    pub fn frame(&self) -> (frame: Frame)
        ensures
            frame@ == (FrameView {
                module_function_arity: self.identity(),
                code: self.entry(),
                data: Seq::empty(),
            }),
    {
        Frame::new(share(&self.module_function_arity), self.code)
    }
}

impl PartialEq for Function {
    fn eq(&self, other: &Function) -> (same: bool) {
        self.code.address == other.code.address
    }
}

impl PartialEqSpecImpl for Function {
    open spec fn obeys_eq_spec() -> bool {
        true
    }

    open spec fn eq_spec(&self, other: &Function) -> bool {
        self.entry().address == other.entry().address
    }
}

} // verus!
