//! The ways in which a garbage collection can fail.

use vstd::prelude::*;
use vstd::string::*;
use vstd::std_specs::convert::FromSpecImpl;

verus! {

/// Memory could not be allocated.
#[derive(Clone, Copy, Debug, PartialEq, Eq, Structural)]
pub struct Alloc;

/// The errors that can occur during garbage collection.
#[derive(Clone, Copy, Debug, PartialEq, Eq, Structural)]
pub enum GcError {
    /// The system is out of memory. There is not much to do but to panic,
    /// which is left to the caller.
    Alloc(Alloc),
    /// The process has a maximum heap size, and the heap would grow beyond
    /// it. The only meaningful thing to do is to kill the process.
    MaxHeapSizeExceeded,
    /// An allocation could not be filled without a full sweep first.
    FullsweepRequired,
}

impl GcError {
    /// The words that describe the error.
    pub open spec fn description(self) -> Seq<char> {
        match self {
            GcError::Alloc(_) => "unable to allocate memory for garbage collection"@,
            GcError::MaxHeapSizeExceeded => "maximum heap size exceeded"@,
            GcError::FullsweepRequired => "a full garbage collection sweep is required"@,
        }
    }

    /// The words that describe the error.
    pub fn to_string(&self) -> (text: String)
        ensures
            text@ == self.description(),
    {
        match self {
            GcError::Alloc(_) => String::from_str("unable to allocate memory for garbage collection"),
            GcError::MaxHeapSizeExceeded => String::from_str("maximum heap size exceeded"),
            GcError::FullsweepRequired => String::from_str(
                "a full garbage collection sweep is required",
            ),
        }
    }
}

impl From<Alloc> for GcError {
    fn from(alloc: Alloc) -> (error: GcError) {
        GcError::Alloc(alloc)
    }
}

impl FromSpecImpl<Alloc> for GcError {
    open spec fn obeys_from_spec() -> bool {
        true
    }

    open spec fn from_spec(alloc: Alloc) -> GcError {
        GcError::Alloc(alloc)
    }
}

} // verus!
