//! The failures that the memory core reports.
//!
//! Every failure is an ordinary value handed to the caller, who decides
//! whether it is fatal.

use vstd::prelude::*;
use vstd::std_specs::convert::FromSpecImpl;
use crate::address::PhysicalAddress;

verus! {

/// The error code with which the platform refused a call.
#[derive(Clone, Copy, Debug, PartialEq, Eq, Structural)]
pub struct PlatformFault {
    pub code: isize,
}

/// What can go wrong in the memory core.
#[derive(Clone, Copy, Debug, PartialEq, Eq, Structural)]
pub enum Error {
    /// No free physical frame is left.
    OutOfMemory,
    /// A range of one address space was offered to a flush of another.
    AddressSpaceMismatch { expected: usize, found: usize },
    /// The frame at this address was freed while it was not allocated.
    DoubleFree(PhysicalAddress),
    /// The platform call failed.
    SBI(PlatformFault),
}

impl From<PlatformFault> for Error {
    fn from(fault: PlatformFault) -> (error: Self) {
        Error::SBI(fault)
    }
}

impl FromSpecImpl<PlatformFault> for Error {
    open spec fn obeys_from_spec() -> bool {
        true
    }

    open spec fn from_spec(fault: PlatformFault) -> Error {
        Error::SBI(fault)
    }
}

impl Error {
    /// What the outcome of a platform call is to the caller of the core:
    /// success stays success, a fault is wrapped, never swallowed.
    pub open spec fn lift(outcome: Result<(), PlatformFault>) -> Result<(), Error> {
        match outcome {
            Ok(()) => Ok(()),
            Err(fault) => Err(Error::SBI(fault)),
        }
    }

    /// Turns the outcome of a platform call into a result of the core.
    pub fn from_platform(outcome: Result<(), PlatformFault>) -> (r: Result<(), Error>)
        ensures
            r == Error::lift(outcome),
    {
        match outcome {
            Ok(()) => Ok(()),
            Err(fault) => Err(Error::SBI(fault)),
        }
    }
}

} // verus!
