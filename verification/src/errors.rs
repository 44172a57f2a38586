//! The error taxonomy of the wrapper.
//!
//! Two error categories exist, one per fallible activity: creating the
//! handle (`CreationError`) and performing an operation on it
//! (`OpError`). Encoding problems in a string argument are detected
//! locally, before any native call; native failures carry whatever the
//! native layer reported (nothing for a failed construction, the status
//! code for a failed operation); an out-of-range delay carries the
//! offending value together with the valid bounds.

use vstd::prelude::*;

verus! {

/// A string argument held an embedded NUL character and therefore cannot
/// cross the C string boundary. `index` is the position (in characters)
/// of the first embedded NUL.
#[derive(Clone, Copy, Debug, PartialEq, Eq, Structural)]
pub struct NulCharError {
    /// Index of the first embedded NUL character in the offending string.
    pub index: usize,
}

/// An error that can happen when trying to create an `XDo` instance.
#[derive(Clone, Copy, Debug, PartialEq, Eq, Structural)]
pub enum CreationError {
    /// The provided string parameter had an embedded NUL character in it.
    Nul(NulCharError),
    /// The native layer failed to create an instance. No further
    /// information is available.
    Ffi,
}

/// An error that can happen while executing an operation.
#[derive(Clone, Copy, Debug, PartialEq, Eq, Structural)]
pub enum OpError {
    /// The provided string parameter had an embedded NUL character in it.
    Nul(NulCharError),
    /// The native layer failed, returning a non-zero status code.
    Ffi(i32),
    /// A delay parameter fell outside the valid microsecond range;
    /// the offending value and the inclusive bounds are reported.
    OutOfRange { value: i64, min: i64, max: i64 },
}

/// What `CreationError::description` returns for each variant.
pub open spec fn creation_description(e: CreationError) -> Seq<char> {
    match e {
        CreationError::Nul(_) => "libxdo creation error: Nul byte in argument"@,
        CreationError::Ffi => "libxdo creation error: Ffi error"@,
    }
}

/// What `OpError::description` returns for each variant.
pub open spec fn op_description(e: OpError) -> Seq<char> {
    match e {
        OpError::Nul(_) => "xdo operation failure: Nul byte in argument"@,
        OpError::Ffi(_) => "xdo operation failure: Ffi error"@,
        OpError::OutOfRange { .. } => "xdo operation failure: delay out of range"@,
    }
}

impl CreationError {
    /// A short description of the error category.
    pub fn description(&self) -> (r: &'static str)
        ensures
            r@ == creation_description(*self),
    {
        match *self {
            CreationError::Nul(_) => "libxdo creation error: Nul byte in argument",
            CreationError::Ffi => "libxdo creation error: Ffi error",
        }
    }
}

impl OpError {
    /// A short description of the error category.
    pub fn description(&self) -> (r: &'static str)
        ensures
            r@ == op_description(*self),
    {
        match *self {
            OpError::Nul(_) => "xdo operation failure: Nul byte in argument",
            OpError::Ffi(_) => "xdo operation failure: Ffi error",
            OpError::OutOfRange { .. } => "xdo operation failure: delay out of range",
        }
    }
}

impl core::convert::From<NulCharError> for CreationError {
    /// Wraps an encoding error as a creation error.
    fn from(err: NulCharError) -> (r: CreationError) {
        CreationError::Nul(err)
    }
}

impl vstd::std_specs::convert::FromSpecImpl<NulCharError> for CreationError {
    open spec fn obeys_from_spec() -> bool {
        true
    }

    open spec fn from_spec(err: NulCharError) -> CreationError {
        CreationError::Nul(err)
    }
}

impl core::convert::From<NulCharError> for OpError {
    /// Wraps an encoding error as an operation error.
    fn from(err: NulCharError) -> (r: OpError) {
        OpError::Nul(err)
    }
}

impl vstd::std_specs::convert::FromSpecImpl<NulCharError> for OpError {
    open spec fn obeys_from_spec() -> bool {
        true
    }

    open spec fn from_spec(err: NulCharError) -> OpError {
        OpError::Nul(err)
    }
}

} // verus!
