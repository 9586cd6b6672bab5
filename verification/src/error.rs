//! What can go wrong at the boundary, and what a status means.
use vstd::prelude::*;

verus! {

/// The status with which a boundary call reports success.
pub const S_OK: i32 = 0;

/// The status with which an object declines an interface it does not have.
pub const E_NOINTERFACE: i32 = -2147467262;

/// The status for a pointer that should have held something.
pub const E_POINTER: i32 = -2147467261;

/// The status for a handle that is none.
pub const E_HANDLE: i32 = -2147024890;

/// The status with which the component system declines a class that it
/// does not know.
pub const REGDB_E_CLASSNOTREG: i32 = -2147221164;

/// A failure, as it is reported at the point where it was detected.
#[derive(Clone, Copy, Debug, PartialEq, Eq, Structural, Hash)]
pub enum Error {
    /// A boundary call answered with a status other than success. The
    /// status is carried.
    BoundaryCallFailed(i32),
    /// A `put` was given no value.
    InvalidArgument,
    /// The component system did not construct the class asked for.
    ComponentCreationFailed,
    /// The instance does not have the interface asked for.
    InterfaceNotSupported,
    /// The operation was tried on an empty handle.
    NullHandle,
}

/// Whether a status reports success. Zero does; every other status is a
/// failure code.
pub open spec fn succeeded(status: i32) -> bool {
    status == S_OK
}

/// What a status means for the call that returned it.
pub open spec fn status_outcome(status: i32) -> Result<(), Error> {
    if succeeded(status) {
        Ok(())
    } else {
        Err(Error::BoundaryCallFailed(status))
    }
}

/// `windows_core::HRESULT::ok`, with the status read back out of the error
/// that it gives. That function fails the negative statuses and no others,
/// and the error it makes carries the status it was made from.
#[verifier::external_body]
fn failure_code(status: i32) -> (r: Option<i32>)
    ensures
        r == (if status < 0 {
            Some(status)
        } else {
            None::<i32>
        }),
{
    match windows_core::HRESULT(status).ok() {
        Ok(()) => None,
        Err(error) => Some(error.code().0),
    }
}

/// Checks the status of a boundary call. What the object model itself
/// calls a failure is one; so is every other status but zero, because a
/// property call has nothing to report but that it was done.
pub fn check_status(status: i32) -> (r: Result<(), Error>)
    ensures
        r == status_outcome(status),
{
    match failure_code(status) {
        Some(code) => Err(Error::BoundaryCallFailed(code)),
        None => {
            if status == S_OK {
                Ok(())
            } else {
                Err(Error::BoundaryCallFailed(status))
            }
        },
    }
}

impl Error {
    /// The status that stands for the failure where one has to be handed
    /// on: the one carried, or the object model's own for the kind.
    pub open spec fn code_of(self) -> i32 {
        match self {
            Error::BoundaryCallFailed(status) => status,
            Error::InvalidArgument => E_POINTER,
            Error::ComponentCreationFailed => REGDB_E_CLASSNOTREG,
            Error::InterfaceNotSupported => E_NOINTERFACE,
            Error::NullHandle => E_HANDLE,
        }
    }

    /// What the failure is, in words.
    pub open spec fn message_of(self) -> Seq<char> {
        match self {
            Error::BoundaryCallFailed(_) => "Boundary call failed"@,
            Error::InvalidArgument => "Attempted to set None on non-nullable COM property"@,
            Error::ComponentCreationFailed => "Component could not be created"@,
            Error::InterfaceNotSupported => "Interface not supported"@,
            Error::NullHandle => "Operation attempted on an empty handle"@,
        }
    }

    /// The status that stands for the failure.
    pub fn code(&self) -> (r: i32)
        ensures
            r == self.code_of(),
    {
        match self {
            Error::BoundaryCallFailed(status) => *status,
            Error::InvalidArgument => E_POINTER,
            Error::ComponentCreationFailed => REGDB_E_CLASSNOTREG,
            Error::InterfaceNotSupported => E_NOINTERFACE,
            Error::NullHandle => E_HANDLE,
        }
    }

    /// What the failure is, in words.
    pub fn message(&self) -> (r: &'static str)
        ensures
            r@ == self.message_of(),
    {
        match self {
            Error::BoundaryCallFailed(_) => "Boundary call failed",
            Error::InvalidArgument => "Attempted to set None on non-nullable COM property",
            Error::ComponentCreationFailed => "Component could not be created",
            Error::InterfaceNotSupported => "Interface not supported",
            Error::NullHandle => "Operation attempted on an empty handle",
        }
    }
}

} // verus!
