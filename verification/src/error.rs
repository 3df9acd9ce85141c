//! Failures of the bridge and the numeric codes that carry them to the caller.
//!
//! The host side speaks of an [`Error`]; the caller sees only a `u32`, which it
//! reads back as an [`XCMError`]. Code `0` alone means success, and the code of
//! each failure is fixed.

use vstd::prelude::*;

verus! {

/// The code of a call that succeeded.
pub const SUCCESS: u32 = 0;

/// The largest code in use.
pub const MAX_STATUS_CODE: u32 = 9;

/// Why a command failed, as the host side names it.
#[derive(Clone, Copy, Debug, PartialEq, Eq, Structural)]
pub enum Error {
    /// The command id is none of the six commands.
    InvalidCommand,
    /// The version tag of a message or location is not one the codec knows, or
    /// the value cannot be expressed in the latest version.
    XcmVersionNotSupported,
    /// A commit found its lane empty.
    PreparationMissing,
    /// The executor did not run the message to completion.
    ExecutionFailed,
    /// The router refused the message.
    SendFailed,
    /// The weigher could not price the message.
    CannotWeigh,
    /// The caller's remaining budget does not cover the quoted cost.
    OutOfGas,
    /// The payload is not a well-formed encoding of what the command takes.
    DecodingFailed,
    /// The polled query does not exist, or its response was already taken.
    QueryNotFound,
}

impl Error {
    /// The code of this failure; never zero.
    pub open spec fn spec_status_code(self) -> u32 {
        match self {
            Error::QueryNotFound => 1,
            Error::InvalidCommand => 2,
            Error::XcmVersionNotSupported => 3,
            Error::PreparationMissing => 4,
            Error::ExecutionFailed => 5,
            Error::SendFailed => 6,
            Error::CannotWeigh => 7,
            Error::OutOfGas => 8,
            Error::DecodingFailed => 9,
        }
    }

    #[verifier::when_used_as_spec(spec_status_code)]
    pub fn status_code(self) -> (code: u32)
        ensures
            code == self.spec_status_code(),
            code != SUCCESS,
            code <= MAX_STATUS_CODE,
    {
        match self {
            Error::QueryNotFound => 1,
            Error::InvalidCommand => 2,
            Error::XcmVersionNotSupported => 3,
            Error::PreparationMissing => 4,
            Error::ExecutionFailed => 5,
            Error::SendFailed => 6,
            Error::CannotWeigh => 7,
            Error::OutOfGas => 8,
            Error::DecodingFailed => 9,
        }
    }
}

/// The code that reports `result`: zero for success, the failure's code otherwise.
pub open spec fn spec_status_of<T>(result: Result<T, Error>) -> u32 {
    match result {
        Ok(_) => SUCCESS,
        Err(e) => e.spec_status_code(),
    }
}

/// The code handed to the caller for the outcome of a command.
pub fn status_of<T>(result: &Result<T, Error>) -> (code: u32)
    ensures
        code == spec_status_of(*result),
        code == SUCCESS <==> result is Ok,
{
    match result {
        Ok(_) => SUCCESS,
        Err(e) => e.status_code(),
    }
}

/// A failed call, as the caller reads it from the status code.
#[derive(Clone, Copy, Debug, PartialEq, Eq, Structural)]
pub enum XCMError {
    /// The polled query was not found.
    QueryNotFound,
    /// The bridge does not know the command.
    InvalidCommand,
    /// The message or location is in a version the bridge does not take.
    VersionNotSupported,
    /// A commit was issued with nothing staged.
    PreparationMissing,
    /// The staged message did not execute to completion.
    ExecutionFailed,
    /// The staged message could not be sent.
    SendFailed,
    /// The message could not be priced.
    CannotEstimateCost,
    /// The budget does not cover the quoted cost.
    OutOfResources,
    /// The payload could not be decoded.
    MalformedPayload,
}

impl XCMError {
    /// Whether `status_code` is zero or the code of a failure.
    pub open spec fn spec_is_status_code(status_code: u32) -> bool {
        status_code <= MAX_STATUS_CODE
    }

    /// What a known `status_code` means to the caller.
    pub open spec fn spec_from_status_code(status_code: u32) -> Result<(), XCMError> {
        if status_code == 0 {
            Ok(())
        } else if status_code == 1 {
            Err(XCMError::QueryNotFound)
        } else if status_code == 2 {
            Err(XCMError::InvalidCommand)
        } else if status_code == 3 {
            Err(XCMError::VersionNotSupported)
        } else if status_code == 4 {
            Err(XCMError::PreparationMissing)
        } else if status_code == 5 {
            Err(XCMError::ExecutionFailed)
        } else if status_code == 6 {
            Err(XCMError::SendFailed)
        } else if status_code == 7 {
            Err(XCMError::CannotEstimateCost)
        } else if status_code == 8 {
            Err(XCMError::OutOfResources)
        } else {
            Err(XCMError::MalformedPayload)
        }
    }

    /// The code that the host sends for this failure.
    pub open spec fn spec_status_code(self) -> u32 {
        match self {
            XCMError::QueryNotFound => 1,
            XCMError::InvalidCommand => 2,
            XCMError::VersionNotSupported => 3,
            XCMError::PreparationMissing => 4,
            XCMError::ExecutionFailed => 5,
            XCMError::SendFailed => 6,
            XCMError::CannotEstimateCost => 7,
            XCMError::OutOfResources => 8,
            XCMError::MalformedPayload => 9,
        }
    }

    /// Tells whether `from_status_code` may be called on `status_code`.
    #[verifier::when_used_as_spec(spec_is_status_code)]
    pub fn is_status_code(status_code: u32) -> (known: bool)
        ensures
            known == XCMError::spec_is_status_code(status_code),
    {
        status_code <= MAX_STATUS_CODE
    }

    /// Reads a status code: zero is success, every other known code a failure.
    ///
    /// A code outside the enumeration is never read as success: it is no
    /// admissible argument.
    pub fn from_status_code(status_code: u32) -> (result: Result<(), XCMError>)
        requires
            XCMError::spec_is_status_code(status_code),
        ensures
            result == XCMError::spec_from_status_code(status_code),
            result is Ok <==> status_code == SUCCESS,
            result matches Err(e) ==> e.spec_status_code() == status_code,
    {
        match status_code {
            0 => Ok(()),
            1 => Err(XCMError::QueryNotFound),
            2 => Err(XCMError::InvalidCommand),
            3 => Err(XCMError::VersionNotSupported),
            4 => Err(XCMError::PreparationMissing),
            5 => Err(XCMError::ExecutionFailed),
            6 => Err(XCMError::SendFailed),
            7 => Err(XCMError::CannotEstimateCost),
            8 => Err(XCMError::OutOfResources),
            _ => Err(XCMError::MalformedPayload),
        }
    }

    #[verifier::when_used_as_spec(spec_status_code)]
    pub fn status_code(self) -> (code: u32)
        ensures
            code == self.spec_status_code(),
    {
        match self {
            XCMError::QueryNotFound => 1,
            XCMError::InvalidCommand => 2,
            XCMError::VersionNotSupported => 3,
            XCMError::PreparationMissing => 4,
            XCMError::ExecutionFailed => 5,
            XCMError::SendFailed => 6,
            XCMError::CannotEstimateCost => 7,
            XCMError::OutOfResources => 8,
            XCMError::MalformedPayload => 9,
        }
    }
}

/// Every outcome of a command reaches the caller as what it was: success is
/// read as success, and a failure as the failure whose code the host sent.
pub proof fn lemma_status_code_round_trip<T>(result: Result<T, Error>)
    ensures
        XCMError::spec_is_status_code(spec_status_of(result)),
        result is Ok <==> XCMError::spec_from_status_code(spec_status_of(result)) is Ok,
        result matches Err(e) ==> XCMError::spec_from_status_code(spec_status_of(result))
            matches Err(x) && x.spec_status_code() == e.spec_status_code(),
{
}

/// Two failures share a code only if they are the same failure.
pub proof fn lemma_status_code_injective(a: Error, b: Error)
    requires
        a.spec_status_code() == b.spec_status_code(),
    ensures
        a == b,
{
}

} // verus!
