//! The typed error of the external codec engine.
//!
//! Every request to the engine comes back with an integer status: a
//! non-negative count on success, or one of seven fixed negative codes on
//! failure. The pipeline must keep the distinguishing kind of a failure
//! rather than collapse it to a generic error, since callers may branch on
//! the kind.

use vstd::prelude::*;

verus! {

/// One error kind of the external codec engine, one variant per negative
/// status code the engine can report.
#[derive(Clone, Copy, Debug, PartialEq, Eq, Structural)]
pub enum OpusErrorCode {
    /// One or more invalid or out of range arguments.
    BadArg,
    /// Not enough bytes allocated in the buffer.
    BufferTooSmall,
    /// An internal error was detected.
    InternalError,
    /// The compressed data passed is corrupted.
    InvalidPacket,
    /// Invalid or unsupported request number.
    Unimplemented,
    /// An encoder or decoder structure is invalid or already freed.
    InvalidState,
    /// Memory allocation has failed.
    AllocFail,
}

/// The error kind a negative engine status denotes, if it is one of the
/// seven codes the engine documents.
pub open spec fn code_of_errno(errno: int) -> Option<OpusErrorCode> {
    if errno == -1 {
        Some(OpusErrorCode::BadArg)
    } else if errno == -2 {
        Some(OpusErrorCode::BufferTooSmall)
    } else if errno == -3 {
        Some(OpusErrorCode::InternalError)
    } else if errno == -4 {
        Some(OpusErrorCode::InvalidPacket)
    } else if errno == -5 {
        Some(OpusErrorCode::Unimplemented)
    } else if errno == -6 {
        Some(OpusErrorCode::InvalidState)
    } else if errno == -7 {
        Some(OpusErrorCode::AllocFail)
    } else {
        None
    }
}

impl OpusErrorCode {
    /// Maps a negative engine status to its error kind. The engine only
    /// ever reports the seven documented codes, so any other status is
    /// outside this function's domain.
    pub fn from_errno(errno: i32) -> (r: Self)
        requires
            code_of_errno(errno as int) is Some,
        ensures
            Some(r) == code_of_errno(errno as int),
    {
        if errno == -1 {
            OpusErrorCode::BadArg
        } else if errno == -2 {
            OpusErrorCode::BufferTooSmall
        } else if errno == -3 {
            OpusErrorCode::InternalError
        } else if errno == -4 {
            OpusErrorCode::InvalidPacket
        } else if errno == -5 {
            OpusErrorCode::Unimplemented
        } else if errno == -6 {
            OpusErrorCode::InvalidState
        } else {
            OpusErrorCode::AllocFail
        }
    }

    /// The engine's fixed human-readable message for this error kind.
    pub fn description(self) -> (r: &'static str)
        ensures
            r@ == description_spec(self),
    {
        match self {
            OpusErrorCode::BadArg => "invalid argument",
            OpusErrorCode::BufferTooSmall => "buffer too small",
            OpusErrorCode::InternalError => "internal error",
            OpusErrorCode::InvalidPacket => "corrupted stream",
            OpusErrorCode::Unimplemented => "request not implemented",
            OpusErrorCode::InvalidState => "invalid state",
            OpusErrorCode::AllocFail => "memory allocation failed",
        }
    }
}

/// The engine's fixed message for each error kind.
pub open spec fn description_spec(code: OpusErrorCode) -> Seq<char> {
    match code {
        OpusErrorCode::BadArg => "invalid argument"@,
        OpusErrorCode::BufferTooSmall => "buffer too small"@,
        OpusErrorCode::InternalError => "internal error"@,
        OpusErrorCode::InvalidPacket => "corrupted stream"@,
        OpusErrorCode::Unimplemented => "request not implemented"@,
        OpusErrorCode::InvalidState => "invalid state"@,
        OpusErrorCode::AllocFail => "memory allocation failed"@,
    }
}

/// Interprets an engine status: a non-negative status is the success count,
/// a negative one names an error kind.
pub fn map_status(status: i32) -> (r: Result<usize, OpusErrorCode>)
    requires
        status >= -7,
    ensures
        status >= 0 ==> r == Ok::<usize, OpusErrorCode>(status as usize),
        status < 0 ==> r == Err::<usize, OpusErrorCode>(code_of_errno(status as int)->Some_0),
{
    if status >= 0 {
        Ok(status as usize)
    } else {
        Err(OpusErrorCode::from_errno(status))
    }
}

} // verus!
