//! Error kinds and the meaning of the engine's status codes.
use vstd::prelude::*;

verus! {

/// Status code returned by the cryptographic engine.
pub type Status = i32;

pub const THEMIS_SUCCESS: Status = 0;
pub const THEMIS_FAIL: Status = 11;
pub const THEMIS_INVALID_PARAMETER: Status = 12;
pub const THEMIS_NO_MEMORY: Status = 13;
pub const THEMIS_BUFFER_TOO_SMALL: Status = 14;
pub const THEMIS_DATA_CORRUPT: Status = 15;
pub const THEMIS_INVALID_SIGNATURE: Status = 16;
pub const THEMIS_NOT_SUPPORTED: Status = 17;
pub const THEMIS_SSESSION_SEND_OUTPUT_TO_PEER: Status = 1;
pub const THEMIS_SSESSION_KA_NOT_FINISHED: Status = 19;
pub const THEMIS_SSESSION_TRANSPORT_ERROR: Status = 20;
pub const THEMIS_SSESSION_GET_PUB_FOR_ID_CALLBACK_ERROR: Status = 21;
pub const THEMIS_SCOMPARE_SEND_OUTPUT_TO_PEER: Status = 1;
pub const THEMIS_SCOMPARE_MATCH: Status = 21;
pub const THEMIS_SCOMPARE_NO_MATCH: Status = 22;
pub const THEMIS_SCOMPARE_NOT_READY: Status = 0;

/// A list of error categories.
///
/// Some kinds are signals of the engine rather than failures (`Success`, the two
/// "send output to peer" kinds, `BufferTooSmall`, `CompareMatch`, `CompareNoMatch`); they are
/// consumed inside this crate and never reach a caller as an error.
#[derive(Debug, PartialEq, Eq, Structural, Clone, Copy)]
pub enum ErrorKind {
    /// A status code that has no kind of its own.
    UnknownError(i32),
    /// The operation succeeded.
    Success,
    /// General failure.
    Fail,
    /// Some input parameter has incorrect value.
    InvalidParameter,
    /// Could not allocate memory.
    NoMemory,
    /// The provided buffer is too small to fit the result.
    BufferTooSmall,
    /// Input data is corrupted.
    DataCorrupt,
    /// Input data contains invalid signature.
    InvalidSignature,
    /// Operation not supported.
    NotSupported,
    /// Send output with internal data of Secure Session to the peer.
    SessionSendOutputToPeer,
    /// Attempt to use Secure Session before completing key exchange.
    SessionKeyAgreementNotFinished,
    /// Transport layer returned error.
    SessionTransportError,
    /// Could not retrieve a public key corresponding to peer ID.
    SessionGetPublicKeyForIdError,
    /// Send output with internal data of Secure Comparator to the peer.
    CompareSendOutputToPeer,
    /// Compared data matches.
    CompareMatch,
    /// Compared data does not match.
    CompareNoMatch,
    /// Attempt to use Secure Comparator before completing the comparison.
    CompareNotReady,
}

/// The error type of this crate's operations.
#[derive(Debug, PartialEq, Eq, Structural, Clone, Copy)]
pub struct Error {
    pub kind: ErrorKind,
}

/// Kind of a generic status code.
pub open spec fn themis_kind(status: Status) -> ErrorKind {
    if status == THEMIS_SUCCESS {
        ErrorKind::Success
    } else if status == THEMIS_FAIL {
        ErrorKind::Fail
    } else if status == THEMIS_INVALID_PARAMETER {
        ErrorKind::InvalidParameter
    } else if status == THEMIS_NO_MEMORY {
        ErrorKind::NoMemory
    } else if status == THEMIS_BUFFER_TOO_SMALL {
        ErrorKind::BufferTooSmall
    } else if status == THEMIS_DATA_CORRUPT {
        ErrorKind::DataCorrupt
    } else if status == THEMIS_INVALID_SIGNATURE {
        ErrorKind::InvalidSignature
    } else if status == THEMIS_NOT_SUPPORTED {
        ErrorKind::NotSupported
    } else {
        ErrorKind::UnknownError(status)
    }
}

/// Kind of a status code returned by Secure Session.
pub open spec fn session_kind(status: Status) -> ErrorKind {
    if status == THEMIS_SSESSION_SEND_OUTPUT_TO_PEER {
        ErrorKind::SessionSendOutputToPeer
    } else if status == THEMIS_SSESSION_KA_NOT_FINISHED {
        ErrorKind::SessionKeyAgreementNotFinished
    } else if status == THEMIS_SSESSION_TRANSPORT_ERROR {
        ErrorKind::SessionTransportError
    } else if status == THEMIS_SSESSION_GET_PUB_FOR_ID_CALLBACK_ERROR {
        ErrorKind::SessionGetPublicKeyForIdError
    } else {
        themis_kind(status)
    }
}

/// Kind of a status code returned by a Secure Comparator data exchange.
pub open spec fn compare_kind(status: Status) -> ErrorKind {
    if status == THEMIS_SCOMPARE_SEND_OUTPUT_TO_PEER {
        ErrorKind::CompareSendOutputToPeer
    } else {
        themis_kind(status)
    }
}

/// Kind of a status code returned by a Secure Comparator result query.
pub open spec fn match_kind(status: Status) -> ErrorKind {
    if status == THEMIS_SCOMPARE_NOT_READY {
        ErrorKind::CompareNotReady
    } else if status == THEMIS_SCOMPARE_MATCH {
        ErrorKind::CompareMatch
    } else if status == THEMIS_SCOMPARE_NO_MATCH {
        ErrorKind::CompareNoMatch
    } else {
        themis_kind(status)
    }
}

/// The kinds that signal progress rather than failure.
pub open spec fn is_signal(kind: ErrorKind) -> bool {
    match kind {
        ErrorKind::Success
        | ErrorKind::BufferTooSmall
        | ErrorKind::SessionSendOutputToPeer
        | ErrorKind::CompareSendOutputToPeer
        | ErrorKind::CompareMatch
        | ErrorKind::CompareNoMatch => true,
        _ => false,
    }
}

/// The generic status code of `kind`, for the kinds that have one.
pub open spec fn generic_status(kind: ErrorKind) -> Option<Status> {
    match kind {
        ErrorKind::Success => Some(THEMIS_SUCCESS),
        ErrorKind::Fail => Some(THEMIS_FAIL),
        ErrorKind::InvalidParameter => Some(THEMIS_INVALID_PARAMETER),
        ErrorKind::NoMemory => Some(THEMIS_NO_MEMORY),
        ErrorKind::BufferTooSmall => Some(THEMIS_BUFFER_TOO_SMALL),
        ErrorKind::DataCorrupt => Some(THEMIS_DATA_CORRUPT),
        ErrorKind::InvalidSignature => Some(THEMIS_INVALID_SIGNATURE),
        ErrorKind::NotSupported => Some(THEMIS_NOT_SUPPORTED),
        ErrorKind::UnknownError(status) => Some(status),
        _ => None,
    }
}

/// A short description of each kind.
pub open spec fn description_of(kind: ErrorKind) -> &'static str {
    match kind {
        ErrorKind::UnknownError(_) => "unknown error",
        ErrorKind::Success => "success",
        ErrorKind::Fail => "failure",
        ErrorKind::InvalidParameter => "invalid parameter",
        ErrorKind::NoMemory => "out of memory",
        ErrorKind::BufferTooSmall => "buffer too small",
        ErrorKind::DataCorrupt => "corrupted data",
        ErrorKind::InvalidSignature => "invalid signature",
        ErrorKind::NotSupported => "operation not supported",
        ErrorKind::SessionSendOutputToPeer => "send key agreement data to peer",
        ErrorKind::SessionKeyAgreementNotFinished => "key agreement not finished",
        ErrorKind::SessionTransportError => "transport layer error",
        ErrorKind::SessionGetPublicKeyForIdError => "failed to get public key for ID",
        ErrorKind::CompareSendOutputToPeer => "send comparison data to peer",
        ErrorKind::CompareMatch => "data matches",
        ErrorKind::CompareNoMatch => "data does not match",
        ErrorKind::CompareNotReady => "comparator not ready",
    }
}

impl Error {
    /// Makes an error of the given kind.
    pub fn with_kind(kind: ErrorKind) -> (r: Error)
        ensures
            r.kind == kind,
    {
        Error { kind }
    }

    /// Converts generic status codes.
    pub fn from_themis_status(status: Status) -> (r: Error)
        ensures
            r.kind == themis_kind(status),
    {
        let kind = match status {
            THEMIS_SUCCESS => ErrorKind::Success,
            THEMIS_FAIL => ErrorKind::Fail,
            THEMIS_INVALID_PARAMETER => ErrorKind::InvalidParameter,
            THEMIS_NO_MEMORY => ErrorKind::NoMemory,
            THEMIS_BUFFER_TOO_SMALL => ErrorKind::BufferTooSmall,
            THEMIS_DATA_CORRUPT => ErrorKind::DataCorrupt,
            THEMIS_INVALID_SIGNATURE => ErrorKind::InvalidSignature,
            THEMIS_NOT_SUPPORTED => ErrorKind::NotSupported,
            other_status => ErrorKind::UnknownError(other_status),
        };
        Error { kind }
    }

    /// Converts status codes returned by Secure Session.
    pub fn from_session_status(status: Status) -> (r: Error)
        ensures
            r.kind == session_kind(status),
    {
        let kind = match status {
            THEMIS_SSESSION_SEND_OUTPUT_TO_PEER => ErrorKind::SessionSendOutputToPeer,
            THEMIS_SSESSION_KA_NOT_FINISHED => ErrorKind::SessionKeyAgreementNotFinished,
            THEMIS_SSESSION_TRANSPORT_ERROR => ErrorKind::SessionTransportError,
            THEMIS_SSESSION_GET_PUB_FOR_ID_CALLBACK_ERROR => {
                ErrorKind::SessionGetPublicKeyForIdError
            },
            other_status => {
                return Error::from_themis_status(other_status);
            },
        };
        Error { kind }
    }

    /// Converts status codes returned by Secure Comparator data exchange.
    pub fn from_compare_status(status: Status) -> (r: Error)
        ensures
            r.kind == compare_kind(status),
    {
        if status == THEMIS_SCOMPARE_SEND_OUTPUT_TO_PEER {
            Error { kind: ErrorKind::CompareSendOutputToPeer }
        } else {
            Error::from_themis_status(status)
        }
    }

    /// Converts status codes returned by Secure Comparator status query.
    pub fn from_match_status(status: Status) -> (r: Error)
        ensures
            r.kind == match_kind(status),
    {
        let kind = match status {
            THEMIS_SCOMPARE_NOT_READY => ErrorKind::CompareNotReady,
            THEMIS_SCOMPARE_MATCH => ErrorKind::CompareMatch,
            THEMIS_SCOMPARE_NO_MATCH => ErrorKind::CompareNoMatch,
            other_status => {
                return Error::from_themis_status(other_status);
            },
        };
        Error { kind }
    }

    /// The generic status code of this error, for kinds that have one; an unknown
    /// error gives back its own code.
    pub fn status(&self) -> (r: Option<Status>)
        ensures
            r == generic_status(self.kind),
            r is Some && !(self.kind is UnknownError) ==> themis_kind(r->Some_0) == self.kind,
    {
        match self.kind {
            ErrorKind::Success => Some(THEMIS_SUCCESS),
            ErrorKind::Fail => Some(THEMIS_FAIL),
            ErrorKind::InvalidParameter => Some(THEMIS_INVALID_PARAMETER),
            ErrorKind::NoMemory => Some(THEMIS_NO_MEMORY),
            ErrorKind::BufferTooSmall => Some(THEMIS_BUFFER_TOO_SMALL),
            ErrorKind::DataCorrupt => Some(THEMIS_DATA_CORRUPT),
            ErrorKind::InvalidSignature => Some(THEMIS_INVALID_SIGNATURE),
            ErrorKind::NotSupported => Some(THEMIS_NOT_SUPPORTED),
            ErrorKind::UnknownError(status) => Some(status),
            _ => None,
        }
    }

    /// A short description of this error, for messages.
    pub fn description(&self) -> (r: &'static str)
        ensures
            r == description_of(self.kind),
    {
        match self.kind {
            ErrorKind::UnknownError(_) => "unknown error",
            ErrorKind::Success => "success",
            ErrorKind::Fail => "failure",
            ErrorKind::InvalidParameter => "invalid parameter",
            ErrorKind::NoMemory => "out of memory",
            ErrorKind::BufferTooSmall => "buffer too small",
            ErrorKind::DataCorrupt => "corrupted data",
            ErrorKind::InvalidSignature => "invalid signature",
            ErrorKind::NotSupported => "operation not supported",
            ErrorKind::SessionSendOutputToPeer => "send key agreement data to peer",
            ErrorKind::SessionKeyAgreementNotFinished => "key agreement not finished",
            ErrorKind::SessionTransportError => "transport layer error",
            ErrorKind::SessionGetPublicKeyForIdError => "failed to get public key for ID",
            ErrorKind::CompareSendOutputToPeer => "send comparison data to peer",
            ErrorKind::CompareMatch => "data matches",
            ErrorKind::CompareNoMatch => "data does not match",
            ErrorKind::CompareNotReady => "comparator not ready",
        }
    }

    /// Returns the corresponding `ErrorKind` for this error.
    pub fn kind(&self) -> (r: ErrorKind)
        ensures
            r == self.kind,
    {
        self.kind
    }
}

} // verus!
