//! The closed set of result codes exchanged with the native binder layer.
//!
//! Every callback returns one of these codes, and the native layer hands
//! them back verbatim to the caller of a transaction. The numeric values
//! are fixed by the native layer; this module only maps between the
//! enumeration and those values and never invents new ones.

use vstd::prelude::*;

verus! {

/// A transaction result code as defined by the native binder layer.
///
/// `Success` is the single success code; every other variant is one of the
/// native layer's fixed failure codes.
#[derive(Clone, Copy, Debug, PartialEq, Eq, Structural)]
pub enum BinderStatus {
    Success,
    UnknownError,
    NoMemory,
    InvalidOperation,
    BadValue,
    BadType,
    NameNotFound,
    PermissionDenied,
    NoInit,
    AlreadyExists,
    DeadObject,
    FailedTransaction,
    UnknownTransaction,
    BadIndex,
    FdsNotAllowed,
    UnexpectedNull,
}

/// The numeric value the native layer assigns to each status code.
pub open spec fn code_of(s: BinderStatus) -> int {
    match s {
        BinderStatus::Success => 0,
        BinderStatus::UnknownError => -2147483648,
        BinderStatus::NoMemory => -12,
        BinderStatus::InvalidOperation => -38,
        BinderStatus::BadValue => -22,
        BinderStatus::BadType => -2147483647,
        BinderStatus::NameNotFound => -2,
        BinderStatus::PermissionDenied => -1,
        BinderStatus::NoInit => -19,
        BinderStatus::AlreadyExists => -17,
        BinderStatus::DeadObject => -32,
        BinderStatus::FailedTransaction => -2147483646,
        BinderStatus::UnknownTransaction => -74,
        BinderStatus::BadIndex => -75,
        BinderStatus::FdsNotAllowed => -2147483641,
        BinderStatus::UnexpectedNull => -2147483640,
    }
}

/// The status, if any, that the native layer names with the code `c`.
pub open spec fn status_of_code(c: int) -> Option<BinderStatus> {
    if c == 0 {
        Some(BinderStatus::Success)
    } else if c == -2147483648 {
        Some(BinderStatus::UnknownError)
    } else if c == -12 {
        Some(BinderStatus::NoMemory)
    } else if c == -38 {
        Some(BinderStatus::InvalidOperation)
    } else if c == -22 {
        Some(BinderStatus::BadValue)
    } else if c == -2147483647 {
        Some(BinderStatus::BadType)
    } else if c == -2 {
        Some(BinderStatus::NameNotFound)
    } else if c == -1 {
        Some(BinderStatus::PermissionDenied)
    } else if c == -19 {
        Some(BinderStatus::NoInit)
    } else if c == -17 {
        Some(BinderStatus::AlreadyExists)
    } else if c == -32 {
        Some(BinderStatus::DeadObject)
    } else if c == -2147483646 {
        Some(BinderStatus::FailedTransaction)
    } else if c == -74 {
        Some(BinderStatus::UnknownTransaction)
    } else if c == -75 {
        Some(BinderStatus::BadIndex)
    } else if c == -2147483641 {
        Some(BinderStatus::FdsNotAllowed)
    } else if c == -2147483640 {
        Some(BinderStatus::UnexpectedNull)
    } else {
        None
    }
}

impl BinderStatus {
    /// The fixed-width value handed across the C ABI for this status.
    pub fn code(&self) -> (r: i32)
        ensures
            r as int == code_of(*self),
    {
        match self {
            BinderStatus::Success => 0,
            BinderStatus::UnknownError => -2147483648,
            BinderStatus::NoMemory => -12,
            BinderStatus::InvalidOperation => -38,
            BinderStatus::BadValue => -22,
            BinderStatus::BadType => -2147483647,
            BinderStatus::NameNotFound => -2,
            BinderStatus::PermissionDenied => -1,
            BinderStatus::NoInit => -19,
            BinderStatus::AlreadyExists => -17,
            BinderStatus::DeadObject => -32,
            BinderStatus::FailedTransaction => -2147483646,
            BinderStatus::UnknownTransaction => -74,
            BinderStatus::BadIndex => -75,
            BinderStatus::FdsNotAllowed => -2147483641,
            BinderStatus::UnexpectedNull => -2147483640,
        }
    }

    /// Reads a status back from a fixed-width value received across the
    /// C ABI; `None` when the value is not one of the native layer's codes.
    pub fn from_code(c: i32) -> (r: Option<BinderStatus>)
        ensures
            r == status_of_code(c as int),
    {
        if c == 0 {
            Some(BinderStatus::Success)
        } else if c == -2147483648 {
            Some(BinderStatus::UnknownError)
        } else if c == -12 {
            Some(BinderStatus::NoMemory)
        } else if c == -38 {
            Some(BinderStatus::InvalidOperation)
        } else if c == -22 {
            Some(BinderStatus::BadValue)
        } else if c == -2147483647 {
            Some(BinderStatus::BadType)
        } else if c == -2 {
            Some(BinderStatus::NameNotFound)
        } else if c == -1 {
            Some(BinderStatus::PermissionDenied)
        } else if c == -19 {
            Some(BinderStatus::NoInit)
        } else if c == -17 {
            Some(BinderStatus::AlreadyExists)
        } else if c == -32 {
            Some(BinderStatus::DeadObject)
        } else if c == -2147483646 {
            Some(BinderStatus::FailedTransaction)
        } else if c == -74 {
            Some(BinderStatus::UnknownTransaction)
        } else if c == -75 {
            Some(BinderStatus::BadIndex)
        } else if c == -2147483641 {
            Some(BinderStatus::FdsNotAllowed)
        } else if c == -2147483640 {
            Some(BinderStatus::UnexpectedNull)
        } else {
            None
        }
    }

    /// Whether this status is the success code.
    pub fn is_success(&self) -> (r: bool)
        ensures
            r == (*self == BinderStatus::Success),
    {
        matches!(self, BinderStatus::Success)
    }
}

/// Law: the numeric codes are a faithful encoding of the status set.
/// Writing a status out as its code and reading it back yields the same
/// status, for every status.
pub proof fn lemma_status_code_round_trip(s: BinderStatus)
    ensures
        status_of_code(code_of(s)) == Some(s),
{
}

/// Law: no two distinct statuses share a numeric code.
pub proof fn lemma_status_code_injective(a: BinderStatus, b: BinderStatus)
    requires
        code_of(a) == code_of(b),
    ensures
        a == b,
{
}

} // verus!
