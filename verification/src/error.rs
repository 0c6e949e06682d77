//! The error model: the backend's signed status codes decoded into a
//! closed set of named failure kinds.
//!
//! A status of zero or above means success. Each kind of the enumeration
//! names one of the backend's negative codes. Every other negative value
//! is an unmapped code: it decodes to no kind, and it propagates as the
//! distinct unknown class of [`Failure`], never coerced to a named kind
//! and never passed off as success, so callers can tell a known backend
//! failure from an unexpected code of another backend version.

use vstd::prelude::*;

verus! {

/// The closed enumeration of failure kinds the backend reports.
#[derive(Copy, Clone, Debug, PartialEq, Eq, Structural)]
pub enum Error {
    NotSupported,
    Invalid,
    State,
    Oom,
    NoDriver,
    System,
    Corrupt,
    TooBig,
    NotFound,
    Destroyed,
    Canceled,
    NotAvailable,
    Access,
    Io,
    Internal,
    Disabled,
    Forked,
    Disconnected,
}

/// The status code under which the backend reports each failure kind.
pub open spec fn code_spec(e: Error) -> int {
    match e {
        Error::NotSupported => -1,
        Error::Invalid => -2,
        Error::State => -3,
        Error::Oom => -4,
        Error::NoDriver => -5,
        Error::System => -6,
        Error::Corrupt => -7,
        Error::TooBig => -8,
        Error::NotFound => -9,
        Error::Destroyed => -10,
        Error::Canceled => -11,
        Error::NotAvailable => -12,
        Error::Access => -13,
        Error::Io => -14,
        Error::Internal => -15,
        Error::Disabled => -16,
        Error::Forked => -17,
        Error::Disconnected => -18,
    }
}

/// The failure kind a status code names, if any: exactly the codes of the
/// closed enumeration decode to a kind; zero and every other value decode
/// to nothing.
pub open spec fn decode_spec(val: int) -> Option<Error> {
    if val == -1 {
        Some(Error::NotSupported)
    } else if val == -2 {
        Some(Error::Invalid)
    } else if val == -3 {
        Some(Error::State)
    } else if val == -4 {
        Some(Error::Oom)
    } else if val == -5 {
        Some(Error::NoDriver)
    } else if val == -6 {
        Some(Error::System)
    } else if val == -7 {
        Some(Error::Corrupt)
    } else if val == -8 {
        Some(Error::TooBig)
    } else if val == -9 {
        Some(Error::NotFound)
    } else if val == -10 {
        Some(Error::Destroyed)
    } else if val == -11 {
        Some(Error::Canceled)
    } else if val == -12 {
        Some(Error::NotAvailable)
    } else if val == -13 {
        Some(Error::Access)
    } else if val == -14 {
        Some(Error::Io)
    } else if val == -15 {
        Some(Error::Internal)
    } else if val == -16 {
        Some(Error::Disabled)
    } else if val == -17 {
        Some(Error::Forked)
    } else if val == -18 {
        Some(Error::Disconnected)
    } else {
        None
    }
}

/// A failure reported through a status code, in two classes that callers
/// can tell apart: a kind of the closed enumeration (a known backend
/// failure), or an unmapped negative code, carried as it came, from a
/// backend version this enumeration does not know. An unknown code is
/// never coerced to a named kind and never passed off as success.
#[derive(Copy, Clone, Debug, PartialEq, Eq, Structural)]
pub enum Failure {
    Known(Error),
    Unknown(i32),
}

/// A status code as a tagged result: success for zero and every positive
/// code (the backend never reports a failure as a non-negative value),
/// the decoded kind for the codes of the closed enumeration, and the
/// distinct unknown class for every other negative code.
pub open spec fn to_result_spec(val: int) -> Result<(), Failure> {
    if val >= 0 {
        Ok(())
    } else {
        match decode_spec(val) {
            Some(e) => Err(Failure::Known(e)),
            None => Err(Failure::Unknown(val as i32)),
        }
    }
}

impl Error {
    /// Decodes a raw backend status code into its failure kind, if it has
    /// one.
    pub fn c(val: i32) -> (r: Option<Error>)
        ensures
            r == decode_spec(val as int),
    {
        match val {
            -1 => Some(Error::NotSupported),
            -2 => Some(Error::Invalid),
            -3 => Some(Error::State),
            -4 => Some(Error::Oom),
            -5 => Some(Error::NoDriver),
            -6 => Some(Error::System),
            -7 => Some(Error::Corrupt),
            -8 => Some(Error::TooBig),
            -9 => Some(Error::NotFound),
            -10 => Some(Error::Destroyed),
            -11 => Some(Error::Canceled),
            -12 => Some(Error::NotAvailable),
            -13 => Some(Error::Access),
            -14 => Some(Error::Io),
            -15 => Some(Error::Internal),
            -16 => Some(Error::Disabled),
            -17 => Some(Error::Forked),
            -18 => Some(Error::Disconnected),
            _ => None,
        }
    }

    /// The status code this kind stands for, for handing back to the
    /// backend (its message lookup takes the raw code).
    pub fn code(&self) -> (r: i32)
        ensures
            r as int == code_spec(*self),
    {
        match self {
            Error::NotSupported => -1,
            Error::Invalid => -2,
            Error::State => -3,
            Error::Oom => -4,
            Error::NoDriver => -5,
            Error::System => -6,
            Error::Corrupt => -7,
            Error::TooBig => -8,
            Error::NotFound => -9,
            Error::Destroyed => -10,
            Error::Canceled => -11,
            Error::NotAvailable => -12,
            Error::Access => -13,
            Error::Io => -14,
            Error::Internal => -15,
            Error::Disabled => -16,
            Error::Forked => -17,
            Error::Disconnected => -18,
        }
    }
}

/// The human-readable rendering of a backend-supplied message: the text
/// itself when the backend gave one, and the empty string when it gave
/// none — a missing message is not a failure. The text must already be an
/// owned copy; the backend lends its message out of static storage it
/// keeps, and no reference into that storage may be retained.
pub fn describe(desc: Option<String>) -> (r: String)
    ensures
        match desc {
            Some(s) => r@ == s@,
            None => r@ == Seq::<char>::empty(),
        },
{
    match desc {
        Some(s) => s,
        None => {
            let r = String::from_str("");
            proof {
                reveal_strlit("");
                assert(r@ =~= Seq::<char>::empty());
            }
            r
        },
    }
}

/// Law: every kind of the closed enumeration decodes from exactly its own
/// code, and the success code decodes to no kind.
pub proof fn lemma_decode_matches_code(e: Error)
    ensures
        decode_spec(code_spec(e)) == Some(e),
        decode_spec(0) is None,
{
}

/// Law: a status code decodes to some kind exactly when it lies in the
/// closed enumeration's range; every other value — zero, every positive
/// value, every negative value below the range — decodes to nothing and
/// is thus never coerced to a named kind.
pub proof fn lemma_decode_range(val: int)
    ensures
        decode_spec(val) is Some <==> -18 <= val <= -1,
{
}

/// Law: an unmapped negative status code becomes a failure of its own
/// class — distinguishable from success and from every named kind — and
/// carries the offending code itself, so callers can tell a known backend
/// failure from an unexpected code of another backend version.
pub proof fn lemma_unknown_code_is_distinct_failure(val: i32)
    requires
        val < 0,
        decode_spec(val as int) is None,
    ensures
        to_result_spec(val as int) == Err::<(), Failure>(Failure::Unknown(val)),
        forall|e: Error| to_result_spec(val as int) != Err::<(), Failure>(Failure::Known(e)),
{
}

/// Funnels a raw backend status code into a result: success for zero and
/// positive codes, the decoded kind for a code of the closed enumeration,
/// and the distinct unknown class for any other negative code. Every raw
/// code of the wrapper passes through here exactly once; no raw code
/// escapes untagged to callers.
#[allow(non_snake_case)]
pub fn Y(val: i32) -> (r: Result<(), Failure>)
    ensures
        r == to_result_spec(val as int),
{
    if val >= 0 {
        Ok(())
    } else {
        match Error::c(val) {
            Some(e) => Err(Failure::Known(e)),
            None => Err(Failure::Unknown(val)),
        }
    }
}

} // verus!
