//! The lifecycle model of a backend session: a context owning exactly one
//! non-null native handle.

use vstd::prelude::*;
use crate::error::Failure;
use crate::error::Y;
use crate::error::to_result_spec;

verus! {

/// A session with the backend. A context owns exactly one native handle
/// for the whole life of the value; the handle is never null and is never
/// handed out.
pub struct Context {
    handle: usize,
}

/// Why construction of a context failed.
///
/// `Backend` carries a failure reported through the status code: a named
/// kind, or the distinct unknown class for an unmapped negative code.
/// `NullHandle` means the backend reported success yet produced the null
/// handle, which its contract rules out; it is kept apart from `Failure`
/// so that callers can treat it as fatal.
#[derive(Copy, Clone, Debug, PartialEq, Eq, Structural)]
pub enum CreateError {
    Backend(Failure),
    NullHandle,
}

impl Context {
    /// The native handle value this context owns.
    pub closed spec fn handle_id(self) -> int {
        self.handle as int
    }

    /// A usable context never wraps the null handle.
    pub open spec fn wf(self) -> bool {
        self.handle_id() != 0
    }

    /// Judges the backend's answer to a create call: `handle` is the
    /// handle it produced, `status` its status code. Yields a usable
    /// context exactly when the status reports success and the handle is
    /// non-null; any failing status — a named kind or an unmapped negative
    /// code — comes back as it was reported, and a null handle under a
    /// success status is the distinct `NullHandle` fault, never a usable
    /// context.
    pub fn try_create(handle: usize, status: i32) -> (r: Result<Context, CreateError>)
        ensures
            match r {
                Ok(c) => to_result_spec(status as int) is Ok && handle != 0 && c.wf()
                    && c.handle_id() == handle as int,
                Err(CreateError::Backend(f)) => to_result_spec(status as int)
                    == Err::<(), Failure>(f),
                Err(CreateError::NullHandle) => to_result_spec(status as int) is Ok
                    && handle == 0,
            },
    {
        match Y(status) {
            Err(f) => Err(CreateError::Backend(f)),
            Ok(()) => {
                if handle == 0 {
                    Err(CreateError::NullHandle)
                } else {
                    Ok(Context { handle })
                }
            },
        }
    }

    /// Decodes the backend's status for the call that connects this
    /// session to the audio daemon. The context itself is unchanged: the
    /// opened state lives in the backend, which enforces call ordering and
    /// reports misuse through the status itself.
    pub fn open(&mut self, status: i32) -> (r: Result<(), Failure>)
        ensures
            *final(self) == *old(self),
            r == to_result_spec(status as int),
    {
        Y(status)
    }

    /// Decodes the backend's status for a driver-selection call.
    pub fn set_driver(&mut self, status: i32) -> (r: Result<(), Failure>)
        ensures
            *final(self) == *old(self),
            r == to_result_spec(status as int),
    {
        Y(status)
    }

    /// Decodes the backend's status for a call that retargets output to
    /// another device.
    pub fn change_device(&mut self, status: i32) -> (r: Result<(), Failure>)
        ensures
            *final(self) == *old(self),
            r == to_result_spec(status as int),
    {
        Y(status)
    }

    /// Decodes the backend's status for a cancellation request. Success
    /// means only that the request was accepted, not that the sound
    /// stopped; the backend answers `NotFound` or the like when no
    /// operation with the given id is in flight.
    pub fn cancel(&mut self, status: i32) -> (r: Result<(), Failure>)
        ensures
            *final(self) == *old(self),
            r == to_result_spec(status as int),
    {
        Y(status)
    }

    /// Decodes the backend's answer to a play-status query: `status` is
    /// its status code, `playing` the flag it filled in. On success the
    /// queried operation counts as playing exactly when the flag is
    /// nonzero; the flag is read only when the status reports success, and
    /// any failing status — named or unknown — comes back as it was
    /// reported.
    pub fn is_playing(&mut self, status: i32, playing: i32) -> (r: Result<bool, Failure>)
        ensures
            *final(self) == *old(self),
            match to_result_spec(status as int) {
                Ok(()) => r == Ok::<bool, Failure>(playing != 0),
                Err(f) => r == Err::<bool, Failure>(f),
            },
    {
        match Y(status) {
            Ok(()) => Ok(playing != 0),
            Err(f) => Err(f),
        }
    }

    /// Consumes the context at teardown; taking `self` by value makes this
    /// the one release point, and a released context cannot be touched or
    /// released again. `status` is the backend's answer to the destroy
    /// call. The backend promises that teardown succeeds, so any nonzero
    /// status is an unrecoverable fault: it comes back as the offending
    /// raw code, deliberately not as a `Failure`, and the caller must abort
    /// on it rather than carry on.
    pub fn destroy(self, status: i32) -> (r: Result<(), i32>)
        ensures
            r is Ok <==> status == 0,
            r is Err ==> r->Err_0 == status,
    {
        if status == 0 {
            Ok(())
        } else {
            Err(status)
        }
    }
}

} // verus!
