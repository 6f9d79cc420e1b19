//! Translation of ROM driver status words into typed results.
//!
//! The ROM flash routines report a `u32` status: zero means success,
//! any other value is a vendor-defined failure code. The code is kept
//! verbatim so the host can diagnose the failure.

use vstd::prelude::*;

verus! {

/// The status word the ROM driver returns on success.
pub const FAPI_STATUS_SUCCESS: u32 = 0;

/// A failed ROM driver call, carrying the raw non-zero status word
/// exactly as the driver returned it.
#[derive(Clone, Copy, Debug, PartialEq, Eq, Structural)]
pub struct ErrorCode {
    code: u32,
}

impl ErrorCode {
    /// The raw status word carried by this error.
    pub closed spec fn spec_code(self) -> u32 {
        self.code
    }

    /// An error always carries a non-zero status word.
    pub open spec fn wf(self) -> bool {
        self.spec_code() != 0
    }

    /// Wraps a ROM status word: `None` for the success status, the
    /// carried code otherwise.
    pub fn new(status: u32) -> (r: Option<ErrorCode>)
        ensures
            r is None <==> status == 0,
            r matches Some(e) ==> e.spec_code() == status && e.wf(),
    {
        if status == 0 {
            None
        } else {
            Some(ErrorCode { code: status })
        }
    }

    /// Wraps a status word already known to report a failure.
    pub fn from_failure(status: u32) -> (r: ErrorCode)
        requires
            status != 0,
        ensures
            r.spec_code() == status,
            r.wf(),
    {
        ErrorCode { code: status }
    }

    /// The raw status word, for host-side diagnostics.
    pub fn code(&self) -> (r: u32)
        ensures
            r == self.spec_code(),
    {
        self.code
    }
}

/// Maps a ROM status word to the operation result: the success status
/// maps to `Ok`, every other word to an error carrying exactly that
/// word.
pub fn status_to_result(status: u32) -> (r: Result<(), ErrorCode>)
    ensures
        r is Ok <==> status == 0,
        r matches Err(e) ==> e.spec_code() == status && e.wf(),
{
    if status == FAPI_STATUS_SUCCESS {
        Ok(())
    } else {
        Err(ErrorCode { code: status })
    }
}

} // verus!
