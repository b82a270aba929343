//! Error type for functions that check the results of platform calls, plus
//! the mapping from Win32 thread error codes to `HRESULT` bit patterns.

use vstd::prelude::*;

verus! {

/// Error produced when a platform call fails. The error captures the name of
/// the failing operation together with the platform's error code, so callers
/// can both report the failure and match on the specific condition.
#[derive(Clone, Copy, Debug)]
pub enum Error {
    /// An unexpected platform error occurred and was not handled internally.
    Unexpected {
        /// A hint as to the error source. Usually just the name of the
        /// platform function that failed.
        source_hint: &'static str,
        /// The platform error code: an `HRESULT`, kept as its raw bit
        /// pattern.
        code: u32,
    },
}

impl Error {
    /// The platform error code carried by this error.
    pub open spec fn spec_code(&self) -> u32 {
        self->code
    }

    /// The name of the failing operation carried by this error.
    pub open spec fn spec_source_hint(&self) -> &'static str {
        self->source_hint
    }

    /// Returns the underlying platform error code.
    pub fn code(&self) -> (c: u32)
        ensures
            c == self.spec_code(),
    {
        match self {
            Error::Unexpected { code, .. } => *code,
        }
    }

    /// Returns the name of the operation that produced this error.
    pub fn source_hint(&self) -> (h: &'static str)
        ensures
            h == self.spec_source_hint(),
    {
        match self {
            Error::Unexpected { source_hint, .. } => source_hint,
        }
    }
}

/// How the platform folds a Win32 thread error code into an `HRESULT`:
/// zero stays zero, a code with the high bit already set is passed through
/// unchanged, and any other code is tagged with the Win32 facility bits.
pub open spec fn hresult_from_win32(err: u32) -> u32 {
    if err == 0 {
        0
    } else if err >= 0x8000_0000 {
        err
    } else {
        0x8007_0000 | (err & 0xFFFF)
    }
}

/// Builds the [`Error`] for a failed platform call from the name of the
/// failing operation and the thread's Win32 error code.
pub fn get_last_err(f_name: &'static str, last_err: u32) -> (e: Error)
    ensures
        e == (Error::Unexpected { source_hint: f_name, code: hresult_from_win32(last_err) }),
{
    let code: u32 = if last_err == 0 {
        0
    } else if last_err >= 0x8000_0000 {
        last_err
    } else {
        0x8007_0000 | (last_err & 0xFFFF)
    };
    Error::Unexpected { source_hint: f_name, code }
}

} // verus!
