//! The successor collection of the platform-call mappings: the same
//! checks as [`crate::mapping`], with `map_result` in place of `map_res`
//! and the pointer predicate under the [`Win32Ptr`] name.
//!
//! The caller performs the platform call itself (and, where relevant,
//! reads the thread's error code right after it) and hands the plain
//! outcome here to be mapped into a `Result` with context.

use vstd::prelude::*;

use crate::errors::{get_last_err, hresult_from_win32, Error};

verus! {

/// Maps a platform call which defines success by directly setting the
/// thread's last-error value. `result` is what the call returned and
/// `last_err` the thread's error code read right after it (cleared to `0`
/// right before it, as is best practice for these functions). The call
/// succeeded exactly when the code is still `0`.
pub fn map_last_err<R>(result: R, last_err: u32, source_hint: &'static str) -> (r: Result<
    R,
    Error,
>)
    ensures
        last_err == 0 ==> r == Ok::<R, Error>(result),
        last_err != 0 ==> r == Err::<R, Error>(
            Error::Unexpected { source_hint, code: hresult_from_win32(last_err) },
        ),
{
    if last_err == 0 {
        Ok(result)
    } else {
        Err(get_last_err(source_hint, last_err))
    }
}

/// Maps a platform call which defines success by a boolean return value
/// into a `Result` for ergonomic error handling, attaching the thread's
/// error code as context on failure.
pub fn map_bool(succeeded: bool, last_err: u32, source_hint: &'static str) -> (r: Result<
    (),
    Error,
>)
    ensures
        succeeded ==> r == Ok::<(), Error>(()),
        !succeeded ==> r == Err::<(), Error>(
            Error::Unexpected { source_hint, code: hresult_from_win32(last_err) },
        ),
{
    if succeeded {
        Ok(())
    } else {
        Err(get_last_err(source_hint, last_err))
    }
}

/// Maps a platform call which reports success by a result code: `Ok` is
/// passed through, a failing code is wrapped with the operation's name as
/// context.
pub fn map_result<V>(result: Result<V, u32>, source_hint: &'static str) -> (r: Result<V, Error>)
    ensures
        match result {
            Ok(v) => r == Ok::<V, Error>(v),
            Err(code) => r == Err::<V, Error>(Error::Unexpected { source_hint, code }),
        },
{
    match result {
        Ok(v) => Ok(v),
        Err(code) => Err(Error::Unexpected { source_hint, code }),
    }
}

/// Maps a platform call which defines success by a non-null [`Win32Ptr`]
/// return value, attaching the thread's error code as context on failure.
pub fn map_ptr<P: Win32Ptr>(ptr: P, last_err: u32, source_hint: &'static str) -> (r: Result<
    P,
    Error,
>)
    ensures
        !ptr.spec_is_null() ==> r == Ok::<P, Error>(ptr),
        ptr.spec_is_null() ==> r == Err::<P, Error>(
            Error::Unexpected { source_hint, code: hresult_from_win32(last_err) },
        ),
{
    if ptr.is_null() {
        Err(get_last_err(source_hint, last_err))
    } else {
        Ok(ptr)
    }
}

/// A trait implemented for values that stand for platform pointers, which
/// have no common way to tell whether they are valid: this provides one.
pub trait Win32Ptr: Sized {
    /// Whether the value is the null sentinel.
    spec fn spec_is_null(&self) -> bool;

    /// Predicate method which indicates whether the pointer should be
    /// considered a null pointer.
    fn is_null(&self) -> (r: bool)
        ensures
            r == self.spec_is_null(),
    ;
}

impl Win32Ptr for isize {
    open spec fn spec_is_null(&self) -> bool {
        *self == 0
    }

    fn is_null(&self) -> bool {
        *self == 0
    }
}

impl Win32Ptr for usize {
    open spec fn spec_is_null(&self) -> bool {
        *self == 0
    }

    fn is_null(&self) -> bool {
        *self == 0
    }
}

} // verus!
