//! A collection of functions which take the results of platform calls and
//! map their return values to a `Result` type with additional context in
//! the case of an unsuccessful call.
//!
//! Same shapes as [`crate::check`], under the mapping names: the platform
//! reports failure through the thread's last-error code, a boolean, a
//! result code, or a null pointer; the caller performs the call and hands
//! the plain outcome here.

use vstd::prelude::*;

use crate::errors::{get_last_err, hresult_from_win32, Error};

verus! {

/// Maps a platform call which defines success by directly setting the
/// thread's last-error value. `result` is what the call returned and
/// `last_err` the thread's error code read right after it (cleared to `0`
/// right before it, as is best practice for these functions).
pub fn map_last_err<R>(result: R, last_err: u32, source_hint: &'static str) -> (r: Result<
    R,
    Error,
>)
    ensures
        last_err == 0 ==> r == Ok::<R, Error>(result),
        last_err != 0 ==> r == Err::<R, Error>(
            Error::Unexpected { source_hint, code: hresult_from_win32(last_err) },
        ),
{
    if last_err == 0 {
        Ok(result)
    } else {
        Err(get_last_err(source_hint, last_err))
    }
}

/// Maps a platform call which defines success by a boolean return value
/// into a `Result` for ergonomic error handling, attaching the thread's
/// error code as context on failure.
pub fn map_bool(succeeded: bool, last_err: u32, source_hint: &'static str) -> (r: Result<
    (),
    Error,
>)
    ensures
        succeeded ==> r == Ok::<(), Error>(()),
        !succeeded ==> r == Err::<(), Error>(
            Error::Unexpected { source_hint, code: hresult_from_win32(last_err) },
        ),
{
    if succeeded {
        Ok(())
    } else {
        Err(get_last_err(source_hint, last_err))
    }
}

/// Maps a platform call which reports success by a result code: `Ok` is
/// passed through, a failing code is wrapped with the operation's name.
pub fn map_res<V>(result: Result<V, u32>, f_name: &'static str) -> (r: Result<V, Error>)
    ensures
        match result {
            Ok(v) => r == Ok::<V, Error>(v),
            Err(code) => r == Err::<V, Error>(Error::Unexpected { source_hint: f_name, code }),
        },
{
    match result {
        Ok(v) => Ok(v),
        Err(code) => Err(Error::Unexpected { source_hint: f_name, code }),
    }
}

/// Maps a platform call which defines success by non-null pointers,
/// attaching the thread's error code as context on failure.
pub fn map_ptr<P: Win32Pointer>(ptr: P, last_err: u32, f_name: &'static str) -> (r: Result<
    P,
    Error,
>)
    ensures
        !ptr.spec_is_null() ==> r == Ok::<P, Error>(ptr),
        ptr.spec_is_null() ==> r == Err::<P, Error>(
            Error::Unexpected { source_hint: f_name, code: hresult_from_win32(last_err) },
        ),
{
    if ptr.is_null() {
        Err(get_last_err(f_name, last_err))
    } else {
        Ok(ptr)
    }
}

/// A common trait implemented for values that stand for platform pointers.
pub trait Win32Pointer: Sized {
    /// Whether the value is the null sentinel.
    spec fn spec_is_null(&self) -> bool;

    /// Predicate method which indicates whether the pointer should be
    /// considered a null pointer.
    fn is_null(&self) -> (r: bool)
        ensures
            r == self.spec_is_null(),
    ;
}

impl Win32Pointer for isize {
    open spec fn spec_is_null(&self) -> bool {
        *self == 0
    }

    fn is_null(&self) -> bool {
        *self == 0
    }
}

impl Win32Pointer for usize {
    open spec fn spec_is_null(&self) -> bool {
        *self == 0
    }

    fn is_null(&self) -> bool {
        *self == 0
    }
}

} // verus!
