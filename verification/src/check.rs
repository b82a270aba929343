//! A collection of functions which take the results of platform calls and
//! check them for success, mapping to a `Result` type with additional
//! context in the case of an unsuccessful call.
//!
//! The platform reports failure in several shapes: a thread-local error
//! code, a boolean, a result code, or a null pointer. The caller performs
//! the call itself (and, where relevant, reads the thread's error code
//! right after it) and hands the plain outcome here to be checked.

use vstd::prelude::*;

use crate::errors::{get_last_err, hresult_from_win32, Error};

verus! {

/// Checks a platform call which indicates failure by setting the thread's
/// last-error code and not by return value. `result` is what the call
/// returned and `last_err` the thread's error code read right after it
/// (with the code cleared to `0` right before it, as the platform asks).
pub fn check_last_err<R>(result: R, last_err: u32, f_name: &'static str) -> (r: Result<R, Error>)
    ensures
        last_err == 0 ==> r == Ok::<R, Error>(result),
        last_err != 0 ==> r == Err::<R, Error>(
            Error::Unexpected { source_hint: f_name, code: hresult_from_win32(last_err) },
        ),
{
    if last_err == 0 {
        Ok(result)
    } else {
        Err(get_last_err(f_name, last_err))
    }
}

/// Checks a platform call which defines success by a boolean return value.
/// `succeeded` is the returned boolean and `last_err` the thread's error
/// code read after the call, used for context on failure.
pub fn check_bool(succeeded: bool, last_err: u32, f_name: &'static str) -> (r: Result<(), Error>)
    ensures
        succeeded ==> r == Ok::<(), Error>(()),
        !succeeded ==> r == Err::<(), Error>(
            Error::Unexpected { source_hint: f_name, code: hresult_from_win32(last_err) },
        ),
{
    if succeeded {
        Ok(())
    } else {
        Err(get_last_err(f_name, last_err))
    }
}

/// Checks a platform call which reports success by a result code: `Ok` is
/// passed through, a failing code is wrapped with the operation's name.
pub fn check_res<V>(result: Result<V, u32>, f_name: &'static str) -> (r: Result<V, Error>)
    ensures
        match result {
            Ok(v) => r == Ok::<V, Error>(v),
            Err(code) => r == Err::<V, Error>(Error::Unexpected { source_hint: f_name, code }),
        },
{
    match result {
        Ok(v) => Ok(v),
        Err(code) => Err(Error::Unexpected { source_hint: f_name, code }),
    }
}

/// Checks a platform call which defines success by non-null pointers.
/// `last_err` is the thread's error code read after the call, used for
/// context on failure.
pub fn check_ptr<P: Win32Pointer>(ptr: P, last_err: u32, f_name: &'static str) -> (r: Result<P, Error>)
    ensures
        !ptr.spec_is_null() ==> r == Ok::<P, Error>(ptr),
        ptr.spec_is_null() ==> r == Err::<P, Error>(
            Error::Unexpected { source_hint: f_name, code: hresult_from_win32(last_err) },
        ),
{
    if ptr.is_null() {
        Err(get_last_err(f_name, last_err))
    } else {
        Ok(ptr)
    }
}

/// A common trait implemented for values that stand for platform pointers.
pub trait Win32Pointer: Sized {
    /// Whether the value is the null sentinel.
    spec fn spec_is_null(&self) -> bool;

    /// Predicate method which indicates whether the pointer should be
    /// considered a null pointer.
    fn is_null(&self) -> (r: bool)
        ensures
            r == self.spec_is_null(),
    ;
}

impl Win32Pointer for isize {
    open spec fn spec_is_null(&self) -> bool {
        *self == 0
    }

    fn is_null(&self) -> bool {
        *self == 0
    }
}

impl Win32Pointer for usize {
    open spec fn spec_is_null(&self) -> bool {
        *self == 0
    }

    fn is_null(&self) -> bool {
        *self == 0
    }
}

} // verus!
