//! Errors, and how the integers that libasound returns are read as success or
//! failure.

use vstd::prelude::*;

use crate::text::{push_signed_decimal, push_text, spec_signed_decimal};

verus! {

/// Error for opening audio device for reading (recording) or writing (playing).
#[derive(Debug, Clone)]
pub enum AudioError {
    /// There is no speaker/microphone.
    NoDevice,
    /// Generally, this shouldn't happen.  If it does, it is probably a bug.
    InternalError(String),
}

/// A libasound call that failed: the name of the function and the error
/// number it reported (positive).
#[derive(Debug, Clone, Copy)]
pub struct AlsaError {
    /// Name of the libasound function.
    pub func: &'static str,
    /// The error number.
    pub code: i32,
}

/// The text of an [`AlsaError`]: the function's name and the error number.
pub open spec fn spec_alsa_message(func: Seq<char>, code: i32) -> Seq<char> {
    "ALSA function '"@ + func + "' failed with errorno '"@ + spec_signed_decimal(code as int)
        + "'"@
}

impl AlsaError {
    /// The error that `func` reported with the error number `res`.
    pub fn new(func: &'static str, res: i32) -> (e: AlsaError)
        ensures
            e.func == func,
            e.code == res,
    {
        AlsaError { func, code: res }
    }

    /// Human-readable description of the error.
    pub fn message(&self) -> (r: String)
        ensures
            r@ == spec_alsa_message(self.func@, self.code),
    {
        let mut s = String::new();
        push_text(&mut s, "ALSA function '");
        push_text(&mut s, self.func);
        push_text(&mut s, "' failed with errorno '");
        push_signed_decimal(&mut s, self.code as i64);
        push_text(&mut s, "'");
        s
    }
}

/// Read the return value `r` of the libasound function `func`: a negative
/// value is the negated error number, anything else is success and is handed
/// back.
pub fn check_call(func: &'static str, r: i32) -> (res: Result<i32, AlsaError>)
    requires
        r != i32::MIN,
    ensures
        r < 0 ==> res == Err::<i32, AlsaError>((AlsaError { func, code: (-r) as i32 })),
        r >= 0 ==> res == Ok::<i32, AlsaError>(r),
{
    if r < 0 {
        Err(AlsaError::new(func, -r))
    } else {
        Ok(r)
    }
}

/// Read a frame count returned by the libasound function `func` (a C `long`):
/// negative is failure, whose error number is the negation cut to a C `int`;
/// otherwise the count of frames.
pub fn check_frames(func: &'static str, r: i64) -> (res: Result<usize, AlsaError>)
    requires
        r != i64::MIN,
        r <= usize::MAX,
    ensures
        r < 0 ==> res == Err::<usize, AlsaError>((AlsaError { func, code: (-r) as i32 })),
        r >= 0 ==> res == Ok::<usize, AlsaError>(r as usize),
{
    if r < 0 {
        let neg: i64 = -r;
        Err(AlsaError::new(func, neg as i32))
    } else {
        Ok(r as usize)
    }
}

/// Read a status returned by libasound: success exactly when it is not
/// negative; on failure the status itself is the error.
pub fn check_status(ret: i32) -> (res: Result<(), i64>)
    ensures
        ret >= 0 ==> res is Ok,
        ret < 0 ==> res == Err::<(), i64>(ret as i64),
{
    if ret < 0 {
        Err(ret as i64)
    } else {
        Ok(())
    }
}

/// Read a count of frames read or written (a C `long`): the count when it is
/// not negative, the negative error number otherwise.
pub fn check_count(ret: i64) -> (res: Result<usize, isize>)
    requires
        isize::MIN <= ret <= isize::MAX,
    ensures
        ret >= 0 ==> res == Ok::<usize, isize>(ret as usize),
        ret < 0 ==> res == Err::<usize, isize>(ret as isize),
{
    if ret < 0 {
        Err(ret as isize)
    } else {
        Ok(ret as usize)
    }
}

} // verus!
