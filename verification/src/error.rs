//! Kernel error codes, as the I2C layer uses them.
use vstd::prelude::*;

verus! {

/// Largest errno value (`MAX_ERRNO`).
pub const MAX_ERRNO: i32 = 4095;

/// "Invalid argument".
pub const EINVAL: i32 = 22;

/// "No such device".
pub const ENODEV: i32 = 19;

/// An errno that an [`Error`] may hold: negative and not below `-MAX_ERRNO`.
pub open spec fn valid_errno(errno: int) -> bool {
    -(MAX_ERRNO as int) <= errno < 0
}

/// The errno that [`Error::from_errno`] keeps for `errno`: itself when valid, else `-EINVAL`.
pub open spec fn spec_from_errno(errno: i32) -> int {
    if valid_errno(errno as int) {
        errno as int
    } else {
        -EINVAL
    }
}

/// An error made from a valid errno hands that errno back, and an error made from any
/// value holds a valid errno.
pub proof fn lemma_errno_round_trip(errno: i32)
    ensures
        valid_errno(errno as int) ==> spec_from_errno(errno) == errno,
        valid_errno(spec_from_errno(errno)),
{
}

/// A kernel error: a negative errno in `[-MAX_ERRNO, -1]`.
#[derive(Clone, Copy, Debug, PartialEq, Eq, Structural)]
pub struct Error {
    errno: i32,
}

impl Error {
    #[verifier::type_invariant]
    spec fn inv(self) -> bool {
        valid_errno(self.errno as int)
    }

    /// The (negative) errno held. An error always holds a valid errno, so the
    /// fallback to `-EINVAL` never applies; it lets the validity be stated of every
    /// value, see [`lemma_code_valid`].
    pub closed spec fn code(self) -> int {
        if valid_errno(self.errno as int) {
            self.errno as int
        } else {
            -EINVAL
        }
    }

    /// `Some` error holding `errno` exactly when `errno` is a valid errno.
    pub fn try_from_errno(errno: i32) -> (r: Option<Error>)
        ensures
            r is Some <==> valid_errno(errno as int),
            r matches Some(e) ==> e.code() == errno,
    {
        if errno < -MAX_ERRNO || errno >= 0 {
            None
        } else {
            Some(Error { errno })
        }
    }

    /// The error holding `errno`, or `EINVAL` when `errno` is out of range.
    pub fn from_errno(errno: i32) -> (e: Error)
        ensures
            e.code() == spec_from_errno(errno),
            -4095 <= errno <= -1 ==> e.code() == errno,
            (errno < -4095 || errno >= 0) ==> e.code() == -22,
    {
        match Error::try_from_errno(errno) {
            Some(e) => e,
            None => Error::einval(),
        }
    }

    /// The errno to hand back to C: negative.
    pub fn to_errno(&self) -> (r: i32)
        ensures
            r == self.code(),
            valid_errno(r as int),
    {
        proof {
            use_type_invariant(self);
        }
        self.errno
    }

    /// `EINVAL` as an error.
    pub fn einval() -> (e: Error)
        ensures
            e.code() == -EINVAL,
    {
        Error { errno: -EINVAL }
    }

    /// `ENODEV` as an error.
    pub fn enodev() -> (e: Error)
        ensures
            e.code() == -ENODEV,
    {
        Error { errno: -ENODEV }
    }
}

/// What `to_result` gives for a C return value.
pub open spec fn spec_to_result(err: i32) -> Result<(), int> {
    if err < 0 {
        Err(spec_from_errno(err))
    } else {
        Ok(())
    }
}

/// A C return value that is `0` or a valid errno maps to success or to the error with
/// that very errno, so mapping an error to its errno and back gives the error again.
pub proof fn lemma_to_result_round_trip(err: i32)
    requires
        err == 0 || valid_errno(err as int),
    ensures
        spec_to_result(err) == (if err == 0 {
            Ok::<(), int>(())
        } else {
            Err(err as int)
        }),
{
}

/// The errno of an error is valid: negative and not below `-MAX_ERRNO`.
pub proof fn lemma_code_valid(e: Error)
    ensures
        valid_errno(e.code()),
{
}

/// Maps a C return value to a `Result`: negative values are errors.
pub fn to_result(err: i32) -> (r: Result<(), Error>)
    ensures
        r is Ok <==> err >= 0,
        -4095 <= err <= -1 ==> (r matches Err(e) && e.code() == err),
        err < -4095 ==> (r matches Err(e) && e.code() == -22),
        r matches Err(e) ==> Err::<(), int>(e.code()) == spec_to_result(err),
{
    if err < 0 {
        Err(Error::from_errno(err))
    } else {
        Ok(())
    }
}

/// A pointer value that encodes an error (`IS_ERR`): one of the top `MAX_ERRNO` addresses.
pub open spec fn is_err_ptr(ptr: usize) -> bool {
    ptr > usize::MAX - MAX_ERRNO
}

/// The errno that an error pointer encodes (`PTR_ERR`).
pub open spec fn ptr_errno(ptr: usize) -> int {
    ptr - (usize::MAX + 1)
}

/// Splits a returned pointer into the pointer itself or the error it encodes.
pub fn from_err_ptr(ptr: usize) -> (r: Result<usize, Error>)
    ensures
        r is Ok <==> !is_err_ptr(ptr),
        r is Err <==> usize::MAX - 4094 <= ptr,
        r matches Err(e) ==> e.code() == ptr - usize::MAX - 1 && -4095 <= e.code() <= -1,
        r matches Ok(p) ==> p == ptr,
        r matches Err(e) ==> e.code() == ptr_errno(ptr),
{
    if ptr > usize::MAX - 4095 {
        let errno: i32 = -((usize::MAX - ptr) as i32) - 1;
        let e = Error::from_errno(errno);
        Err(e)
    } else {
        Ok(ptr)
    }
}

/// The error codes used here have their values from the kernel's headers, and an
/// errno is valid exactly when it lies in `[-4095, -1]`: `from_errno` keeps exactly
/// those and maps everything else to `-EINVAL`, and `to_result` fails on exactly the
/// negative values, keeping the errno when it is valid.
pub proof fn lemma_errno_range(errno: i32)
    ensures
        MAX_ERRNO == 4095,
        EINVAL == 22,
        ENODEV == 19,
        valid_errno(errno as int) <==> (-4095 <= errno && errno <= -1),
        (-4095 <= errno && errno <= -1) ==> spec_from_errno(errno) == errno,
        (errno < -4095 || errno >= 0) ==> spec_from_errno(errno) == -22,
        (-4095 <= errno && errno <= -1) ==> spec_to_result(errno) == Err::<(), int>(errno as int),
        errno >= 0 ==> spec_to_result(errno) == Ok::<(), int>(()),
{
}

/// A returned pointer encodes an error exactly when it is one of the top 4095
/// addresses, and then its errno is the pointer read as a negative number, in
/// `[-4095, -1]`.
pub proof fn lemma_err_ptr_range(ptr: usize)
    ensures
        is_err_ptr(ptr) <==> usize::MAX - 4094 <= ptr,
        is_err_ptr(ptr) ==> ptr_errno(ptr) == ptr - usize::MAX - 1,
        is_err_ptr(ptr) ==> -4095 <= ptr_errno(ptr) <= -1,
{
}

} // verus!
