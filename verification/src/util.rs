//! Telling a failed system call from its return value.

use vstd::prelude::*;

verus! {

/// The error that the platform reported for a failed system call.
#[derive(Clone, Copy, Debug, PartialEq, Eq, Structural)]
pub struct OsError {
    /// The platform's error number, or 0 where it gave none.
    pub code: i32,
}

/// `std::io::Error`, carried from one standard-library call to the next and
/// never looked into.
#[verifier::external_type_specification]
#[verifier::external_body]
pub struct ExIoError(std::io::Error);

/// Return values that can signal failure by being -1.
pub trait IsMinusOne {
    /// Whether the value is -1.
    spec fn minus_one(&self) -> bool;

    /// Tells whether the value is -1.
    fn is_minus_one(&self) -> (b: bool)
        ensures
            b == self.minus_one(),
    ;
}

impl IsMinusOne for i8 {
    open spec fn minus_one(&self) -> bool {
        *self == -1
    }

    fn is_minus_one(&self) -> (b: bool) {
        *self == -1
    }
}

impl IsMinusOne for i16 {
    open spec fn minus_one(&self) -> bool {
        *self == -1
    }

    fn is_minus_one(&self) -> (b: bool) {
        *self == -1
    }
}

impl IsMinusOne for i32 {
    open spec fn minus_one(&self) -> bool {
        *self == -1
    }

    fn is_minus_one(&self) -> (b: bool) {
        *self == -1
    }
}

impl IsMinusOne for i64 {
    open spec fn minus_one(&self) -> bool {
        *self == -1
    }

    fn is_minus_one(&self) -> (b: bool) {
        *self == -1
    }
}

impl IsMinusOne for isize {
    open spec fn minus_one(&self) -> bool {
        *self == -1
    }

    fn is_minus_one(&self) -> (b: bool) {
        *self == -1
    }
}

/// `std::io::Error::last_os_error`: the error that the platform holds for the
/// calling thread. Which one that is depends on what the thread did last, so
/// nothing is claimed of it.
#[verifier::external_body]
fn last_io_error() -> (e: std::io::Error) {
    std::io::Error::last_os_error()
}

/// `std::io::Error::raw_os_error`: the platform's number for `e`, if it has
/// one. Nothing is claimed of the number.
#[verifier::external_body]
fn raw_os_error(e: &std::io::Error) -> (code: Option<i32>) {
    e.raw_os_error()
}

/// The error that the platform holds for the system call that just failed.
fn last_os_error() -> OsError {
    let e = last_io_error();
    OsError::from_code(raw_os_error(&e))
}

/// Turns the return value of a system call into a `Result`: -1 becomes the
/// platform's current error, any other value is handed back as it is.
pub fn convert_to_result<T: IsMinusOne>(t: T) -> (r: Result<T, OsError>)
    ensures
        r is Err <==> t.minus_one(),
        !t.minus_one() ==> r == Ok::<T, OsError>(t),
{
    if t.is_minus_one() {
        Err(last_os_error())
    } else {
        Ok(t)
    }
}

impl OsError {
    /// The error for the number that the platform gave, or for its having
    /// given none.
    pub fn from_code(code: Option<i32>) -> (e: OsError)
        ensures
            e.code == match code {
                Some(number) => number,
                None => 0,
            },
    {
        match code {
            Some(number) => OsError { code: number },
            None => OsError { code: 0 },
        }
    }
}

} // verus!
