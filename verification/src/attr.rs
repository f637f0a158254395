//! Terminal attributes, and the system calls that read and write them.

use crate::util::{convert_to_result, OsError};
use vstd::prelude::*;

verus! {

/// `libc::termios`: a snapshot of a terminal's driver configuration. The
/// library stores such a snapshot and hands it back; it never looks inside.
#[verifier::external_type_specification]
#[verifier::external_body]
pub struct ExTermios(libc::termios);

/// A snapshot of a terminal's driver configuration.
pub type Termios = libc::termios;

/// A system call on a terminal's attributes that the caller is asked to make.
#[derive(Clone, Copy, Debug, PartialEq, Eq)]
pub enum Request {
    /// Derive the raw-mode variant of `base` and put it in force on `fd`.
    WriteRaw { fd: i32, base: Termios },
    /// Put `ios` in force on `fd`, exactly as it stands.
    Write { fd: i32, ios: Termios },
}

impl Request {
    /// The handle that the call is made on.
    pub open spec fn handle(self) -> i32 {
        match self {
            Request::WriteRaw { fd, .. } => fd,
            Request::Write { fd, .. } => fd,
        }
    }
}

/// Reads the outcome of a `tcgetattr` call: `status` is what the call
/// returned and `termios` the buffer that it was given to fill.
pub fn get_terminal_attr(status: i32, termios: Termios) -> (r: Result<Termios, OsError>)
    ensures
        r is Err <==> status == -1,
        status != -1 ==> r == Ok::<Termios, OsError>(termios),
{
    convert_to_result(status)?;
    Ok(termios)
}

/// Reads the outcome of a `tcsetattr` call from what the call returned.
pub fn set_terminal_attr(status: i32) -> (r: Result<(), OsError>)
    ensures
        r is Err <==> status == -1,
        status != -1 ==> r == Ok::<(), OsError>(()),
{
    match convert_to_result(status) {
        Ok(_) => Ok(()),
        Err(e) => Err(e),
    }
}

} // verus!
