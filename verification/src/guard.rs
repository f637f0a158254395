//! The guard that remembers what a terminal was set to.

use crate::attr::{Request, Termios};
use crate::util::OsError;
use vstd::prelude::*;

verus! {

/// Keeps the attributes that a terminal had when the guard was made, so that
/// they can be put back when the guard is released.
///
/// The guard makes no system call itself. It tells its owner which call to
/// make, and is told how the call went.
#[derive(Debug)]
pub struct TtyModeGuard {
    ios: Termios,
    fd: i32,
}

impl TtyModeGuard {
    /// The handle of the terminal that the guard watches over.
    pub closed spec fn fd(self) -> i32 {
        self.fd
    }

    /// The attributes that the guard remembers: those that were in force
    /// when it was made.
    pub closed spec fn saved(self) -> Termios {
        self.ios
    }

    /// The call that switches the guarded terminal to raw mode.
    pub open spec fn raw_mode_request(self) -> Request {
        Request::WriteRaw { fd: self.fd(), base: self.saved() }
    }

    /// The call that puts the remembered attributes back.
    pub open spec fn restore_request(self) -> Request {
        Request::Write { fd: self.fd(), ios: self.saved() }
    }

    /// Makes the guard of `fd` from the answer to a query of its attributes.
    ///
    /// Where the query failed there is no guard, and its error is handed on
    /// unchanged.
    pub fn new(fd: i32, attr: Result<Termios, OsError>) -> (r: Result<TtyModeGuard, OsError>)
        ensures
            match attr {
                Ok(ios) => r matches Ok(guard) && guard.fd() == fd && guard.saved() == ios,
                Err(e) => r == Err::<TtyModeGuard, OsError>(e),
            },
    {
        let ios = attr?;
        Ok(TtyModeGuard { ios, fd })
    }

    /// Names the call that switches the terminal to raw mode. The raw
    /// attributes are derived from the remembered ones, whatever is in force
    /// by now.
    pub fn raw_request(&self) -> (req: Request)
        ensures
            req == self.raw_mode_request(),
    {
        Request::WriteRaw { fd: self.fd, base: self.ios }
    }

    /// Takes in how the call named by [`TtyModeGuard::raw_request`] went.
    ///
    /// After a success the guard comes back as it was: it still remembers
    /// the attributes from before raw mode. After a failure the guard is
    /// gone and the error is handed on; nothing was changed, so nothing is
    /// left to put back.
    pub fn with_raw_mode(self, applied: Result<(), OsError>) -> (r: Result<
        TtyModeGuard,
        OsError,
    >)
        ensures
            r == match applied {
                Ok(_) => Ok::<TtyModeGuard, OsError>(self),
                Err(e) => Err(e),
            },
    {
        match applied {
            Ok(_) => Ok(self),
            Err(e) => Err(e),
        }
    }

    /// Ends the guard and names the call that puts the remembered attributes
    /// back. The owner must make that call, and must not pass over its
    /// failure: a terminal left in raw mode is of no use to what runs next.
    pub fn release(self) -> (req: Request)
        ensures
            req == self.restore_request(),
    {
        Request::Write { fd: self.fd, ios: self.ios }
    }
}

} // verus!
