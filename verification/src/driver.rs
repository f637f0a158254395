//! A model of the terminal driver, and what the guard's calls do to it.
//!
//! The library never sees the driver. What it promises is stated here
//! against a model of it: the attributes in force on each open terminal,
//! and how a [`Request`] that the library names changes them.

use crate::attr::{Request, Termios};
use crate::guard::TtyModeGuard;
use crate::reader::RawReader;
use vstd::prelude::*;

verus! {

/// The terminal driver, as far as the attributes of terminals go.
pub struct Driver {
    /// The attributes in force on each handle that is an open terminal.
    pub modes: Map<i32, Termios>,
}

impl Driver {
    /// Whether `fd` is an open terminal.
    pub open spec fn is_terminal(self, fd: i32) -> bool {
        self.modes.dom().contains(fd)
    }

    /// Whether the call `req` succeeds. It needs an open terminal to act on,
    /// and may fail for reasons of its own, which `fault` stands for.
    pub open spec fn serves(self, req: Request, fault: bool) -> bool {
        !fault && self.is_terminal(req.handle())
    }

    /// The driver after the call `req`, where `raw` is the derivation of raw
    /// attributes that the platform uses. A call that fails changes nothing.
    pub open spec fn after(self, req: Request, raw: spec_fn(Termios) -> Termios, fault: bool) -> Driver {
        if !self.serves(req, fault) {
            self
        } else {
            match req {
                Request::WriteRaw { fd, base } => Driver { modes: self.modes.insert(fd, raw(base)) },
                Request::Write { fd, ios } => Driver { modes: self.modes.insert(fd, ios) },
            }
        }
    }

    /// The driver after the resource that held `fd` open has been discarded.
    pub open spec fn after_discard(self, fd: i32) -> Driver {
        Driver { modes: self.modes.remove(fd) }
    }

    /// Whether `guard` remembers what is in force on its terminal here, as a
    /// guard does that [`TtyModeGuard::new`] has just made from the answer
    /// to a query.
    pub open spec fn captured_by(self, guard: TtyModeGuard) -> bool {
        self.is_terminal(guard.fd()) && guard.saved() == self.modes[guard.fd()]
    }
}

/// Releasing a guard puts back exactly what was in force on its terminal
/// when the guard was made, whatever the terminal has been set to since, and
/// touches no other terminal.
pub proof fn release_restores(
    before: Driver,
    later: Driver,
    guard: TtyModeGuard,
    raw: spec_fn(Termios) -> Termios,
)
    requires
        before.captured_by(guard),
        later.is_terminal(guard.fd()),
    ensures
        later.after(guard.restore_request(), raw, false).modes == later.modes.insert(
            guard.fd(),
            before.modes[guard.fd()],
        ),
        later.after(guard.restore_request(), raw, false).modes[guard.fd()]
            == before.modes[guard.fd()],
{
}

/// A guard that is made and released with nothing in between leaves the
/// driver exactly as it found it, whether or not the restoring call
/// succeeds.
pub proof fn capture_alone_changes_nothing(
    driver: Driver,
    guard: TtyModeGuard,
    raw: spec_fn(Termios) -> Termios,
    fault: bool,
)
    requires
        driver.captured_by(guard),
    ensures
        driver.after(guard.restore_request(), raw, fault) == driver,
{
    assert(driver.modes.insert(guard.fd(), driver.modes[guard.fd()]) =~= driver.modes);
}

/// Where the call that should switch to raw mode fails, the terminal is set
/// to what it was set to before.
pub proof fn failed_raw_mode_changes_nothing(
    driver: Driver,
    guard: TtyModeGuard,
    raw: spec_fn(Termios) -> Termios,
)
    ensures
        driver.after(guard.raw_mode_request(), raw, true) == driver,
{
}

/// Raw mode, once written, is the raw variant of what the guard remembers;
/// and releasing the guard afterwards brings the driver back to where it
/// was before raw mode.
pub proof fn raw_mode_is_undone_by_release(
    driver: Driver,
    guard: TtyModeGuard,
    raw: spec_fn(Termios) -> Termios,
)
    requires
        driver.captured_by(guard),
    ensures
        driver.after(guard.raw_mode_request(), raw, false).modes[guard.fd()] == raw(
            driver.modes[guard.fd()],
        ),
        driver.after(guard.raw_mode_request(), raw, false).after(
            guard.restore_request(),
            raw,
            false,
        ) == driver,
{
    let fd = guard.fd();
    let during = driver.after(guard.raw_mode_request(), raw, false);
    assert(during.modes.insert(fd, driver.modes[fd]) =~= driver.modes);
}

/// The restoring call of a reader succeeds while the reader's resource holds
/// the terminal open, and could not once the resource is discarded: then it
/// fails and the terminal stays as it was.
pub proof fn restore_needs_the_resource<R>(
    driver: Driver,
    reader: RawReader<R>,
    raw: spec_fn(Termios) -> Termios,
)
    requires
        driver.is_terminal(reader.guard().fd()),
    ensures
        driver.serves(reader.guard().restore_request(), false),
        !driver.after_discard(reader.guard().fd()).serves(reader.guard().restore_request(), false),
        driver.after_discard(reader.guard().fd()).after(reader.guard().restore_request(), raw, false)
            == driver.after_discard(reader.guard().fd()),
{
}

} // verus!
