//! A readable resource and the guard of its terminal, held together.

use crate::attr::Request;
use crate::guard::TtyModeGuard;
use crate::util::OsError;
use vstd::prelude::*;

verus! {

/// A resource whose terminal is in raw mode, together with the guard that
/// will put the terminal back.
///
/// The guard needs the resource's handle to do so. The two are therefore
/// taken apart in a fixed order: [`RawReader::release`] names the restoring
/// call and keeps the resource back in a [`Restoring`], which gives it up
/// only when told that the call has been made.
#[derive(Debug)]
pub struct RawReader<R> {
    inner: R,
    guard: TtyModeGuard,
}

/// What is left of a [`RawReader`] while its terminal is being put back: the
/// resource, still alive, and not to be had before the restoring call is
/// done.
#[derive(Debug)]
pub struct Restoring<R> {
    inner: R,
}

impl<R> RawReader<R> {
    /// The wrapped resource.
    pub closed spec fn inner(self) -> R {
        self.inner
    }

    /// The guard of the resource's terminal.
    pub closed spec fn guard(self) -> TtyModeGuard {
        self.guard
    }

    /// Joins `inner` to the guard of its terminal, given how the call that
    /// [`TtyModeGuard::raw_request`] named went.
    ///
    /// Where that call failed there is no reader: the error is handed on,
    /// and `inner` and the guard are dropped with the terminal as it was.
    pub fn into_raw_mode(inner: R, guard: TtyModeGuard, applied: Result<(), OsError>) -> (r: Result<
        RawReader<R>,
        OsError,
    >)
        ensures
            match applied {
                Ok(_) => r matches Ok(reader) && reader.inner() == inner && reader.guard() == guard,
                Err(e) => r == Err::<RawReader<R>, OsError>(e),
            },
    {
        let guard = guard.with_raw_mode(applied)?;
        Ok(RawReader { inner, guard })
    }

    /// Begins to take the reader apart: names the call that puts the
    /// terminal back, and keeps the resource back until that call is done.
    pub fn release(self) -> (out: (Request, Restoring<R>))
        ensures
            out.0 == self.guard().restore_request(),
            out.1.inner() == self.inner(),
    {
        let RawReader { inner, guard } = self;
        (guard.release(), Restoring { inner })
    }
}

impl<R> Restoring<R> {
    /// The resource that is kept back.
    pub closed spec fn inner(self) -> R {
        self.inner
    }

    /// Gives the resource up, to be discarded, now that the terminal has
    /// been put back. A restoring call that failed is not survivable and
    /// does not get this far.
    pub fn finish(self, restored: Result<(), OsError>) -> (inner: R)
        requires
            restored is Ok,
        ensures
            inner == self.inner(),
    {
        match restored {
            Ok(_) => self.inner,
            Err(_) => unreached(),
        }
    }
}

impl<R> core::ops::Deref for RawReader<R> {
    type Target = R;

    /// The wrapped resource itself.
    fn deref(&self) -> (r: &R)
        ensures
            *r == self.inner(),
    {
        &self.inner
    }
}

impl<R> core::ops::DerefMut for RawReader<R> {
    /// The wrapped resource itself. Whatever is done to it, the guard stays
    /// as it is.
    fn deref_mut(&mut self) -> (r: &mut R)
        ensures
            *r == old(self).inner(),
            final(self).inner() == *final(r),
            final(self).guard() == old(self).guard(),
    {
        &mut self.inner
    }
}

} // verus!
