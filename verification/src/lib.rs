//! The decision logic of a raw-mode guard for POSIX terminals.
//!
//! Raw mode is the state of a terminal in which input arrives byte by byte,
//! is not echoed, and output is not rewritten. A program that switches a
//! terminal to raw mode has to put it back, however it leaves.
//!
//! Nothing in this crate makes a system call. Each operation either names
//! the call that the embedding program has to make next, as a
//! [`Request`], or takes in how such a call went and says what follows.
//! The module [`driver`] models the terminal driver and states what the
//! calls that the library names do to it.

pub mod attr;
pub mod driver;
pub mod guard;
pub mod reader;
pub mod util;

pub use crate::attr::{get_terminal_attr, set_terminal_attr, Request, Termios};
pub use crate::guard::TtyModeGuard;
pub use crate::reader::{RawReader, Restoring};
pub use crate::util::{convert_to_result, IsMinusOne, OsError};
