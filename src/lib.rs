//! Switching the foreground Linux virtual terminal.
//!
//! The library decides; the caller performs. Every system call that a switch
//! needs (an `open`, an `ioctl`, a `close`) is described by a [`Request`]
//! that the decision functions hand out, and its outcome comes back as a
//! [`Reply`]. The decisions are verified against a transition model: which
//! device paths are tried and in which order, the access-mode fallback, the
//! console test, the activate / wait-active exchange and the closing of the
//! descriptor on every path.
use vstd::prelude::*;

pub mod error;
pub mod syscall;
pub mod console;
pub mod switch;
pub mod laws;

pub use error::{ErrorKind, TryOpenError};
pub use syscall::{Device, OpenMode, Reply, Request};
pub use console::{get_fd, is_a_console, open_a_console, try_open, LocateStage, OpenStage, Progress};
pub use switch::{Action, Switch, SwitchStage};
