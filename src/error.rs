use vstd::prelude::*;

verus! {

/// Why switching the virtual terminal failed.
#[derive(Debug, Clone, Copy, PartialEq, Eq, Structural)]
pub enum ErrorKind {
    /// The activate ioctl returned this positive code.
    ActivateError(i32),
    /// The wait-active ioctl returned this positive code.
    WaitActiveError(i32),
    /// Closing a descriptor failed; this masks whatever came before.
    CloseError,
    /// No access mode could open a candidate path.
    OpenConsoleError,
    /// A candidate path opened, but the descriptor is no console.
    NotAConsoleError,
    /// Neither a candidate path nor a standard descriptor is a console.
    GetFDError,
}

/// How a single `open` attempt failed.
#[derive(Debug, Clone, Copy, PartialEq, Eq, Structural)]
pub enum TryOpenError {
    /// Permission denied: a weaker access mode may still succeed.
    EACCESS,
    /// Any other failure.
    OTHER,
}

} // verus!
