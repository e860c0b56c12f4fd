use vstd::prelude::*;
use crate::error::{ErrorKind, TryOpenError};
use crate::syscall::{mode_after, device_after, device_rank, Device, OpenMode, Reply, Request, EACCES};

verus! {

/// Keyboard-type code of an "84-key" console keyboard.
pub const KB_84: u8 = 0x01;

/// Keyboard-type code of a "101-key" console keyboard.
pub const KB_101: u8 = 0x02;

/// A descriptor is a console when the keyboard-type query returned 0 and
/// reported one of the two console keyboard types.
pub open spec fn console_reply(ret: i32, kb_type: u8) -> bool {
    ret == 0 && (kb_type == KB_84 || kb_type == KB_101)
}

/// Decides from the keyboard-type query's return value `ret` and the
/// keyboard type it wrote whether the descriptor is a virtual console.
pub fn is_a_console(ret: i32, kb_type: u8) -> (r: bool)
    ensures
        r == console_reply(ret, kb_type),
{
    ret == 0 && (kb_type == KB_101 || kb_type == KB_84)
}

/// What one `open` attempt means for the fallback chain.
pub open spec fn open_attempt(opened: Result<i32, i32>) -> Result<i32, TryOpenError> {
    match opened {
        Ok(fd) => Ok(fd),
        Err(errno) => if errno == EACCES {
            Err(TryOpenError::EACCESS)
        } else {
            Err(TryOpenError::OTHER)
        },
    }
}

/// Classifies the outcome of `open` (a descriptor, or an error number):
/// permission denied is told apart from every other failure.
pub fn try_open(opened: Result<i32, i32>) -> (r: Result<i32, TryOpenError>)
    ensures
        r == open_attempt(opened),
{
    match opened {
        Ok(fd) => Ok(fd),
        Err(errno) => if errno == EACCES {
            Err(TryOpenError::EACCESS)
        } else {
            Err(TryOpenError::OTHER)
        },
    }
}

/// Where opening one candidate path stands.
#[derive(Debug, Clone, Copy, PartialEq, Eq, Structural)]
pub enum OpenStage {
    /// Waiting for `open` in this mode.
    Opening(OpenMode),
    /// The path opened as this descriptor; waiting for the console test.
    Probing(i32),
    /// This descriptor is no console; waiting for its `close`.
    Discarding(i32),
}

/// A decision step either goes on in a new stage, or ends with a descriptor,
/// or ends with an error.
#[derive(Debug, PartialEq, Eq, Structural)]
pub enum Progress<S> {
    Pending(S),
    Found(i32),
    Failed(ErrorKind),
}

/// The first stage of opening a candidate path.
pub open spec fn open_start() -> OpenStage {
    OpenStage::Opening(OpenMode::ReadWrite)
}

/// The call that stage `s` waits for, on candidate `d`.
pub open spec fn open_request(d: Device, s: OpenStage) -> Request {
    match s {
        OpenStage::Opening(mode) => Request::Open { device: d, mode },
        OpenStage::Probing(fd) => Request::KeyboardType { fd },
        OpenStage::Discarding(fd) => Request::Close { fd },
    }
}

/// How opening goes on after `open` in `mode` gave `opened`: a descriptor
/// is tested next; permission denied moves to the next weaker mode while
/// there is one; anything else ends the chain.
pub open spec fn open_outcome(mode: OpenMode, opened: Result<i32, i32>) -> Progress<OpenStage> {
    match open_attempt(opened) {
        Ok(fd) => Progress::Pending(OpenStage::Probing(fd)),
        Err(TryOpenError::EACCESS) => match mode_after(mode) {
            Some(weaker) => Progress::Pending(OpenStage::Opening(weaker)),
            None => Progress::Failed(ErrorKind::OpenConsoleError),
        },
        Err(TryOpenError::OTHER) => Progress::Failed(ErrorKind::OpenConsoleError),
    }
}

/// How opening a candidate path goes on from stage `s` on `reply`. A reply
/// of another kind than the stage waits for leaves the stage as it is.
pub open spec fn open_next(s: OpenStage, reply: Reply) -> Progress<OpenStage> {
    match (s, reply) {
        (OpenStage::Opening(mode), Reply::Opened { fd }) => open_outcome(mode, Ok(fd)),
        (OpenStage::Opening(mode), Reply::OpenFailed { errno }) => open_outcome(mode, Err(errno)),
        (OpenStage::Probing(fd), Reply::KeyboardType { ret, kb_type }) => if console_reply(ret, kb_type) {
            Progress::Found(fd)
        } else {
            Progress::Pending(OpenStage::Discarding(fd))
        },
        (OpenStage::Discarding(fd), Reply::Closed { ok }) => if ok {
            Progress::Failed(ErrorKind::NotAConsoleError)
        } else {
            Progress::Failed(ErrorKind::CloseError)
        },
        _ => Progress::Pending(s),
    }
}

/// An upper bound on the calls left in opening a candidate path.
pub open spec fn open_measure(s: OpenStage) -> nat {
    match s {
        OpenStage::Opening(OpenMode::ReadWrite) => 4,
        OpenStage::Opening(OpenMode::WriteOnly) => 3,
        OpenStage::Opening(OpenMode::ReadOnly) => 2,
        OpenStage::Probing(_) => 1,
        OpenStage::Discarding(_) => 0,
    }
}

/// The call that opening candidate `device` waits for in stage `stage`.
pub fn open_request_of(device: Device, stage: OpenStage) -> (r: Request)
    ensures
        r == open_request(device, stage),
{
    match stage {
        OpenStage::Opening(mode) => Request::Open { device, mode },
        OpenStage::Probing(fd) => Request::KeyboardType { fd },
        OpenStage::Discarding(fd) => Request::Close { fd },
    }
}

/// The stage after `open` in `mode` gave `opened` (a descriptor or an
/// error number).
pub fn after_open(mode: OpenMode, opened: Result<i32, i32>) -> (r: Progress<OpenStage>)
    ensures
        r == open_outcome(mode, opened),
{
    match try_open(opened) {
        Ok(fd) => Progress::Pending(OpenStage::Probing(fd)),
        Err(TryOpenError::EACCESS) => match mode.weaker() {
            Some(weaker) => Progress::Pending(OpenStage::Opening(weaker)),
            None => Progress::Failed(ErrorKind::OpenConsoleError),
        },
        Err(TryOpenError::OTHER) => Progress::Failed(ErrorKind::OpenConsoleError),
    }
}

/// Opening a console path, one reply at a time: `open` read-write, then
/// write-only, then read-only, each only after permission was denied; any
/// other failure ends the chain with `OpenConsoleError`. An opened
/// descriptor must pass the console test, or it is closed and the result is
/// `NotAConsoleError` (`CloseError` when that close fails).
pub fn open_a_console(stage: OpenStage, reply: Reply) -> (r: Progress<OpenStage>)
    ensures
        r == open_next(stage, reply),
{
    match (stage, reply) {
        (OpenStage::Opening(mode), Reply::Opened { fd }) => after_open(mode, Ok(fd)),
        (OpenStage::Opening(mode), Reply::OpenFailed { errno }) => after_open(mode, Err(errno)),
        (OpenStage::Probing(fd), Reply::KeyboardType { ret, kb_type }) => if is_a_console(ret, kb_type) {
            Progress::Found(fd)
        } else {
            Progress::Pending(OpenStage::Discarding(fd))
        },
        (OpenStage::Discarding(fd), Reply::Closed { ok }) => if ok {
            Progress::Failed(ErrorKind::NotAConsoleError)
        } else {
            Progress::Failed(ErrorKind::CloseError)
        },
        _ => Progress::Pending(stage),
    }
}

/// Where the search for a console descriptor stands.
#[derive(Debug, Clone, Copy, PartialEq, Eq, Structural)]
pub enum LocateStage {
    /// Opening this candidate path.
    Trying(Device, OpenStage),
    /// Every path failed; testing the standard descriptor `fd` (0, 1, 2).
    Checking(i32),
}

/// The search starts with `/dev/tty`, read-write.
pub open spec fn locate_start() -> LocateStage {
    LocateStage::Trying(Device::Tty, open_start())
}

/// Where the search goes after candidate `d` failed.
pub open spec fn locate_after(d: Device) -> LocateStage {
    match device_after(d) {
        Some(next) => LocateStage::Trying(next, open_start()),
        None => LocateStage::Checking(0),
    }
}

/// The call that stage `s` of the search waits for.
pub open spec fn locate_request(s: LocateStage) -> Request {
    match s {
        LocateStage::Trying(d, os) => open_request(d, os),
        LocateStage::Checking(fd) => Request::KeyboardType { fd },
    }
}

/// How the search goes on from stage `s` on `reply`. A reply of another
/// kind than the stage waits for leaves the stage as it is.
pub open spec fn locate_next(s: LocateStage, reply: Reply) -> Progress<LocateStage> {
    match s {
        LocateStage::Trying(d, os) => match open_next(os, reply) {
            Progress::Pending(os2) => Progress::Pending(LocateStage::Trying(d, os2)),
            Progress::Found(fd) => Progress::Found(fd),
            Progress::Failed(_) => Progress::Pending(locate_after(d)),
        },
        LocateStage::Checking(fd) => match reply {
            Reply::KeyboardType { ret, kb_type } => if console_reply(ret, kb_type) {
                Progress::Found(fd)
            } else if fd < 2 {
                Progress::Pending(LocateStage::Checking((fd + 1) as i32))
            } else {
                Progress::Failed(ErrorKind::GetFDError)
            },
            _ => Progress::Pending(s),
        },
    }
}

/// An upper bound on the calls left in the search.
pub open spec fn locate_measure(s: LocateStage) -> nat {
    match s {
        LocateStage::Trying(d, os) => 3 + 5 * (3 - device_rank(d)) as nat + open_measure(os),
        LocateStage::Checking(fd) => if fd <= 2 { (2 - fd) as nat } else { 0 },
    }
}

/// The first stage of the search.
pub fn locate_begin() -> (r: LocateStage)
    ensures
        r == locate_start(),
{
    LocateStage::Trying(Device::Tty, OpenStage::Opening(OpenMode::ReadWrite))
}

/// The call that stage `stage` of the search waits for.
pub fn locate_request_of(stage: LocateStage) -> (r: Request)
    ensures
        r == locate_request(stage),
{
    match stage {
        LocateStage::Trying(d, os) => open_request_of(d, os),
        LocateStage::Checking(fd) => Request::KeyboardType { fd },
    }
}

/// Searching for a console descriptor, one reply at a time: the candidate
/// paths `/dev/tty`, `/dev/tty0`, `/dev/vc/0`, `/dev/console` are opened in
/// this order, each once, and the first that yields a console wins. When all
/// fail, the standard descriptors 0, 1, 2 are tested in this order, without
/// opening anything; when none is a console the search ends with
/// `GetFDError`.
pub fn get_fd(stage: LocateStage, reply: Reply) -> (r: Progress<LocateStage>)
    ensures
        r == locate_next(stage, reply),
{
    match stage {
        LocateStage::Trying(d, os) => match open_a_console(os, reply) {
            Progress::Pending(os2) => Progress::Pending(LocateStage::Trying(d, os2)),
            Progress::Found(fd) => Progress::Found(fd),
            Progress::Failed(_) => match d.after() {
                Some(next) => Progress::Pending(LocateStage::Trying(next, OpenStage::Opening(OpenMode::ReadWrite))),
                None => Progress::Pending(LocateStage::Checking(0)),
            },
        },
        LocateStage::Checking(fd) => match reply {
            Reply::KeyboardType { ret, kb_type } => if is_a_console(ret, kb_type) {
                Progress::Found(fd)
            } else if fd < 2 {
                Progress::Pending(LocateStage::Checking(fd + 1))
            } else {
                Progress::Failed(ErrorKind::GetFDError)
            },
            _ => Progress::Pending(stage),
        },
    }
}

} // verus!
