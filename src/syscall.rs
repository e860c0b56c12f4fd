use vstd::prelude::*;

verus! {

/// The keyboard-type query (`KDGKBTYPE`), used to tell a console apart.
pub const KDGKBTYPE: u64 = 0x4B33;

/// Request to make a virtual terminal the foreground one (`VT_ACTIVATE`).
pub const VT_ACTIVATE: u64 = 0x5606;

/// Request to block until a virtual terminal is active (`VT_WAITACTIVE`).
pub const VT_WAITACTIVE: u64 = 0x5607;

/// Linux's error number for "permission denied".
pub const EACCES: i32 = 13;

/// Candidate device paths.
#[derive(Debug, Clone, Copy, PartialEq, Eq, Structural)]
pub enum Device {
    Tty,
    Tty0,
    Vc0,
    Console,
}

pub open spec fn device_path(d: Device) -> Seq<char> {
    match d {
        Device::Tty => "/dev/tty"@,
        Device::Tty0 => "/dev/tty0"@,
        Device::Vc0 => "/dev/vc/0"@,
        Device::Console => "/dev/console"@,
    }
}

/// The candidate tried after `d`, if any: `/dev/tty`, `/dev/tty0`,
/// `/dev/vc/0`, `/dev/console`.
pub open spec fn device_after(d: Device) -> Option<Device> {
    match d {
        Device::Tty => Some(Device::Tty0),
        Device::Tty0 => Some(Device::Vc0),
        Device::Vc0 => Some(Device::Console),
        Device::Console => None,
    }
}

/// Position of a candidate in the order of trial.
pub open spec fn device_rank(d: Device) -> nat {
    match d {
        Device::Tty => 0,
        Device::Tty0 => 1,
        Device::Vc0 => 2,
        Device::Console => 3,
    }
}

impl Device {
    /// The filesystem path of this candidate.
    pub fn path(&self) -> (r: &'static str)
        ensures
            r@ == device_path(*self),
    {
        match self {
            Device::Tty => "/dev/tty",
            Device::Tty0 => "/dev/tty0",
            Device::Vc0 => "/dev/vc/0",
            Device::Console => "/dev/console",
        }
    }

    /// The candidate to try when this one fails.
    pub fn after(&self) -> (r: Option<Device>)
        ensures
            r == device_after(*self),
    {
        match self {
            Device::Tty => Some(Device::Tty0),
            Device::Tty0 => Some(Device::Vc0),
            Device::Vc0 => Some(Device::Console),
            Device::Console => None,
        }
    }
}

/// Access modes of `open`, strongest first.
#[derive(Debug, Clone, Copy, PartialEq, Eq, Structural)]
pub enum OpenMode {
    ReadWrite,
    WriteOnly,
    ReadOnly,
}

/// The mode tried when `m` is denied by permissions, if any.
pub open spec fn mode_after(m: OpenMode) -> Option<OpenMode> {
    match m {
        OpenMode::ReadWrite => Some(OpenMode::WriteOnly),
        OpenMode::WriteOnly => Some(OpenMode::ReadOnly),
        OpenMode::ReadOnly => None,
    }
}

impl OpenMode {
    /// The next weaker access mode.
    pub fn weaker(&self) -> (r: Option<OpenMode>)
        ensures
            r == mode_after(*self),
    {
        match self {
            OpenMode::ReadWrite => Some(OpenMode::WriteOnly),
            OpenMode::WriteOnly => Some(OpenMode::ReadOnly),
            OpenMode::ReadOnly => None,
        }
    }
}

/// A system call that the caller is asked to make.
#[derive(Debug, Clone, Copy, PartialEq, Eq, Structural)]
pub enum Request {
    /// `open` the candidate's path in this mode.
    Open { device: Device, mode: OpenMode },
    /// `ioctl(fd, KDGKBTYPE, &mut kb_type)`.
    KeyboardType { fd: i32 },
    /// `ioctl(fd, VT_ACTIVATE, vt)`.
    Activate { fd: i32, vt: i32 },
    /// `ioctl(fd, VT_WAITACTIVE, vt)`.
    WaitActive { fd: i32, vt: i32 },
    /// `close(fd)`.
    Close { fd: i32 },
}

/// The outcome of a system call.
#[derive(Debug, Clone, Copy, PartialEq, Eq, Structural)]
pub enum Reply {
    /// `open` gave this descriptor.
    Opened { fd: i32 },
    /// `open` failed with this error number.
    OpenFailed { errno: i32 },
    /// The keyboard-type query returned `ret` and wrote `kb_type`.
    KeyboardType { ret: i32, kb_type: u8 },
    /// An activate or wait-active ioctl returned `code`.
    Returned { code: i32 },
    /// `close` succeeded (`ok`) or failed.
    Closed { ok: bool },
}

/// Whether `r` is the kind of outcome that the call `q` has.
pub open spec fn answers(q: Request, r: Reply) -> bool {
    match q {
        Request::Open { .. } => r is Opened || r is OpenFailed,
        Request::KeyboardType { .. } => r is KeyboardType,
        Request::Activate { .. } => r is Returned,
        Request::WaitActive { .. } => r is Returned,
        Request::Close { .. } => r is Closed,
    }
}

} // verus!
