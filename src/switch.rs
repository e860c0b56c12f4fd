use vstd::prelude::*;
use crate::console::{get_fd, locate_begin, locate_measure, locate_next, locate_request, locate_request_of, locate_start, LocateStage, Progress};
use crate::error::ErrorKind;
use crate::syscall::{Reply, Request};

verus! {

/// Where a switch of the foreground virtual terminal stands.
#[derive(Debug, Clone, Copy, PartialEq, Eq, Structural)]
pub enum SwitchStage {
    /// Searching for a console descriptor.
    Locating(LocateStage),
    /// Waiting for the activate ioctl on this descriptor.
    Activating(i32),
    /// Waiting for the wait-active ioctl on this descriptor.
    Waiting(i32),
    /// Waiting for the descriptor's `close`; `failure` is what went wrong
    /// before, if anything.
    Closing { fd: i32, failure: Option<ErrorKind> },
    /// Over; `failure` is the error reported, if any.
    Done { failure: Option<ErrorKind> },
}

/// One switch to virtual terminal `vt`.
///
/// The switch can block without bound in the wait-active ioctl: the kernel
/// answers only once the terminal is in the foreground. The kernel's
/// terminal subsystem is shared by all processes, and concurrent switches
/// race there; nothing here orders them.
#[derive(Debug, Clone, Copy, PartialEq, Eq, Structural)]
pub struct Switch {
    pub vt: i32,
    pub stage: SwitchStage,
}

/// What the caller is to do next: make a system call and hand its outcome
/// to [`Switch::step`], or report the result.
#[derive(Debug)]
pub enum Action {
    Call(Request),
    Finish(Result<(), ErrorKind>),
}

pub open spec fn outcome(failure: Option<ErrorKind>) -> Result<(), ErrorKind> {
    match failure {
        None => Ok(()),
        Some(e) => Err(e),
    }
}

/// A switch to `vt` starts by searching for a console descriptor.
pub open spec fn switch_start(vt: i32) -> Switch {
    Switch { vt, stage: SwitchStage::Locating(locate_start()) }
}

pub open spec fn switch_action(s: Switch) -> Action {
    match s.stage {
        SwitchStage::Locating(ls) => Action::Call(locate_request(ls)),
        SwitchStage::Activating(fd) => Action::Call(Request::Activate { fd, vt: s.vt }),
        SwitchStage::Waiting(fd) => Action::Call(Request::WaitActive { fd, vt: s.vt }),
        SwitchStage::Closing { fd, .. } => Action::Call(Request::Close { fd }),
        SwitchStage::Done { failure } => Action::Finish(outcome(failure)),
    }
}

/// How a switch goes on from `s` on `reply`. A positive return of an ioctl
/// is its failure. Once a descriptor is found it is closed before the end
/// on every path, and a failed close is reported as `CloseError` whatever
/// came before: the terminal may then have been switched all the same. A
/// reply of another kind than the stage waits for leaves it as it is.
pub open spec fn switch_next(s: Switch, reply: Reply) -> Switch {
    let stage = match (s.stage, reply) {
        (SwitchStage::Locating(ls), _) => match locate_next(ls, reply) {
            Progress::Pending(ls2) => SwitchStage::Locating(ls2),
            Progress::Found(fd) => SwitchStage::Activating(fd),
            Progress::Failed(e) => SwitchStage::Done { failure: Some(e) },
        },
        (SwitchStage::Activating(fd), Reply::Returned { code }) => if code > 0 {
            SwitchStage::Closing { fd, failure: Some(ErrorKind::ActivateError(code)) }
        } else {
            SwitchStage::Waiting(fd)
        },
        (SwitchStage::Waiting(fd), Reply::Returned { code }) => if code > 0 {
            SwitchStage::Closing { fd, failure: Some(ErrorKind::WaitActiveError(code)) }
        } else {
            SwitchStage::Closing { fd, failure: None }
        },
        (SwitchStage::Closing { fd, failure }, Reply::Closed { ok }) => if ok {
            SwitchStage::Done { failure }
        } else {
            SwitchStage::Done { failure: Some(ErrorKind::CloseError) }
        },
        _ => s.stage,
    };
    Switch { vt: s.vt, stage }
}

/// An upper bound on the calls left in a switch.
pub open spec fn switch_measure(s: Switch) -> nat {
    match s.stage {
        SwitchStage::Locating(ls) => 4 + locate_measure(ls),
        SwitchStage::Activating(_) => 3,
        SwitchStage::Waiting(_) => 2,
        SwitchStage::Closing { .. } => 1,
        SwitchStage::Done { .. } => 0,
    }
}

impl Switch {
    /// Starts a switch to virtual terminal `ttynum`. The number is not
    /// checked here: the kernel refuses one out of range, which surfaces as
    /// `ActivateError`.
    pub fn new(ttynum: i32) -> (r: Switch)
        ensures
            r == switch_start(ttynum),
    {
        Switch { vt: ttynum, stage: SwitchStage::Locating(locate_begin()) }
    }

    /// The system call to make next, or the result once the switch is over.
    pub fn next_action(&self) -> (r: Action)
        ensures
            r == switch_action(*self),
    {
        match self.stage {
            SwitchStage::Locating(ls) => Action::Call(locate_request_of(ls)),
            SwitchStage::Activating(fd) => Action::Call(Request::Activate { fd, vt: self.vt }),
            SwitchStage::Waiting(fd) => Action::Call(Request::WaitActive { fd, vt: self.vt }),
            SwitchStage::Closing { fd, .. } => Action::Call(Request::Close { fd }),
            SwitchStage::Done { failure } => Action::Finish(
                match failure {
                    None => Ok(()),
                    Some(e) => Err(e),
                },
            ),
        }
    }

    /// Takes the outcome of the call that [`Switch::next_action`] asked for.
    pub fn step(&mut self, reply: Reply)
        ensures
            *final(self) == switch_next(*old(self), reply),
    {
        let stage = match (self.stage, reply) {
            (SwitchStage::Locating(ls), _) => match get_fd(ls, reply) {
                Progress::Pending(ls2) => SwitchStage::Locating(ls2),
                Progress::Found(fd) => SwitchStage::Activating(fd),
                Progress::Failed(e) => SwitchStage::Done { failure: Some(e) },
            },
            (SwitchStage::Activating(fd), Reply::Returned { code }) => if code > 0 {
                SwitchStage::Closing { fd, failure: Some(ErrorKind::ActivateError(code)) }
            } else {
                SwitchStage::Waiting(fd)
            },
            (SwitchStage::Waiting(fd), Reply::Returned { code }) => if code > 0 {
                SwitchStage::Closing { fd, failure: Some(ErrorKind::WaitActiveError(code)) }
            } else {
                SwitchStage::Closing { fd, failure: None }
            },
            (SwitchStage::Closing { fd, failure }, Reply::Closed { ok }) => if ok {
                SwitchStage::Done { failure }
            } else {
                SwitchStage::Done { failure: Some(ErrorKind::CloseError) }
            },
            _ => self.stage,
        };
        self.stage = stage;
    }
}

} // verus!
