use chvt::console::{KB_101, KB_84};
use chvt::syscall::{EACCES, KDGKBTYPE, VT_ACTIVATE, VT_WAITACTIVE};
use chvt::{
    get_fd, is_a_console, open_a_console, try_open, Action, Device, ErrorKind, LocateStage, OpenMode, OpenStage,
    Progress, Reply, Request, Switch, TryOpenError,
};

const ENOENT: i32 = 2;
const ENOTTY: i32 = 25;

/// Runs a switch to `vt` against `kernel`, returning the calls made and the result.
fn drive(vt: i32, mut kernel: impl FnMut(&Request) -> Reply) -> (Vec<Request>, Result<(), ErrorKind>) {
    let mut sw = Switch::new(vt);
    let mut calls = Vec::new();
    loop {
        match sw.next_action() {
            Action::Call(q) => {
                calls.push(q);
                assert!(calls.len() < 100, "the switch does not end");
                let r = kernel(&q);
                sw.step(r);
            }
            Action::Finish(r) => return (calls, r),
        }
    }
}

fn console(_fd: i32) -> Reply {
    Reply::KeyboardType { ret: 0, kb_type: KB_101 }
}

fn not_console() -> Reply {
    Reply::KeyboardType { ret: -1, kb_type: 0 }
}

/// A kernel where `/dev/tty` opens read-write as descriptor 3, a console, and
/// every ioctl and close succeeds; `activate`, `wait` and `close_ok` override.
fn kernel(activate: i32, wait: i32, close_ok: bool) -> impl FnMut(&Request) -> Reply {
    move |q: &Request| match *q {
        Request::Open { device: Device::Tty, mode: OpenMode::ReadWrite } => Reply::Opened { fd: 3 },
        Request::Open { .. } => Reply::OpenFailed { errno: ENOENT },
        Request::KeyboardType { fd } => if fd == 3 { console(fd) } else { not_console() },
        Request::Activate { .. } => Reply::Returned { code: activate },
        Request::WaitActive { .. } => Reply::Returned { code: wait },
        Request::Close { .. } => Reply::Closed { ok: close_ok },
    }
}

#[test]
fn request_codes() {
    assert_eq!(KDGKBTYPE, 0x4B33);
    assert_eq!(VT_ACTIVATE, 0x5606);
    assert_eq!(VT_WAITACTIVE, 0x5607);
    assert_eq!(KB_84, 0x01);
    assert_eq!(KB_101, 0x02);
}

#[test]
fn console_keyboard_types_accepted() {
    assert!(is_a_console(0, 0x01));
    assert!(is_a_console(0, 0x02));
}

#[test]
fn other_keyboard_types_or_failed_query_rejected() {
    assert!(!is_a_console(0, 0x00));
    assert!(!is_a_console(0, 0x03));
    assert!(!is_a_console(0, 0xFF));
    assert!(!is_a_console(-1, 0x01));
    assert!(!is_a_console(-1, 0x02));
    assert!(!is_a_console(1, 0x02));
}

#[test]
fn try_open_classifies_errors() {
    assert_eq!(try_open(Ok(4)), Ok(4));
    assert_eq!(try_open(Err(EACCES)), Err(TryOpenError::EACCESS));
    assert_eq!(try_open(Err(ENOENT)), Err(TryOpenError::OTHER));
    assert_eq!(EACCES, 13);
}

#[test]
fn device_paths() {
    assert_eq!(Device::Tty.path(), "/dev/tty");
    assert_eq!(Device::Tty0.path(), "/dev/tty0");
    assert_eq!(Device::Vc0.path(), "/dev/vc/0");
    assert_eq!(Device::Console.path(), "/dev/console");
    assert_eq!(Device::Tty.after(), Some(Device::Tty0));
    assert_eq!(Device::Console.after(), None);
    assert_eq!(OpenMode::ReadWrite.weaker(), Some(OpenMode::WriteOnly));
    assert_eq!(OpenMode::WriteOnly.weaker(), Some(OpenMode::ReadOnly));
    assert_eq!(OpenMode::ReadOnly.weaker(), None);
}

#[test]
fn permission_fallback_to_write_only() {
    let s = OpenStage::Opening(OpenMode::ReadWrite);
    let s = match open_a_console(s, Reply::OpenFailed { errno: EACCES }) {
        Progress::Pending(s) => s,
        other => panic!("unexpected {:?}", other),
    };
    assert_eq!(s, OpenStage::Opening(OpenMode::WriteOnly));
    let s = match open_a_console(s, Reply::Opened { fd: 5 }) {
        Progress::Pending(s) => s,
        other => panic!("unexpected {:?}", other),
    };
    assert_eq!(s, OpenStage::Probing(5));
    assert_eq!(open_a_console(s, console(5)), Progress::Found(5));
}

#[test]
fn permission_denied_in_every_mode() {
    let s = OpenStage::Opening(OpenMode::ReadOnly);
    assert_eq!(
        open_a_console(s, Reply::OpenFailed { errno: EACCES }),
        Progress::Failed(ErrorKind::OpenConsoleError)
    );
}

#[test]
fn other_open_failure_stops_the_chain() {
    let s = OpenStage::Opening(OpenMode::ReadWrite);
    assert_eq!(
        open_a_console(s, Reply::OpenFailed { errno: ENOENT }),
        Progress::Failed(ErrorKind::OpenConsoleError)
    );
}

#[test]
fn rejected_descriptor_is_closed() {
    let s = OpenStage::Probing(6);
    let s = match open_a_console(s, not_console()) {
        Progress::Pending(s) => s,
        other => panic!("unexpected {:?}", other),
    };
    assert_eq!(s, OpenStage::Discarding(6));
    assert_eq!(open_a_console(s, Reply::Closed { ok: true }), Progress::Failed(ErrorKind::NotAConsoleError));
    assert_eq!(open_a_console(s, Reply::Closed { ok: false }), Progress::Failed(ErrorKind::CloseError));
}

#[test]
fn rejected_descriptor_does_not_leak() {
    let mut open_fds: Vec<i32> = Vec::new();
    let mut next_fd = 10;
    let (calls, r) = drive(2, |q| match *q {
        Request::Open { .. } => {
            next_fd += 1;
            open_fds.push(next_fd);
            Reply::Opened { fd: next_fd }
        }
        Request::KeyboardType { .. } => not_console(),
        Request::Close { fd } => {
            open_fds.retain(|&f| f != fd);
            Reply::Closed { ok: true }
        }
        _ => Reply::Returned { code: 0 },
    });
    assert_eq!(r, Err(ErrorKind::GetFDError));
    assert!(open_fds.is_empty());
    let opens = calls.iter().filter(|q| matches!(q, Request::Open { .. })).count();
    let closes = calls.iter().filter(|q| matches!(q, Request::Close { .. })).count();
    assert_eq!(opens, 4);
    assert_eq!(closes, 4);
}

#[test]
fn mismatched_reply_leaves_stage() {
    let s = OpenStage::Opening(OpenMode::ReadWrite);
    assert_eq!(open_a_console(s, Reply::Closed { ok: true }), Progress::Pending(s));
    let mut sw = Switch::new(4);
    let before = sw;
    sw.step(Reply::Returned { code: 0 });
    assert_eq!(sw, before);
}

#[test]
fn candidates_in_order_then_standard_descriptors() {
    let (calls, r) = drive(3, |q| match *q {
        Request::Open { .. } => Reply::OpenFailed { errno: ENOENT },
        Request::KeyboardType { .. } => Reply::KeyboardType { ret: -1, kb_type: 0 },
        _ => Reply::Closed { ok: true },
    });
    assert_eq!(r, Err(ErrorKind::GetFDError));
    assert_eq!(
        calls,
        vec![
            Request::Open { device: Device::Tty, mode: OpenMode::ReadWrite },
            Request::Open { device: Device::Tty0, mode: OpenMode::ReadWrite },
            Request::Open { device: Device::Vc0, mode: OpenMode::ReadWrite },
            Request::Open { device: Device::Console, mode: OpenMode::ReadWrite },
            Request::KeyboardType { fd: 0 },
            Request::KeyboardType { fd: 1 },
            Request::KeyboardType { fd: 2 },
        ]
    );
}

#[test]
fn each_path_tried_at_most_once() {
    let (calls, _) = drive(3, |q| match *q {
        Request::Open { .. } => Reply::OpenFailed { errno: EACCES },
        Request::KeyboardType { .. } => not_console(),
        _ => Reply::Closed { ok: true },
    });
    for d in [Device::Tty, Device::Tty0, Device::Vc0, Device::Console] {
        for m in [OpenMode::ReadWrite, OpenMode::WriteOnly, OpenMode::ReadOnly] {
            let n = calls.iter().filter(|q| **q == Request::Open { device: d, mode: m }).count();
            assert_eq!(n, 1);
        }
    }
    assert_eq!(calls.len(), 12 + 3);
}

#[test]
fn first_working_candidate_wins() {
    let (calls, r) = drive(7, |q| match *q {
        Request::Open { device: Device::Vc0, .. } => Reply::Opened { fd: 9 },
        Request::Open { .. } => Reply::OpenFailed { errno: ENOENT },
        Request::KeyboardType { fd } => console(fd),
        Request::Close { .. } => Reply::Closed { ok: true },
        _ => Reply::Returned { code: 0 },
    });
    assert_eq!(r, Ok(()));
    assert_eq!(calls[2], Request::Open { device: Device::Vc0, mode: OpenMode::ReadWrite });
    assert_eq!(calls[3], Request::KeyboardType { fd: 9 });
    assert_eq!(calls[4], Request::Activate { fd: 9, vt: 7 });
}

#[test]
fn standard_descriptor_used_when_paths_fail() {
    let mut s = LocateStage::Checking(0);
    s = match get_fd(s, not_console()) {
        Progress::Pending(s) => s,
        other => panic!("unexpected {:?}", other),
    };
    assert_eq!(s, LocateStage::Checking(1));
    assert_eq!(get_fd(s, Reply::KeyboardType { ret: 0, kb_type: KB_84 }), Progress::Found(1));
    assert_eq!(get_fd(LocateStage::Checking(2), not_console()), Progress::Failed(ErrorKind::GetFDError));
}

#[test]
fn activate_failure_reported_without_waiting() {
    let (calls, r) = drive(5, kernel(22, 0, true));
    assert_eq!(r, Err(ErrorKind::ActivateError(22)));
    assert!(!calls.iter().any(|q| matches!(q, Request::WaitActive { .. })));
    assert_eq!(calls.last(), Some(&Request::Close { fd: 3 }));
}

#[test]
fn wait_active_failure_reported() {
    let (calls, r) = drive(5, kernel(0, 4, true));
    assert_eq!(r, Err(ErrorKind::WaitActiveError(4)));
    assert_eq!(calls.last(), Some(&Request::Close { fd: 3 }));
}

#[test]
fn close_failure_after_switch_reported() {
    let (calls, r) = drive(5, kernel(0, 0, false));
    assert_eq!(r, Err(ErrorKind::CloseError));
    assert_eq!(calls.len(), 5);
}

#[test]
fn close_failure_masks_activate_failure() {
    let (_, r) = drive(5, kernel(9, 0, false));
    assert_eq!(r, Err(ErrorKind::CloseError));
}

#[test]
fn negative_ioctl_return_is_no_failure() {
    let (_, r) = drive(5, kernel(-1, -1, true));
    assert_eq!(r, Ok(()));
}

#[test]
fn switch_to_five_succeeds() {
    let (calls, r) = drive(5, kernel(0, 0, true));
    assert_eq!(r, Ok(()));
    assert_eq!(
        calls,
        vec![
            Request::Open { device: Device::Tty, mode: OpenMode::ReadWrite },
            Request::KeyboardType { fd: 3 },
            Request::Activate { fd: 3, vt: 5 },
            Request::WaitActive { fd: 3, vt: 5 },
            Request::Close { fd: 3 },
        ]
    );
}

#[test]
fn get_fd_failure_propagated() {
    let (calls, r) = drive(1, |q| match *q {
        Request::Open { .. } => Reply::OpenFailed { errno: ENOTTY },
        _ => not_console(),
    });
    assert_eq!(r, Err(ErrorKind::GetFDError));
    assert!(!calls.iter().any(|q| matches!(q, Request::Activate { .. } | Request::Close { .. })));
}
