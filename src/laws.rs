//! Whole runs against a kernel that answers every call, and what holds of
//! them.
use vstd::prelude::*;
use crate::console::{
    console_reply, locate_after, locate_measure, locate_next, locate_request, locate_start,
    open_measure, open_next, open_request, open_start, LocateStage, OpenStage, Progress,
};
use crate::error::ErrorKind;
use crate::switch::{switch_action, switch_measure, switch_next, switch_start, Action, Switch, SwitchStage};
use crate::syscall::{answers, Device, OpenMode, Reply, Request, EACCES};

verus! {

/// A kernel, as far as a run can tell: the outcome of each call.
pub type Kernel = spec_fn(Request) -> Reply;

/// The calls made while opening candidate `d` from stage `s` against `k`,
/// and the result: `None` when `k` answered a call with an outcome of
/// another kind.
pub open spec fn open_run(k: Kernel, d: Device, s: OpenStage) -> (Seq<Request>, Option<Result<i32, ErrorKind>>)
    decreases open_measure(s),
{
    let q = open_request(d, s);
    if answers(q, k(q)) {
        match open_next(s, k(q)) {
            Progress::Pending(s2) => {
                let (t, r) = open_run(k, d, s2);
                (seq![q] + t, r)
            },
            Progress::Found(fd) => (seq![q], Some(Ok(fd))),
            Progress::Failed(e) => (seq![q], Some(Err(e))),
        }
    } else {
        (seq![q], None)
    }
}

/// The calls made by the search from stage `s` against `k`, and its result.
pub open spec fn locate_run(k: Kernel, s: LocateStage) -> (Seq<Request>, Option<Result<i32, ErrorKind>>)
    decreases locate_measure(s),
{
    let q = locate_request(s);
    if answers(q, k(q)) {
        match locate_next(s, k(q)) {
            Progress::Pending(s2) => {
                let (t, r) = locate_run(k, s2);
                (seq![q] + t, r)
            },
            Progress::Found(fd) => (seq![q], Some(Ok(fd))),
            Progress::Failed(e) => (seq![q], Some(Err(e))),
        }
    } else {
        (seq![q], None)
    }
}

/// The calls made by a switch from `s` against `k`, and its result.
pub open spec fn switch_run(k: Kernel, s: Switch) -> (Seq<Request>, Option<Result<(), ErrorKind>>)
    decreases switch_measure(s),
    via switch_run_decreases
{
    match switch_action(s) {
        Action::Finish(r) => (seq![], Some(r)),
        Action::Call(q) => if answers(q, k(q)) {
            let (t, r) = switch_run(k, switch_next(s, k(q)));
            (seq![q] + t, r)
        } else {
            (seq![q], None)
        },
    }
}

/// When a candidate's read-write `open` is denied by permissions, its
/// write-only `open` succeeds and the descriptor passes the console test,
/// opening the candidate yields that descriptor after exactly those three
/// calls.
pub proof fn lemma_permission_fallback(k: Kernel, d: Device, fd: i32)
    requires
        k(Request::Open { device: d, mode: OpenMode::ReadWrite }) == (Reply::OpenFailed { errno: EACCES }),
        k(Request::Open { device: d, mode: OpenMode::WriteOnly }) == (Reply::Opened { fd }),
        k(Request::KeyboardType { fd }) matches Reply::KeyboardType { ret, kb_type } && console_reply(ret, kb_type),
    ensures
        open_run(k, d, open_start()) == (
            seq![
                Request::Open { device: d, mode: OpenMode::ReadWrite },
                Request::Open { device: d, mode: OpenMode::WriteOnly },
                Request::KeyboardType { fd },
            ],
            Some(Ok::<i32, ErrorKind>(fd)),
        ),
{
    let t3 = seq![Request::KeyboardType { fd }];
    assert(open_run(k, d, OpenStage::Probing(fd)) == (t3, Some(Ok::<i32, ErrorKind>(fd))));
    let t2 = seq![Request::Open { device: d, mode: OpenMode::WriteOnly }] + t3;
    assert(open_run(k, d, OpenStage::Opening(OpenMode::WriteOnly)) == (t2, Some(Ok::<i32, ErrorKind>(fd))));
    let t1 = seq![Request::Open { device: d, mode: OpenMode::ReadWrite }] + t2;
    assert(open_run(k, d, open_start()) == (t1, Some(Ok::<i32, ErrorKind>(fd))));
    assert(t1 =~= seq![
        Request::Open { device: d, mode: OpenMode::ReadWrite },
        Request::Open { device: d, mode: OpenMode::WriteOnly },
        Request::KeyboardType { fd },
    ]);
}

/// An `open` that fails other than by a permission denial ends the opening
/// of that candidate with `OpenConsoleError`, and no weaker mode is tried.
pub proof fn lemma_other_open_failure(k: Kernel, d: Device, mode: OpenMode, errno: i32)
    requires
        k(Request::Open { device: d, mode }) == (Reply::OpenFailed { errno }),
        errno != EACCES,
    ensures
        open_run(k, d, OpenStage::Opening(mode)) == (
            seq![Request::Open { device: d, mode }],
            Some(Err::<i32, ErrorKind>(ErrorKind::OpenConsoleError)),
        ),
{
}

/// A descriptor that fails the console test is closed next and the opening
/// ends with `NotAConsoleError`, or with `CloseError` when the close fails.
pub proof fn lemma_rejected_descriptor_closed(k: Kernel, d: Device, fd: i32)
    requires
        k(Request::KeyboardType { fd }) matches Reply::KeyboardType { ret, kb_type } && !console_reply(ret, kb_type),
        k(Request::Close { fd }) is Closed,
    ensures
        open_run(k, d, OpenStage::Probing(fd)) == (
            seq![Request::KeyboardType { fd }, Request::Close { fd }],
            Some(Err::<i32, ErrorKind>(
                if k(Request::Close { fd })->ok { ErrorKind::NotAConsoleError } else { ErrorKind::CloseError },
            )),
        ),
{
    let t2 = seq![Request::Close { fd }];
    assert(open_run(k, d, OpenStage::Discarding(fd)).0 == t2);
    assert(seq![Request::KeyboardType { fd }] + t2 =~= seq![Request::KeyboardType { fd }, Request::Close { fd }]);
}

/// The search from a candidate whose opening stands at `os`: first the
/// calls of that opening; a descriptor it yields ends the search; when it
/// fails the search goes on with the next candidate path, or with the
/// standard descriptors after `/dev/console`.
pub open spec fn locate_from(k: Kernel, d: Device, os: OpenStage) -> (Seq<Request>, Option<Result<i32, ErrorKind>>) {
    let (t, r) = open_run(k, d, os);
    match r {
        Some(Err(_)) => {
            let (t2, r2) = locate_run(k, locate_after(d));
            (t + t2, r2)
        },
        _ => (t, r),
    }
}

/// The search tries candidate paths one at a time, in the fixed order
/// `/dev/tty`, `/dev/tty0`, `/dev/vc/0`, `/dev/console`: it opens a
/// candidate, returns its descriptor on success, and otherwise moves to the
/// next; after the last it tests the standard descriptors.
pub proof fn lemma_locate_in_order(k: Kernel, d: Device, os: OpenStage)
    ensures
        locate_run(k, LocateStage::Trying(d, os)) == locate_from(k, d, os),
    decreases open_measure(os),
{
    let q = open_request(d, os);
    if answers(q, k(q)) {
        match open_next(os, k(q)) {
            Progress::Pending(os2) => {
                lemma_locate_in_order(k, d, os2);
                let (t, r) = open_run(k, d, os2);
                match r {
                    Some(Err(_)) => {
                        let t2 = locate_run(k, locate_after(d)).0;
                        assert(seq![q] + (t + t2) =~= (seq![q] + t) + t2);
                    },
                    _ => {},
                }
            },
            _ => {},
        }
    }
}

/// The calls of opening candidate `d` from its start against `k`.
pub open spec fn open_calls(k: Kernel, d: Device) -> Seq<Request> {
    open_run(k, d, open_start()).0
}

/// When every candidate path fails and none of the standard descriptors 0,
/// 1, 2 passes the console test, the search opens each path once, in
/// order, tests 0, 1 and 2 in order, and fails with `GetFDError`.
pub proof fn lemma_no_console_found(k: Kernel)
    requires
        forall|d: Device| #[trigger] open_run(k, d, open_start()).1 matches Some(Err(_)),
        forall|fd: i32|
            0 <= fd <= 2 ==> (#[trigger] k(Request::KeyboardType { fd }) matches Reply::KeyboardType { ret, kb_type } && !console_reply(ret, kb_type)),
    ensures
        locate_run(k, locate_start()) == (
            open_calls(k, Device::Tty) + open_calls(k, Device::Tty0) + open_calls(k, Device::Vc0)
                + open_calls(k, Device::Console) + seq![
                Request::KeyboardType { fd: 0 },
                Request::KeyboardType { fd: 1 },
                Request::KeyboardType { fd: 2 },
            ],
            Some(Err::<i32, ErrorKind>(ErrorKind::GetFDError)),
        ),
{
    assert(k(Request::KeyboardType { fd: 0 }) is KeyboardType);
    assert(k(Request::KeyboardType { fd: 1 }) is KeyboardType);
    assert(k(Request::KeyboardType { fd: 2 }) is KeyboardType);
    let ts = seq![Request::KeyboardType { fd: 2 }];
    assert(locate_run(k, LocateStage::Checking(2)) == (ts, Some(Err::<i32, ErrorKind>(ErrorKind::GetFDError))));
    let ts = seq![Request::KeyboardType { fd: 1 }] + ts;
    assert(locate_run(k, LocateStage::Checking(1)) == (ts, Some(Err::<i32, ErrorKind>(ErrorKind::GetFDError))));
    let ts = seq![Request::KeyboardType { fd: 0 }] + ts;
    assert(locate_run(k, LocateStage::Checking(0)) == (ts, Some(Err::<i32, ErrorKind>(ErrorKind::GetFDError))));
    assert(open_run(k, Device::Console, open_start()).1 matches Some(Err(_)));
    assert(open_run(k, Device::Vc0, open_start()).1 matches Some(Err(_)));
    assert(open_run(k, Device::Tty0, open_start()).1 matches Some(Err(_)));
    assert(open_run(k, Device::Tty, open_start()).1 matches Some(Err(_)));
    lemma_locate_in_order(k, Device::Console, open_start());
    let t4 = open_calls(k, Device::Console) + ts;
    lemma_locate_in_order(k, Device::Vc0, open_start());
    let t3 = open_calls(k, Device::Vc0) + t4;
    lemma_locate_in_order(k, Device::Tty0, open_start());
    let t2 = open_calls(k, Device::Tty0) + t3;
    lemma_locate_in_order(k, Device::Tty, open_start());
    let t1 = open_calls(k, Device::Tty) + t2;
    assert(locate_run(k, locate_start()).0 == t1);
    assert(t1 =~= open_calls(k, Device::Tty) + open_calls(k, Device::Tty0) + open_calls(k, Device::Vc0)
        + open_calls(k, Device::Console) + seq![
        Request::KeyboardType { fd: 0 },
        Request::KeyboardType { fd: 1 },
        Request::KeyboardType { fd: 2 },
    ]);
}

/// A switch first runs the search to its end; a search error ends the
/// switch with that error, and a found descriptor goes on to activation.
pub proof fn lemma_switch_locates_first(k: Kernel, vt: i32, ls: LocateStage)
    ensures
        switch_run(k, Switch { vt, stage: SwitchStage::Locating(ls) }) == ({
            let (t, r) = locate_run(k, ls);
            match r {
                Some(Ok(fd)) => {
                    let (t2, r2) = switch_run(k, Switch { vt, stage: SwitchStage::Activating(fd) });
                    (t + t2, r2)
                },
                Some(Err(e)) => (t, Some(Err(e))),
                None => (t, None),
            }
        }),
    decreases locate_measure(ls),
{
    let s = Switch { vt, stage: SwitchStage::Locating(ls) };
    let q = locate_request(ls);
    if answers(q, k(q)) {
        match locate_next(ls, k(q)) {
            Progress::Pending(ls2) => {
                lemma_locate_progress(ls, k(q));
                lemma_switch_locates_first(k, vt, ls2);
                let (t, r) = locate_run(k, ls2);
                if let Some(Ok(fd)) = r {
                    let t2 = switch_run(k, Switch { vt, stage: SwitchStage::Activating(fd) }).0;
                    assert(seq![q] + (t + t2) =~= (seq![q] + t) + t2);
                }
            },
            Progress::Found(fd) => {},
            Progress::Failed(e) => {
                assert(switch_run(k, switch_next(s, k(q))).0 =~= seq![]);
                assert(seq![q] + seq![] =~= seq![q]);
            },
        }
    }
}

/// The calls of the search from its start against `k`, and its result.
pub open spec fn search(k: Kernel) -> (Seq<Request>, Option<Result<i32, ErrorKind>>) {
    locate_run(k, locate_start())
}

/// When the activate ioctl on the found descriptor returns a positive code
/// `e`, the switch fails with `ActivateError(e)` (`CloseError` when the
/// close fails) and closes the descriptor without waiting for activation.
pub proof fn lemma_activate_failure(k: Kernel, vt: i32, fd: i32, e: i32)
    requires
        search(k).1 == Some(Ok::<i32, ErrorKind>(fd)),
        k(Request::Activate { fd, vt }) == (Reply::Returned { code: e }),
        e > 0,
        k(Request::Close { fd }) is Closed,
    ensures
        switch_run(k, switch_start(vt)) == (
            search(k).0 + seq![Request::Activate { fd, vt }, Request::Close { fd }],
            Some(Err::<(), ErrorKind>(
                if k(Request::Close { fd })->ok { ErrorKind::ActivateError(e) } else { ErrorKind::CloseError },
            )),
        ),
{
    lemma_switch_locates_first(k, vt, locate_start());
    let fail = if k(Request::Close { fd })->ok { ErrorKind::ActivateError(e) } else { ErrorKind::CloseError };
    let done = Switch { vt, stage: SwitchStage::Done { failure: Some(fail) } };
    assert(switch_run(k, done).0 =~= seq![]);
    let closing = Switch { vt, stage: SwitchStage::Closing { fd, failure: Some(ErrorKind::ActivateError(e)) } };
    assert(switch_run(k, closing).0 =~= seq![Request::Close { fd }]);
    assert(switch_run(k, Switch { vt, stage: SwitchStage::Activating(fd) }).0
        =~= seq![Request::Activate { fd, vt }, Request::Close { fd }]);
}

/// When activation succeeds and the wait-active ioctl returns a positive
/// code `e`, the switch fails with `WaitActiveError(e)` (`CloseError` when
/// the close fails), after closing the descriptor.
pub proof fn lemma_wait_active_failure(k: Kernel, vt: i32, fd: i32, e: i32)
    requires
        search(k).1 == Some(Ok::<i32, ErrorKind>(fd)),
        k(Request::Activate { fd, vt }) matches Reply::Returned { code } && code <= 0,
        k(Request::WaitActive { fd, vt }) == (Reply::Returned { code: e }),
        e > 0,
        k(Request::Close { fd }) is Closed,
    ensures
        switch_run(k, switch_start(vt)) == (
            search(k).0 + seq![Request::Activate { fd, vt }, Request::WaitActive { fd, vt }, Request::Close { fd }],
            Some(Err::<(), ErrorKind>(
                if k(Request::Close { fd })->ok { ErrorKind::WaitActiveError(e) } else { ErrorKind::CloseError },
            )),
        ),
{
    lemma_switch_locates_first(k, vt, locate_start());
    let fail = if k(Request::Close { fd })->ok { ErrorKind::WaitActiveError(e) } else { ErrorKind::CloseError };
    let done = Switch { vt, stage: SwitchStage::Done { failure: Some(fail) } };
    assert(switch_run(k, done).0 =~= seq![]);
    let closing = Switch { vt, stage: SwitchStage::Closing { fd, failure: Some(ErrorKind::WaitActiveError(e)) } };
    assert(switch_run(k, closing).0 =~= seq![Request::Close { fd }]);
    assert(switch_run(k, Switch { vt, stage: SwitchStage::Waiting(fd) }).0
        =~= seq![Request::WaitActive { fd, vt }, Request::Close { fd }]);
    assert(switch_run(k, Switch { vt, stage: SwitchStage::Activating(fd) }).0
        =~= seq![Request::Activate { fd, vt }, Request::WaitActive { fd, vt }, Request::Close { fd }]);
}

/// When activation and waiting both succeed, the switch ends with the
/// descriptor's close: `Ok` when it succeeds, and `CloseError` when it
/// fails, although the terminal was switched.
pub proof fn lemma_switch_then_close(k: Kernel, vt: i32, fd: i32)
    requires
        search(k).1 == Some(Ok::<i32, ErrorKind>(fd)),
        k(Request::Activate { fd, vt }) matches Reply::Returned { code } && code <= 0,
        k(Request::WaitActive { fd, vt }) matches Reply::Returned { code } && code <= 0,
        k(Request::Close { fd }) is Closed,
    ensures
        switch_run(k, switch_start(vt)) == (
            search(k).0 + seq![Request::Activate { fd, vt }, Request::WaitActive { fd, vt }, Request::Close { fd }],
            Some(if k(Request::Close { fd })->ok { Ok::<(), ErrorKind>(()) } else { Err(ErrorKind::CloseError) }),
        ),
{
    lemma_switch_locates_first(k, vt, locate_start());
    let fail = if k(Request::Close { fd })->ok { None } else { Some(ErrorKind::CloseError) };
    let done = Switch { vt, stage: SwitchStage::Done { failure: fail } };
    assert(switch_run(k, done).0 =~= seq![]);
    let closing = Switch { vt, stage: SwitchStage::Closing { fd, failure: None } };
    assert(switch_run(k, closing).0 =~= seq![Request::Close { fd }]);
    assert(switch_run(k, Switch { vt, stage: SwitchStage::Waiting(fd) }).0
        =~= seq![Request::WaitActive { fd, vt }, Request::Close { fd }]);
    assert(switch_run(k, Switch { vt, stage: SwitchStage::Activating(fd) }).0
        =~= seq![Request::Activate { fd, vt }, Request::WaitActive { fd, vt }, Request::Close { fd }]);
}

/// When every call succeeds (`/dev/tty` opens read-write as a console),
/// a switch makes exactly one `open`, the console test, one activate ioctl,
/// one wait-active ioctl and one `close`, in this order, and succeeds.
pub proof fn lemma_switch_succeeds(k: Kernel, vt: i32, fd: i32)
    requires
        k(Request::Open { device: Device::Tty, mode: OpenMode::ReadWrite }) == (Reply::Opened { fd }),
        k(Request::KeyboardType { fd }) matches Reply::KeyboardType { ret, kb_type } && console_reply(ret, kb_type),
        k(Request::Activate { fd, vt }) matches Reply::Returned { code } && code <= 0,
        k(Request::WaitActive { fd, vt }) matches Reply::Returned { code } && code <= 0,
        k(Request::Close { fd }) == (Reply::Closed { ok: true }),
    ensures
        switch_run(k, switch_start(vt)) == (
            seq![
                Request::Open { device: Device::Tty, mode: OpenMode::ReadWrite },
                Request::KeyboardType { fd },
                Request::Activate { fd, vt },
                Request::WaitActive { fd, vt },
                Request::Close { fd },
            ],
            Some(Ok::<(), ErrorKind>(())),
        ),
{
    let t = seq![Request::KeyboardType { fd }];
    assert(locate_run(k, LocateStage::Trying(Device::Tty, OpenStage::Probing(fd))) == (t, Some(Ok::<i32, ErrorKind>(fd))));
    let t = seq![Request::Open { device: Device::Tty, mode: OpenMode::ReadWrite }] + t;
    assert(search(k) == (t, Some(Ok::<i32, ErrorKind>(fd))));
    lemma_switch_then_close(k, vt, fd);
    assert(t + seq![Request::Activate { fd, vt }, Request::WaitActive { fd, vt }, Request::Close { fd }] =~= seq![
        Request::Open { device: Device::Tty, mode: OpenMode::ReadWrite },
        Request::KeyboardType { fd },
        Request::Activate { fd, vt },
        Request::WaitActive { fd, vt },
        Request::Close { fd },
    ]);
}

/// A switch that is closing its descriptor and runs to its end makes that
/// `close` and nothing else.
proof fn lemma_closing_ends(k: Kernel, vt: i32, fd: i32, failure: Option<ErrorKind>)
    ensures
        switch_run(k, Switch { vt, stage: SwitchStage::Closing { fd, failure } }).1 is Some ==>
            switch_run(k, Switch { vt, stage: SwitchStage::Closing { fd, failure } }).0 == seq![Request::Close { fd }],
{
    let c = Switch { vt, stage: SwitchStage::Closing { fd, failure } };
    let q = Request::Close { fd };
    if answers(q, k(q)) {
        let d = switch_next(c, k(q));
        assert(switch_run(k, d).0 =~= seq![]);
        assert(seq![q] + seq![] =~= seq![q]);
    }
}

/// From activation on, a switch that runs to its end ends by closing its
/// descriptor.
proof fn lemma_activation_closes(k: Kernel, vt: i32, fd: i32)
    ensures
        switch_run(k, Switch { vt, stage: SwitchStage::Activating(fd) }).1 is Some ==> {
            let t = switch_run(k, Switch { vt, stage: SwitchStage::Activating(fd) }).0;
            t.len() > 0 && t.last() == (Request::Close { fd })
        },
{
    let a = Switch { vt, stage: SwitchStage::Activating(fd) };
    let qa = Request::Activate { fd, vt };
    if answers(qa, k(qa)) {
        let w = switch_next(a, k(qa));
        assert(switch_run(k, a).0 == seq![qa] + switch_run(k, w).0);
        assert(switch_run(k, a).1 == switch_run(k, w).1);
        if let SwitchStage::Waiting(_) = w.stage {
            let qw = Request::WaitActive { fd, vt };
            if answers(qw, k(qw)) {
                let c = switch_next(w, k(qw));
                lemma_closing_ends(k, vt, fd, c.stage->Closing_failure);
                let tw = seq![qw] + switch_run(k, c).0;
                assert(switch_run(k, w).0 == tw);
                assert(switch_run(k, w).1 == switch_run(k, c).1);
                assert(switch_run(k, c).1 is Some ==> tw.last() == (Request::Close { fd }));
                assert((seq![qa] + tw).last() == tw.last());
            }
        } else {
            lemma_closing_ends(k, vt, fd, w.stage->Closing_failure);
            let tw = switch_run(k, w).0;
            assert((seq![qa] + tw).last() == tw.last());
        }
    }
}

/// Once the search has found a descriptor, a switch that runs to its end,
/// whatever the ioctls returned, makes `close` of that descriptor its last
/// call.
pub proof fn lemma_found_descriptor_closed(k: Kernel, vt: i32, fd: i32)
    requires
        search(k).1 == Some(Ok::<i32, ErrorKind>(fd)),
        switch_run(k, switch_start(vt)).1 is Some,
    ensures
        switch_run(k, switch_start(vt)).0.last() == (Request::Close { fd }),
{
    lemma_switch_locates_first(k, vt, locate_start());
    lemma_activation_closes(k, vt, fd);
    let t2 = switch_run(k, Switch { vt, stage: SwitchStage::Activating(fd) }).0;
    assert((search(k).0 + t2).last() == t2.last());
}

/// Each answered call of a search that goes on brings it closer to its end.
proof fn lemma_locate_progress(s: LocateStage, r: Reply)
    requires
        answers(locate_request(s), r),
        locate_next(s, r) is Pending,
    ensures
        locate_measure(locate_next(s, r)->Pending_0) < locate_measure(s),
{
    match s {
        LocateStage::Trying(d, os) => {
            match os {
                OpenStage::Opening(m) => {},
                _ => {},
            }
        },
        LocateStage::Checking(fd) => {},
    }
}

#[via_fn]
proof fn switch_run_decreases(k: Kernel, s: Switch) {
    if let SwitchStage::Locating(ls) = s.stage {
        let q = locate_request(ls);
        if answers(q, k(q)) && locate_next(ls, k(q)) is Pending {
            lemma_locate_progress(ls, k(q));
        }
    }
}

} // verus!
