use async_pty::session::{
    nonblocking_flags, resize_outcome, setup_step, slave_open_outcome, Error, SetupEvent,
    SetupState, Size,
};

const O_NONBLOCK_BITS: u32 = 0o4000;

#[test]
fn construction_runs_to_an_open_session() {
    let st = SetupState::Start;
    let st = setup_step(st, SetupEvent::PtOpened { fd: 5 });
    assert_eq!(st, SetupState::Opened { fd: 5 });
    let st = setup_step(st, SetupEvent::FlagsFetched { bits: 0o2 });
    assert_eq!(st, SetupState::FlagsKnown { fd: 5, bits: 0o2 });
    let st = setup_step(st, SetupEvent::FlagsApplied);
    assert_eq!(st, SetupState::NonBlocking { fd: 5 });
    let st = setup_step(st, SetupEvent::Registered);
    assert_eq!(st, SetupState::Open { fd: 5 });
}

#[test]
fn opener_failure_ends_construction() {
    let st = setup_step(SetupState::Start, SetupEvent::PtFailed { code: 23 });
    assert_eq!(st, SetupState::Failed { err: Error::CreatePty { code: 23 } });
}

#[test]
fn flag_query_failure_ends_construction() {
    let st = SetupState::Opened { fd: 4 };
    let st = setup_step(st, SetupEvent::FlagsFetchFailed { code: 9 });
    assert_eq!(st, SetupState::Failed { err: Error::CreatePty { code: 9 } });
}

#[test]
fn flag_apply_failure_ends_construction() {
    let st = SetupState::FlagsKnown { fd: 4, bits: 0 };
    let st = setup_step(st, SetupEvent::FlagsApplyFailed { code: 22 });
    assert_eq!(st, SetupState::Failed { err: Error::CreatePty { code: 22 } });
}

#[test]
fn registration_failure_ends_construction() {
    let st = SetupState::NonBlocking { fd: 4 };
    let st = setup_step(st, SetupEvent::RegisterFailed { code: 24 });
    assert_eq!(st, SetupState::Failed { err: Error::CreatePty { code: 24 } });
}

#[test]
fn two_constructions_yield_independent_sessions() {
    let mut a = SetupState::Start;
    let mut b = SetupState::Start;
    for ev in [
        SetupEvent::PtOpened { fd: 10 },
        SetupEvent::FlagsFetched { bits: 0 },
        SetupEvent::FlagsApplied,
        SetupEvent::Registered,
    ] {
        a = setup_step(a, ev);
    }
    for ev in [
        SetupEvent::PtOpened { fd: 11 },
        SetupEvent::FlagsFetched { bits: 0 },
        SetupEvent::FlagsApplied,
        SetupEvent::Registered,
    ] {
        b = setup_step(b, ev);
    }
    // Each session holds its own descriptor; neither construction touched
    // the other's state.
    assert_eq!(a, SetupState::Open { fd: 10 });
    assert_eq!(b, SetupState::Open { fd: 11 });
}

#[test]
fn nonblocking_flag_is_set_exactly() {
    assert_eq!(nonblocking_flags(0, O_NONBLOCK_BITS), O_NONBLOCK_BITS);
    assert_eq!(nonblocking_flags(0o100002, O_NONBLOCK_BITS), 0o104002);
}

#[test]
fn nonblocking_flags_keep_every_existing_flag() {
    let bits: u32 = 0o100002;
    let r = nonblocking_flags(bits, O_NONBLOCK_BITS);
    assert_eq!(r & bits, bits);
    assert_eq!(r & O_NONBLOCK_BITS, O_NONBLOCK_BITS);
    // Applying the flag again changes nothing.
    assert_eq!(nonblocking_flags(r, O_NONBLOCK_BITS), r);
}

#[test]
fn slave_open_success_is_success() {
    assert_eq!(slave_open_outcome(Ok(())), Ok(()));
}

#[test]
fn slave_open_failure_is_a_definitive_error() {
    // The device node is gone — the PTY was destroyed under the session: the
    // open fails at once with the OS code, it does not hang.
    assert_eq!(slave_open_outcome(Err(2)), Err(Error::CreatePty { code: 2 }));
}

#[test]
fn resize_success_is_success() {
    assert_eq!(resize_outcome(Ok(())), Ok(()));
}

#[test]
fn resize_failure_is_a_size_error() {
    assert_eq!(resize_outcome(Err(25)), Err(Error::SetTermSize { code: 25 }));
}

#[test]
fn size_without_pixels() {
    let s = Size::new(24, 80);
    assert_eq!(s, Size { rows: 24, cols: 80, xpixel: 0, ypixel: 0 });
}

#[test]
fn size_with_pixels() {
    let s = Size::new_with_pixel(50, 132, 640, 480);
    assert_eq!(s, Size { rows: 50, cols: 132, xpixel: 640, ypixel: 480 });
}
