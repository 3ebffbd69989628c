//! The PTY session's lifecycle: construction, slave-handle acquisition and
//! terminal resizing.
//!
//! Construction is a fixed sequence of OS steps — open the master side, read
//! its flag set, apply the non-blocking variant, register the descriptor with
//! the reactor — each of which may fail. The OS calls happen outside this
//! crate; which step comes next, what flag set is applied, and which error
//! surfaces when a step fails, are decided here.

use vstd::prelude::*;

verus! {

/// How a lifecycle operation fails: each OS failure is definitive and is
/// surfaced with its raw OS error code, classified by the operation that
/// made it.
#[derive(Clone, Copy, Debug, PartialEq, Eq)]
pub enum Error {
    /// Creating or configuring the PTY pair failed, opening the slave side
    /// included.
    CreatePty { code: i32 },
    /// Applying a terminal size failed.
    SetTermSize { code: i32 },
}

/// A terminal size: rows and columns, with optional pixel dimensions. The
/// value is forwarded to the OS as it stands, never stored by the session.
#[derive(Clone, Copy, Debug, PartialEq, Eq)]
pub struct Size {
    pub rows: u16,
    pub cols: u16,
    pub xpixel: u16,
    pub ypixel: u16,
}

impl Size {
    /// A size of the given rows and columns, with no pixel dimensions.
    pub fn new(rows: u16, cols: u16) -> (s: Size)
        ensures
            s == (Size { rows, cols, xpixel: 0, ypixel: 0 }),
    {
        Size { rows, cols, xpixel: 0, ypixel: 0 }
    }

    /// A size of the given rows and columns and the given pixel dimensions.
    pub fn new_with_pixel(rows: u16, cols: u16, xpixel: u16, ypixel: u16) -> (s: Size)
        ensures
            s == (Size { rows, cols, xpixel, ypixel }),
    {
        Size { rows, cols, xpixel, ypixel }
    }
}

/// Where session construction stands.
#[derive(Clone, Copy, Debug, PartialEq, Eq)]
pub enum SetupState {
    /// Nothing acquired yet.
    Start,
    /// The master descriptor is open; its flag set is not yet known.
    Opened { fd: i32 },
    /// The flag set was read; its non-blocking variant must now be applied.
    FlagsKnown { fd: i32, bits: u32 },
    /// The descriptor is non-blocking; it must now be registered with the
    /// reactor.
    NonBlocking { fd: i32 },
    /// The session is open: a registered, non-blocking master descriptor.
    Open { fd: i32 },
    /// Construction failed; no session exists.
    Failed { err: Error },
}

/// The outcome of one OS step of construction, handed back by the caller.
#[derive(Clone, Copy, Debug, PartialEq, Eq)]
pub enum SetupEvent {
    /// The PTY opener returned the master descriptor (the slave path it also
    /// returns stays with the caller).
    PtOpened { fd: i32 },
    /// The PTY opener failed.
    PtFailed { code: i32 },
    /// The flag query returned the descriptor's current flag bits.
    FlagsFetched { bits: u32 },
    /// The flag query failed.
    FlagsFetchFailed { code: i32 },
    /// The updated flag set was applied to the descriptor.
    FlagsApplied,
    /// Applying the updated flag set failed.
    FlagsApplyFailed { code: i32 },
    /// The reactor accepted the descriptor.
    Registered,
    /// Registering with the reactor failed.
    RegisterFailed { code: i32 },
}

/// Which outcomes belong to which stage: each stage of construction awaits
/// the outcome of exactly one OS call. Registration in particular is only
/// awaited once the descriptor is non-blocking — on a blocking descriptor
/// the stream's would-block retries would block the whole event loop.
pub open spec fn setup_expects(st: SetupState, ev: SetupEvent) -> bool {
    match ev {
        SetupEvent::PtOpened { .. } => st is Start,
        SetupEvent::PtFailed { .. } => st is Start,
        SetupEvent::FlagsFetched { .. } => st is Opened,
        SetupEvent::FlagsFetchFailed { .. } => st is Opened,
        SetupEvent::FlagsApplied => st is FlagsKnown,
        SetupEvent::FlagsApplyFailed { .. } => st is FlagsKnown,
        SetupEvent::Registered => st is NonBlocking,
        SetupEvent::RegisterFailed { .. } => st is NonBlocking,
    }
}

/// Construction's transition: a successful outcome moves to the next stage,
/// carrying the descriptor through; any failed outcome ends construction
/// with a PTY-creation error holding that step's OS error code.
pub open spec fn setup_step_spec(st: SetupState, ev: SetupEvent) -> SetupState {
    match (st, ev) {
        (SetupState::Start, SetupEvent::PtOpened { fd }) => SetupState::Opened { fd },
        (SetupState::Opened { fd }, SetupEvent::FlagsFetched { bits }) => SetupState::FlagsKnown {
            fd,
            bits,
        },
        (SetupState::FlagsKnown { fd, .. }, SetupEvent::FlagsApplied) => SetupState::NonBlocking {
            fd,
        },
        (SetupState::NonBlocking { fd }, SetupEvent::Registered) => SetupState::Open { fd },
        (_, SetupEvent::PtFailed { code }) => SetupState::Failed {
            err: Error::CreatePty { code },
        },
        (_, SetupEvent::FlagsFetchFailed { code }) => SetupState::Failed {
            err: Error::CreatePty { code },
        },
        (_, SetupEvent::FlagsApplyFailed { code }) => SetupState::Failed {
            err: Error::CreatePty { code },
        },
        (_, SetupEvent::RegisterFailed { code }) => SetupState::Failed {
            err: Error::CreatePty { code },
        },
        (_, _) => st,
    }
}

/// Advance construction by the outcome of the OS call its stage awaited.
pub fn setup_step(st: SetupState, ev: SetupEvent) -> (next: SetupState)
    requires
        setup_expects(st, ev),
    ensures
        next == setup_step_spec(st, ev),
{
    match (st, ev) {
        (SetupState::Start, SetupEvent::PtOpened { fd }) => SetupState::Opened { fd },
        (SetupState::Opened { fd }, SetupEvent::FlagsFetched { bits }) => SetupState::FlagsKnown {
            fd,
            bits,
        },
        (SetupState::FlagsKnown { fd, .. }, SetupEvent::FlagsApplied) => SetupState::NonBlocking {
            fd,
        },
        (SetupState::NonBlocking { fd }, SetupEvent::Registered) => SetupState::Open { fd },
        (_, SetupEvent::PtFailed { code }) => SetupState::Failed {
            err: Error::CreatePty { code },
        },
        (_, SetupEvent::FlagsFetchFailed { code }) => SetupState::Failed {
            err: Error::CreatePty { code },
        },
        (_, SetupEvent::FlagsApplyFailed { code }) => SetupState::Failed {
            err: Error::CreatePty { code },
        },
        (_, SetupEvent::RegisterFailed { code }) => SetupState::Failed {
            err: Error::CreatePty { code },
        },
        (_, _) => st,
    }
}

/// Whatever stage an OS call fails at, construction ends with a PTY-creation
/// error — never a size error, which only resizing can produce.
pub proof fn lemma_setup_failure_is_create_pty(st: SetupState, ev: SetupEvent)
    requires
        setup_expects(st, ev),
    ensures
        setup_step_spec(st, ev) matches SetupState::Failed { err } ==> err is CreatePty,
{
}

/// The descriptor is made non-blocking before the reactor sees it: a stage
/// can only await registration once the non-blocking flag set was applied,
/// and only applying it reaches that stage.
pub proof fn lemma_nonblocking_before_registration(st: SetupState, ev: SetupEvent)
    ensures
        setup_expects(st, SetupEvent::Registered) ==> st is NonBlocking,
        setup_step_spec(st, ev) is NonBlocking && setup_expects(st, ev) ==> ev
            == SetupEvent::FlagsApplied,
{
}

/// The state a whole run of construction outcomes leaves behind.
pub open spec fn setup_run(st: SetupState, evs: Seq<SetupEvent>) -> SetupState
    decreases evs.len(),
{
    if evs.len() == 0 {
        st
    } else {
        setup_run(setup_step_spec(st, evs[0]), evs.drop_first())
    }
}

/// A run of outcomes in which each one belongs to the stage that awaited it.
pub open spec fn setup_wellformed(st: SetupState, evs: Seq<SetupEvent>) -> bool
    decreases evs.len(),
{
    evs.len() == 0 || (setup_expects(st, evs[0]) && setup_wellformed(
        setup_step_spec(st, evs[0]),
        evs.drop_first(),
    ))
}

/// Failure is terminal: no further outcome belongs to a failed
/// construction, so a failed construction stays failed.
proof fn lemma_failed_is_terminal(st: SetupState, evs: Seq<SetupEvent>)
    requires
        st is Failed,
        setup_wellformed(st, evs),
    ensures
        setup_run(st, evs) == st,
{
    if evs.len() > 0 {
        assert(!setup_expects(st, evs[0]));
    }
}

/// Stages before the flag set is applied reach an open session only through
/// applying it.
proof fn lemma_open_run_applied_flags(st: SetupState, evs: Seq<SetupEvent>)
    requires
        st is Start || st is Opened || st is FlagsKnown,
        setup_wellformed(st, evs),
        setup_run(st, evs) is Open,
    ensures
        exists|i: int| 0 <= i < evs.len() && evs[i] == SetupEvent::FlagsApplied,
    decreases evs.len(),
{
    let next = setup_step_spec(st, evs[0]);
    if next is Failed {
        lemma_failed_is_terminal(next, evs.drop_first());
        assert(false);
    } else if evs[0] == SetupEvent::FlagsApplied {
        assert(evs[0] == SetupEvent::FlagsApplied);
    } else {
        lemma_open_run_applied_flags(next, evs.drop_first());
        let j = choose|j: int|
            0 <= j < evs.drop_first().len() && evs.drop_first()[j] == SetupEvent::FlagsApplied;
        assert(evs[j + 1] == SetupEvent::FlagsApplied);
    }
}

/// A session is only ever opened on a descriptor whose non-blocking flag
/// set was applied: every complete construction — outcomes fed to the
/// stages that awaited them, from the start to an open session — applied
/// the updated flag set along the way. On a blocking descriptor the
/// stream's would-block retries would block the whole event loop.
pub proof fn lemma_open_session_is_nonblocking(evs: Seq<SetupEvent>)
    requires
        setup_wellformed(SetupState::Start, evs),
        setup_run(SetupState::Start, evs) is Open,
    ensures
        exists|i: int| 0 <= i < evs.len() && evs[i] == SetupEvent::FlagsApplied,
{
    lemma_open_run_applied_flags(SetupState::Start, evs);
}

/// The flag set to apply to the master descriptor: the flag set it already
/// has, with the non-blocking flag's bits set and every other bit kept.
pub fn nonblocking_flags(bits: u32, nonblock: u32) -> (r: u32)
    ensures
        r == (bits | nonblock),
        (r & nonblock) == nonblock,
        (r & bits) == bits,
{
    proof {
        assert((bits | nonblock) & nonblock == nonblock) by (bit_vector);
        assert((bits | nonblock) & bits == bits) by (bit_vector);
    }
    bits | nonblock
}

/// How opening the slave side ends, given the OS outcome of opening the
/// slave device path: success exactly when the OS call succeeded, and a
/// definitive PTY-creation error carrying the OS error code otherwise — the
/// open is never retried, so a vanished device fails at once rather than
/// hanging.
pub fn slave_open_outcome(os: Result<(), i32>) -> (r: Result<(), Error>)
    ensures
        r is Ok <==> os is Ok,
        os matches Err(code) ==> r == Result::<(), Error>::Err(Error::CreatePty { code }),
{
    match os {
        Ok(()) => Ok(()),
        Err(code) => Err(Error::CreatePty { code }),
    }
}

/// How resizing ends, given the OS outcome of applying the size to the
/// master descriptor: success exactly when the OS call succeeded, and a
/// definitive size error carrying the OS error code otherwise.
pub fn resize_outcome(os: Result<(), i32>) -> (r: Result<(), Error>)
    ensures
        r is Ok <==> os is Ok,
        os matches Err(code) ==> r == Result::<(), Error>::Err(Error::SetTermSize { code }),
{
    match os {
        Ok(()) => Ok(()),
        Err(code) => Err(Error::SetTermSize { code }),
    }
}

} // verus!
