//! The readiness-driven duplex stream, as a state machine.
//!
//! One non-blocking descriptor serves both directions. Each direction — read
//! and write — runs its own retry protocol: wait until the reactor signals
//! readiness for that direction alone, attempt the non-blocking OS call, and
//! on a would-block outcome go back to waiting without surfacing anything to
//! the caller. The event loop performs the waits and the OS calls; every
//! transition and every completion is decided here.

use vstd::prelude::*;

verus! {

/// Largest number of bytes a single read attempt transfers: the size of the
/// scratch buffer a read fills before copying into the caller's buffer.
pub const CHUNK_SIZE: usize = 4096;

/// Which direction of the stream an event belongs to.
#[derive(Clone, Copy, Debug, PartialEq, Eq)]
pub enum Dir {
    Read,
    Write,
}

/// The reactor's answer when one direction's readiness is queried.
#[derive(Clone, Copy, Debug, PartialEq, Eq)]
pub enum Readiness {
    /// The descriptor is believed ready for this direction.
    Ready,
    /// Not ready; the task has been parked until the reactor wakes it.
    Pending,
}

/// Outcome of one guarded, non-blocking OS transfer attempt.
#[derive(Clone, Copy, Debug, PartialEq, Eq)]
pub enum Attempt {
    /// The call moved this many bytes (zero on a read means end of stream;
    /// a flush that succeeds reports zero as well).
    Transferred(usize),
    /// The readiness belief was stale or already consumed; nothing happened.
    WouldBlock,
    /// A definitive OS error, carried as its raw error code.
    Failed(i32),
}

/// How an operation ends: with a byte count or with a raw OS error code.
#[derive(Clone, Copy, Debug, PartialEq, Eq)]
pub enum Completion {
    Done(usize),
    Error(i32),
}

/// What the event loop must do next for one direction.
#[derive(Clone, Copy, Debug, PartialEq, Eq)]
pub enum Action {
    /// Return control to the scheduler; the reactor will wake the task.
    Suspend,
    /// Readiness is believed: perform the guarded non-blocking call now.
    AttemptIo,
    /// The readiness belief was wrong: query readiness again at once.
    Retry,
    /// The operation is over; hand this outcome to the caller.
    Complete(Completion),
}

/// One direction of the stream: parked on the reactor, or holding a
/// readiness guard and entitled to attempt the OS call.
#[derive(Clone, Copy, Debug, PartialEq, Eq)]
pub enum DirState {
    Waiting,
    Attempting,
}

/// Both directions of one stream. Each operation touches only its own half;
/// that the two halves are independent is what keeps a pending read from
/// ever delaying a write, and the reverse.
#[derive(Clone, Copy, Debug, PartialEq, Eq)]
pub struct StreamState {
    pub read: DirState,
    pub write: DirState,
}

/// One event delivered to one direction of the stream.
#[derive(Clone, Copy, Debug, PartialEq, Eq)]
pub enum DirEvent {
    /// The reactor answered this direction's readiness query.
    Signalled(Readiness),
    /// The guarded non-blocking call for this direction came back.
    Io(Attempt),
}

/// An event of the whole stream: a per-direction event, tagged with the
/// direction it belongs to.
#[derive(Clone, Copy, Debug, PartialEq, Eq)]
pub struct StreamEvent {
    pub dir: Dir,
    pub what: DirEvent,
}

/// The transition a readiness answer causes for one waiting direction.
pub open spec fn readiness_step_spec(r: Readiness) -> (DirState, Action) {
    match r {
        Readiness::Ready => (DirState::Attempting, Action::AttemptIo),
        Readiness::Pending => (DirState::Waiting, Action::Suspend),
    }
}

/// The transition an attempt outcome causes for one attempting direction.
/// A would-block outcome is absorbed: the direction goes back to waiting and
/// the caller sees nothing. Any other outcome completes the operation and
/// leaves the direction ready for the next one.
pub open spec fn attempt_step_spec(a: Attempt) -> (DirState, Action) {
    match a {
        Attempt::WouldBlock => (DirState::Waiting, Action::Retry),
        Attempt::Transferred(n) => (DirState::Waiting, Action::Complete(Completion::Done(n))),
        Attempt::Failed(code) => (DirState::Waiting, Action::Complete(Completion::Error(code))),
    }
}

/// What one direction does with one of its events. The protocol is
/// memoryless per event: the event alone decides the next state and the
/// action, which is what makes each direction's progress depend on nothing
/// but its own events.
pub open spec fn dir_step_spec(ev: DirEvent) -> (DirState, Action) {
    match ev {
        DirEvent::Signalled(r) => readiness_step_spec(r),
        DirEvent::Io(a) => attempt_step_spec(a),
    }
}

/// One step of the whole stream: the event's direction steps, the other
/// direction is passed through untouched.
pub open spec fn stream_step_spec(s: StreamState, ev: StreamEvent) -> (StreamState, Action) {
    match ev.dir {
        Dir::Read => {
            let (d, act) = dir_step_spec(ev.what);
            (StreamState { read: d, ..s }, act)
        },
        Dir::Write => {
            let (d, act) = dir_step_spec(ev.what);
            (StreamState { write: d, ..s }, act)
        },
    }
}

/// Feed the read direction the reactor's answer to a read-readiness query.
/// The write half is untouched.
pub fn on_read_readiness(s: StreamState, r: Readiness) -> (res: (StreamState, Action))
    requires
        s.read is Waiting,
    ensures
        res == stream_step_spec(s, StreamEvent { dir: Dir::Read, what: DirEvent::Signalled(r) }),
        res.0.write == s.write,
{
    match r {
        Readiness::Ready => (StreamState { read: DirState::Attempting, ..s }, Action::AttemptIo),
        Readiness::Pending => (s, Action::Suspend),
    }
}

/// Feed the read direction the outcome of a guarded read attempt. The write
/// half is untouched; a would-block outcome asks for another readiness
/// query, anything else completes the read — a transfer of zero bytes means
/// end of stream and completes with a count of zero, not an error.
pub fn on_read_attempt(s: StreamState, a: Attempt) -> (res: (StreamState, Action))
    requires
        s.read is Attempting,
    ensures
        res == stream_step_spec(s, StreamEvent { dir: Dir::Read, what: DirEvent::Io(a) }),
        res.0.write == s.write,
{
    let next = StreamState { read: DirState::Waiting, ..s };
    match a {
        Attempt::WouldBlock => (next, Action::Retry),
        Attempt::Transferred(n) => (next, Action::Complete(Completion::Done(n))),
        Attempt::Failed(code) => (next, Action::Complete(Completion::Error(code))),
    }
}

/// Feed the write direction the reactor's answer to a write-readiness query.
/// The read half is untouched. Flush follows the same protocol as write: it
/// shares the descriptor, so it too may only act on write readiness.
pub fn on_write_readiness(s: StreamState, r: Readiness) -> (res: (StreamState, Action))
    requires
        s.write is Waiting,
    ensures
        res == stream_step_spec(s, StreamEvent { dir: Dir::Write, what: DirEvent::Signalled(r) }),
        res.0.read == s.read,
{
    match r {
        Readiness::Ready => (StreamState { write: DirState::Attempting, ..s }, Action::AttemptIo),
        Readiness::Pending => (s, Action::Suspend),
    }
}

/// Feed the write direction the outcome of a guarded write or flush attempt.
/// The read half is untouched. A short write completes with the accepted
/// count exactly as the OS reported it: the unwritten remainder stays with
/// the caller, never silently dropped.
pub fn on_write_attempt(s: StreamState, a: Attempt) -> (res: (StreamState, Action))
    requires
        s.write is Attempting,
    ensures
        res == stream_step_spec(s, StreamEvent { dir: Dir::Write, what: DirEvent::Io(a) }),
        res.0.read == s.read,
{
    let next = StreamState { write: DirState::Waiting, ..s };
    match a {
        Attempt::WouldBlock => (next, Action::Retry),
        Attempt::Transferred(n) => (next, Action::Complete(Completion::Done(n))),
        Attempt::Failed(code) => (next, Action::Complete(Completion::Error(code))),
    }
}

/// Shutting down a PTY master has no half-close to perform: it completes at
/// once, successfully, touching neither direction and waiting on nothing.
pub fn on_shutdown(s: StreamState) -> (res: (StreamState, Action))
    ensures
        res.0 == s,
        res.1 == Action::Complete(Completion::Done(0)),
{
    (s, Action::Complete(Completion::Done(0)))
}

/// The events of one direction, in order, with the other direction's events
/// erased.
pub open spec fn events_of(evs: Seq<StreamEvent>, d: Dir) -> Seq<StreamEvent>
    decreases evs.len(),
{
    if evs.len() == 0 {
        Seq::empty()
    } else if evs[0].dir == d {
        seq![evs[0]] + events_of(evs.drop_first(), d)
    } else {
        events_of(evs.drop_first(), d)
    }
}

/// The actions the stream takes for direction `d`'s events while the whole
/// trace `evs` — both directions interleaved — is delivered to it.
pub open spec fn actions_for(s: StreamState, evs: Seq<StreamEvent>, d: Dir) -> Seq<Action>
    decreases evs.len(),
{
    if evs.len() == 0 {
        Seq::empty()
    } else {
        let (s2, act) = stream_step_spec(s, evs[0]);
        let rest = actions_for(s2, evs.drop_first(), d);
        if evs[0].dir == d {
            seq![act] + rest
        } else {
            rest
        }
    }
}

/// The actions taken for one direction do not depend on the stream state the
/// trace starts from.
proof fn lemma_actions_state_independent(s1: StreamState, s2: StreamState, evs: Seq<StreamEvent>, d: Dir)
    ensures
        actions_for(s1, evs, d) == actions_for(s2, evs, d),
    decreases evs.len(),
{
    if evs.len() > 0 {
        lemma_actions_state_independent(
            stream_step_spec(s1, evs[0]).0,
            stream_step_spec(s2, evs[0]).0,
            evs.drop_first(),
            d,
        );
    }
}

/// A pending operation in one direction never delays the other. Whatever
/// trace of interleaved read and write events the stream is fed, the actions
/// taken for one direction are exactly the actions it would take were its
/// own events delivered alone: erasing the other direction's events — a
/// parked read waiting for readiness, its retries, its completion — changes
/// nothing for this one.
pub proof fn lemma_directions_independent(s: StreamState, evs: Seq<StreamEvent>, d: Dir)
    ensures
        actions_for(s, evs, d) == actions_for(s, events_of(evs, d), d),
    decreases evs.len(),
{
    if evs.len() > 0 {
        let s2 = stream_step_spec(s, evs[0]).0;
        lemma_directions_independent(s2, evs.drop_first(), d);
        lemma_actions_state_independent(s2, s, events_of(evs.drop_first(), d), d);
        if evs[0].dir == d {
            assert(events_of(evs, d).drop_first() =~= events_of(evs.drop_first(), d));
        }
    }
}

/// One direction's half of a stream state.
pub open spec fn half_of(s: StreamState, d: Dir) -> DirState {
    match d {
        Dir::Read => s.read,
        Dir::Write => s.write,
    }
}

/// The stream state a whole trace of events leaves behind.
pub open spec fn stream_run(s: StreamState, evs: Seq<StreamEvent>) -> StreamState
    decreases evs.len(),
{
    if evs.len() == 0 {
        s
    } else {
        stream_run(stream_step_spec(s, evs[0]).0, evs.drop_first())
    }
}

/// Where one direction's half ends up depends only on where that half
/// began, never on the other half.
proof fn lemma_run_half_from_half(s1: StreamState, s2: StreamState, evs: Seq<StreamEvent>, d: Dir)
    requires
        half_of(s1, d) == half_of(s2, d),
    ensures
        half_of(stream_run(s1, evs), d) == half_of(stream_run(s2, evs), d),
    decreases evs.len(),
{
    if evs.len() > 0 {
        lemma_run_half_from_half(
            stream_step_spec(s1, evs[0]).0,
            stream_step_spec(s2, evs[0]).0,
            evs.drop_first(),
            d,
        );
    }
}

/// The state the two directions are left in is as independent as their
/// actions: one direction's half of the state after a whole interleaved
/// trace is exactly its half after its own events alone.
pub proof fn lemma_state_halves_independent(s: StreamState, evs: Seq<StreamEvent>, d: Dir)
    ensures
        half_of(stream_run(s, evs), d) == half_of(stream_run(s, events_of(evs, d)), d),
    decreases evs.len(),
{
    if evs.len() > 0 {
        let s2 = stream_step_spec(s, evs[0]).0;
        lemma_state_halves_independent(s2, evs.drop_first(), d);
        if evs[0].dir == d {
            assert(events_of(evs, d).drop_first() =~= events_of(evs.drop_first(), d));
        } else {
            lemma_run_half_from_half(s2, s, events_of(evs.drop_first(), d), d);
        }
    }
}

/// The completions among a run of actions, in order.
pub open spec fn completions_in(acts: Seq<Action>) -> Seq<Completion>
    decreases acts.len(),
{
    if acts.len() == 0 {
        Seq::empty()
    } else {
        let rest = completions_in(acts.drop_first());
        match acts[0] {
            Action::Complete(c) => seq![c] + rest,
            _ => rest,
        }
    }
}

/// The decisive outcomes among one direction's attempts in a trace — every
/// transfer and every definitive error, with the would-blocks left out — as
/// the completions they ought to become.
pub open spec fn decisive_outcomes(evs: Seq<StreamEvent>, d: Dir) -> Seq<Completion>
    decreases evs.len(),
{
    if evs.len() == 0 {
        Seq::empty()
    } else {
        let rest = decisive_outcomes(evs.drop_first(), d);
        if evs[0].dir == d {
            match evs[0].what {
                DirEvent::Io(Attempt::Transferred(n)) => seq![Completion::Done(n)] + rest,
                DirEvent::Io(Attempt::Failed(code)) => seq![Completion::Error(code)] + rest,
                _ => rest,
            }
        } else {
            rest
        }
    }
}

/// No outcome is dropped, invented or reordered: over any trace, the
/// completions one direction hands its caller are exactly the decisive
/// outcomes of that direction's attempts, in order — each transfer count and
/// each definitive OS error surfaced verbatim, each would-block absorbed.
pub proof fn lemma_no_outcome_dropped(s: StreamState, evs: Seq<StreamEvent>, d: Dir)
    ensures
        completions_in(actions_for(s, evs, d)) == decisive_outcomes(evs, d),
    decreases evs.len(),
{
    if evs.len() > 0 {
        let (s2, act) = stream_step_spec(s, evs[0]);
        let rest = actions_for(s2, evs.drop_first(), d);
        lemma_no_outcome_dropped(s2, evs.drop_first(), d);
        if evs[0].dir == d {
            assert((seq![act] + rest).drop_first() =~= rest);
        }
    }
}

/// The result of one operation, given the outcomes of its successive
/// transfer attempts: the first decisive outcome — the first that is not a
/// would-block — decides it; a trace of nothing but would-blocks completes
/// nothing.
pub open spec fn first_decisive(attempts: Seq<Attempt>) -> Option<Completion>
    decreases attempts.len(),
{
    if attempts.len() == 0 {
        None
    } else {
        match attempts[0] {
            Attempt::WouldBlock => first_decisive(attempts.drop_first()),
            Attempt::Transferred(n) => Some(Completion::Done(n)),
            Attempt::Failed(code) => Some(Completion::Error(code)),
        }
    }
}

/// The decisive outcomes among a bare run of attempts, as the completions
/// they become.
pub open spec fn completions_of_attempts(attempts: Seq<Attempt>) -> Seq<Completion>
    decreases attempts.len(),
{
    if attempts.len() == 0 {
        Seq::empty()
    } else {
        let rest = completions_of_attempts(attempts.drop_first());
        match attempts[0] {
            Attempt::WouldBlock => rest,
            Attempt::Transferred(n) => seq![Completion::Done(n)] + rest,
            Attempt::Failed(code) => seq![Completion::Error(code)] + rest,
        }
    }
}

/// An operation's result is the first completion its attempts ever yield:
/// the operation completes exactly when some attempt is decisive, and then
/// with the earliest decisive outcome.
pub proof fn lemma_result_is_first_completion(attempts: Seq<Attempt>)
    ensures
        completions_of_attempts(attempts).len() == 0 ==> first_decisive(attempts) is None,
        completions_of_attempts(attempts).len() > 0 ==> first_decisive(attempts) == Some(
            completions_of_attempts(attempts)[0],
        ),
    decreases attempts.len(),
{
    if attempts.len() > 0 {
        lemma_result_is_first_completion(attempts.drop_first());
    }
}

/// A would-block outcome is never surfaced: as long as every attempt would
/// block, the operation completes nothing — it only goes back to waiting —
/// and in particular no would-block ever becomes a caller-visible error.
pub proof fn lemma_would_block_absorbed(attempts: Seq<Attempt>)
    requires
        forall|i: int| 0 <= i < attempts.len() ==> attempts[i] is WouldBlock,
    ensures
        first_decisive(attempts) is None,
    decreases attempts.len(),
{
    if attempts.len() > 0 {
        lemma_would_block_absorbed(attempts.drop_first());
    }
}

/// Run one direction's retry loop over the recorded outcomes of its transfer
/// attempts, readiness being granted before each. The loop completes exactly
/// once, with the first decisive outcome, or is still pending when the
/// record ends; no outcome is dropped and no would-block escapes.
pub fn resolve_attempts(d: Dir, attempts: &Vec<Attempt>) -> (r: Option<Completion>)
    ensures
        r == first_decisive(attempts@),
{
    let mut s = match d {
        Dir::Read => StreamState { read: DirState::Attempting, write: DirState::Waiting },
        Dir::Write => StreamState { read: DirState::Waiting, write: DirState::Attempting },
    };
    let mut i: usize = 0;
    proof {
        assert(attempts@.skip(0) =~= attempts@);
    }
    while i < attempts.len()
        invariant
            i <= attempts@.len(),
            matches!(d, Dir::Read) ==> s.read is Attempting,
            matches!(d, Dir::Write) ==> s.write is Attempting,
            first_decisive(attempts@) == first_decisive(attempts@.skip(i as int)),
        decreases attempts@.len() - i,
    {
        let a = attempts[i];
        proof {
            assert(attempts@.skip(i as int)[0] == attempts@[i as int]);
            assert(attempts@.skip(i as int).drop_first() =~= attempts@.skip(i as int + 1));
        }
        let (s2, act) = match d {
            Dir::Read => on_read_attempt(s, a),
            Dir::Write => on_write_attempt(s, a),
        };
        match act {
            Action::Complete(c) => {
                return Some(c);
            },
            _ => {
                // The attempt would have blocked: query readiness again and,
                // it being granted here, go back to attempting.
                let (s3, _) = match d {
                    Dir::Read => on_read_readiness(s2, Readiness::Ready),
                    Dir::Write => on_write_readiness(s2, Readiness::Ready),
                };
                s = s3;
            },
        }
        i = i + 1;
    }
    None
}

/// Deliver a completed read to the caller: clear the destination and fill it
/// with exactly the `count` bytes the OS placed at the front of the scratch
/// buffer — every byte the OS handed over, and nothing else.
pub fn fill_read_buffer(dest: &mut Vec<u8>, scratch: &Vec<u8>, count: usize)
    requires
        count <= scratch@.len(),
    ensures
        final(dest)@ == scratch@.subrange(0, count as int),
{
    dest.clear();
    let mut i: usize = 0;
    while i < count
        invariant
            i <= count,
            count <= scratch@.len(),
            dest@ == scratch@.subrange(0, i as int),
        decreases count - i,
    {
        dest.push(scratch[i]);
        proof {
            assert(scratch@.subrange(0, i + 1) =~= scratch@.subrange(0, i as int).push(scratch@[i as int]));
        }
        i = i + 1;
    }
}

} // verus!
