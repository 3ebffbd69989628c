use async_pty::stream::{
    fill_read_buffer, on_read_attempt, on_read_readiness, on_shutdown, on_write_attempt,
    on_write_readiness, resolve_attempts, Action, Attempt, Completion, Dir, DirState, Readiness,
    StreamState, CHUNK_SIZE,
};

fn idle() -> StreamState {
    StreamState { read: DirState::Waiting, write: DirState::Waiting }
}

#[test]
fn chunk_cap_is_four_kibibytes() {
    assert_eq!(CHUNK_SIZE, 4096);
}

#[test]
fn readiness_granted_moves_to_attempting() {
    let (s, act) = on_read_readiness(idle(), Readiness::Ready);
    assert_eq!(s.read, DirState::Attempting);
    assert_eq!(act, Action::AttemptIo);
}

#[test]
fn readiness_pending_suspends() {
    let (s, act) = on_read_readiness(idle(), Readiness::Pending);
    assert_eq!(s.read, DirState::Waiting);
    assert_eq!(act, Action::Suspend);
}

#[test]
fn would_block_is_absorbed_not_surfaced() {
    let s = StreamState { read: DirState::Attempting, write: DirState::Waiting };
    let (s2, act) = on_read_attempt(s, Attempt::WouldBlock);
    assert_eq!(act, Action::Retry);
    assert_eq!(s2.read, DirState::Waiting);
}

#[test]
fn end_of_stream_read_completes_with_zero_bytes() {
    let s = StreamState { read: DirState::Attempting, write: DirState::Waiting };
    let (_, act) = on_read_attempt(s, Attempt::Transferred(0));
    assert_eq!(act, Action::Complete(Completion::Done(0)));
}

#[test]
fn definitive_read_error_is_surfaced_verbatim() {
    let s = StreamState { read: DirState::Attempting, write: DirState::Waiting };
    let (_, act) = on_read_attempt(s, Attempt::Failed(5));
    assert_eq!(act, Action::Complete(Completion::Error(5)));
}

#[test]
fn short_write_completes_with_accepted_count() {
    let payload_len: usize = 10;
    let s = StreamState { read: DirState::Waiting, write: DirState::Attempting };
    let (s2, act) = on_write_attempt(s, Attempt::Transferred(3));
    assert_eq!(act, Action::Complete(Completion::Done(3)));
    assert!(3 < payload_len);
    assert_eq!(s2.write, DirState::Waiting);
}

#[test]
fn pending_read_does_not_delay_a_write() {
    // A read is issued first and finds the descriptor not readable: it parks.
    let (s, act) = on_read_readiness(idle(), Readiness::Pending);
    assert_eq!(act, Action::Suspend);
    // A write issued while the read is pending runs to completion on its own
    // readiness signal alone.
    let (s, act) = on_write_readiness(s, Readiness::Ready);
    assert_eq!(act, Action::AttemptIo);
    let (s, act) = on_write_attempt(s, Attempt::Transferred(7));
    assert_eq!(act, Action::Complete(Completion::Done(7)));
    // The parked read is still parked, untouched by the whole write.
    assert_eq!(s.read, DirState::Waiting);
}

#[test]
fn pending_write_does_not_delay_a_read() {
    let (s, act) = on_write_readiness(idle(), Readiness::Pending);
    assert_eq!(act, Action::Suspend);
    let (s, act) = on_read_readiness(s, Readiness::Ready);
    assert_eq!(act, Action::AttemptIo);
    let (s, act) = on_read_attempt(s, Attempt::Transferred(2));
    assert_eq!(act, Action::Complete(Completion::Done(2)));
    assert_eq!(s.write, DirState::Waiting);
}

#[test]
fn shutdown_completes_at_once_touching_nothing() {
    let s = StreamState { read: DirState::Attempting, write: DirState::Waiting };
    let (s2, act) = on_shutdown(s);
    assert_eq!(act, Action::Complete(Completion::Done(0)));
    assert_eq!(s2, s);
}

#[test]
fn resolution_takes_first_decisive_outcome() {
    let attempts = vec![Attempt::WouldBlock, Attempt::WouldBlock, Attempt::Transferred(5)];
    assert_eq!(resolve_attempts(Dir::Read, &attempts), Some(Completion::Done(5)));
}

#[test]
fn resolution_surfaces_a_definitive_error() {
    let attempts = vec![Attempt::WouldBlock, Attempt::Failed(32)];
    assert_eq!(resolve_attempts(Dir::Write, &attempts), Some(Completion::Error(32)));
}

#[test]
fn resolution_of_only_would_blocks_stays_pending() {
    let attempts = vec![Attempt::WouldBlock, Attempt::WouldBlock, Attempt::WouldBlock];
    assert_eq!(resolve_attempts(Dir::Read, &attempts), None);
}

#[test]
fn resolution_of_nothing_stays_pending() {
    let attempts: Vec<Attempt> = vec![];
    assert_eq!(resolve_attempts(Dir::Write, &attempts), None);
}

#[test]
fn resolution_ignores_outcomes_after_the_first_decisive_one() {
    let attempts = vec![Attempt::Transferred(1), Attempt::Failed(9)];
    assert_eq!(resolve_attempts(Dir::Read, &attempts), Some(Completion::Done(1)));
}

#[test]
fn read_delivery_is_exactly_the_transferred_bytes() {
    let scratch = vec![104u8, 105, 33, 0, 0];
    let mut dest = vec![9u8, 9, 9];
    fill_read_buffer(&mut dest, &scratch, 3);
    assert_eq!(dest, vec![104u8, 105, 33]);
}

#[test]
fn read_delivery_of_zero_bytes_clears_the_destination() {
    let scratch = vec![1u8, 2, 3];
    let mut dest = vec![7u8, 7];
    fill_read_buffer(&mut dest, &scratch, 0);
    assert_eq!(dest, Vec::<u8>::new());
}

#[test]
fn read_delivery_can_take_the_whole_scratch() {
    let scratch = vec![1u8, 2, 3];
    let mut dest = Vec::new();
    fill_read_buffer(&mut dest, &scratch, 3);
    assert_eq!(dest, scratch);
}

#[test]
fn two_streams_share_no_state() {
    let a = idle();
    let b = idle();
    let (a, act) = on_read_readiness(a, Readiness::Ready);
    assert_eq!(act, Action::AttemptIo);
    let (a, _) = on_read_attempt(a, Attempt::Transferred(4));
    // Driving one stream's machine leaves the other exactly where it began.
    assert_eq!(b, idle());
    assert_eq!(a.read, DirState::Waiting);
}
