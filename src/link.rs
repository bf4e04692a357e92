use vstd::prelude::*;
use crate::error::StationError;
use crate::frame::FRAME_SIZE;

verus! {

/// Exit status of a run that ended because shutdown was requested.
pub const INTERRUPT_EXIT_STATUS: i32 = 69;

/// Exit status of a run that ended on a fatal error.
pub const FAILURE_EXIT_STATUS: i32 = 1;

/// Where the connection to the sensor node stands.
#[derive(Debug, Clone, Copy, PartialEq, Eq, Structural)]
pub enum LinkState {
    /// Trying to open the port; the device may not be present yet.
    Searching,
    /// The port is open; input buffered before attaching is to be discarded.
    Clearing,
    /// Reading frames.
    Active,
    /// Shutdown was requested; no further I/O is started.
    Shutdown,
    /// A fatal error ended the run.
    Failed(StationError),
}

/// The outcome of the I/O operation that the current state asked for.
#[derive(Debug, Clone, Copy, PartialEq, Eq, Structural)]
pub enum LinkEvent {
    /// The port opened.
    Opened,
    /// Opening failed because the device is not present.
    OpenNotFound,
    /// Opening failed for another reason.
    OpenFailed,
    /// Buffered input was discarded.
    Cleared,
    /// Discarding failed because the device is not present.
    ClearNotFound,
    /// Discarding failed for another reason.
    ClearFailed,
    /// A read returned this many bytes.
    ReadBytes(usize),
    /// A read timed out with nothing received.
    ReadTimedOut,
    /// A read found the device gone (a broken pipe or an absent device).
    ReadBrokenPipe,
    /// A read failed for another reason.
    ReadFailed,
}

/// The I/O operation a state asks for next.
#[derive(Debug, Clone, Copy, PartialEq, Eq, Structural)]
pub enum IoRequest {
    Open,
    Clear,
    Read,
    Stop,
}

/// The result of one step: the next state, a condition to report, and
/// whether the bytes just read form a frame to decode and emit.
#[derive(Debug, Clone, Copy, PartialEq, Eq, Structural)]
pub struct Transition {
    pub next: LinkState,
    pub notice: Option<StationError>,
    pub deliver: bool,
}

/// The state in which a run begins.
pub open spec fn start_spec(running: bool) -> LinkState {
    if running {
        LinkState::Searching
    } else {
        LinkState::Shutdown
    }
}

/// The operation each state asks for.
pub open spec fn io_spec(state: LinkState) -> IoRequest {
    match state {
        LinkState::Searching => IoRequest::Open,
        LinkState::Clearing => IoRequest::Clear,
        LinkState::Active => IoRequest::Read,
        _ => IoRequest::Stop,
    }
}

/// `state` unless shutdown was requested.
pub open spec fn unless_stopped(running: bool, state: LinkState) -> LinkState {
    if running {
        state
    } else {
        LinkState::Shutdown
    }
}

/// A step that ends the run on a fatal error.
pub open spec fn fail(e: StationError) -> Transition {
    Transition { next: LinkState::Failed(e), notice: Some(e), deliver: false }
}

/// A step that moves on, checking the shutdown flag, with a notice.
pub open spec fn go(running: bool, state: LinkState, notice: Option<StationError>) -> Transition {
    Transition { next: unless_stopped(running, state), notice, deliver: false }
}

/// One step of the connection state machine: `state` asked for an
/// operation, `event` is how it went, and `running` is the shutdown flag
/// as read after it. Absence of the device and a broken pipe lead back to
/// searching; only a read of exactly `FRAME_SIZE` bytes is delivered; any
/// other length is reported and skipped; other failures are fatal.
pub open spec fn step_spec(state: LinkState, running: bool, event: LinkEvent) -> Transition {
    match (state, event) {
        (LinkState::Searching, LinkEvent::Opened) => go(running, LinkState::Clearing, None),
        (LinkState::Searching, LinkEvent::OpenNotFound) => go(running, LinkState::Searching, None),
        (LinkState::Searching, LinkEvent::OpenFailed) => fail(StationError::ConnectionError),
        (LinkState::Clearing, LinkEvent::Cleared) => go(running, LinkState::Active, None),
        (LinkState::Clearing, LinkEvent::ClearNotFound) => go(
            running,
            LinkState::Searching,
            Some(StationError::DisconnectError),
        ),
        (LinkState::Clearing, LinkEvent::ClearFailed) => fail(StationError::ClearDataError),
        (LinkState::Active, LinkEvent::ReadBytes(n)) => if n == FRAME_SIZE {
            Transition { next: unless_stopped(running, LinkState::Active), notice: None, deliver: true }
        } else {
            go(running, LinkState::Active, Some(StationError::BufferLenError(n)))
        },
        (LinkState::Active, LinkEvent::ReadTimedOut) => go(running, LinkState::Active, None),
        (LinkState::Active, LinkEvent::ReadBrokenPipe) => go(
            running,
            LinkState::Searching,
            Some(StationError::DisconnectError),
        ),
        (LinkState::Active, LinkEvent::ReadFailed) => fail(StationError::ReadError),
        (LinkState::Shutdown, _) => Transition { next: state, notice: None, deliver: false },
        (LinkState::Failed(_), _) => Transition { next: state, notice: None, deliver: false },
        // An outcome of an operation the state did not ask for changes nothing.
        _ => go(running, state, None),
    }
}

/// The exit status a finished run reports, if the run has finished.
pub open spec fn exit_status_spec(state: LinkState) -> Option<i32> {
    match state {
        LinkState::Shutdown => Some(INTERRUPT_EXIT_STATUS),
        LinkState::Failed(_) => Some(FAILURE_EXIT_STATUS),
        _ => None,
    }
}

/// The state in which a run begins, given the shutdown flag.
pub fn start(running: bool) -> (r: LinkState)
    ensures
        r == start_spec(running),
{
    if running {
        LinkState::Searching
    } else {
        LinkState::Shutdown
    }
}

/// The operation `state` asks for next.
pub fn next_io(state: LinkState) -> (r: IoRequest)
    ensures
        r == io_spec(state),
{
    match state {
        LinkState::Searching => IoRequest::Open,
        LinkState::Clearing => IoRequest::Clear,
        LinkState::Active => IoRequest::Read,
        _ => IoRequest::Stop,
    }
}

fn moved(running: bool, state: LinkState, notice: Option<StationError>) -> (r: Transition)
    ensures
        r == go(running, state, notice),
{
    let next = if running {
        state
    } else {
        LinkState::Shutdown
    };
    Transition { next, notice, deliver: false }
}

fn failed(e: StationError) -> (r: Transition)
    ensures
        r == fail(e),
{
    Transition { next: LinkState::Failed(e), notice: Some(e), deliver: false }
}

/// One step of the connection state machine.
pub fn step(state: LinkState, running: bool, event: LinkEvent) -> (r: Transition)
    ensures
        r == step_spec(state, running, event),
{
    match (state, event) {
        (LinkState::Searching, LinkEvent::Opened) => moved(running, LinkState::Clearing, None),
        (LinkState::Searching, LinkEvent::OpenNotFound) => moved(running, LinkState::Searching, None),
        (LinkState::Searching, LinkEvent::OpenFailed) => failed(StationError::ConnectionError),
        (LinkState::Clearing, LinkEvent::Cleared) => moved(running, LinkState::Active, None),
        (LinkState::Clearing, LinkEvent::ClearNotFound) => moved(
            running,
            LinkState::Searching,
            Some(StationError::DisconnectError),
        ),
        (LinkState::Clearing, LinkEvent::ClearFailed) => failed(StationError::ClearDataError),
        (LinkState::Active, LinkEvent::ReadBytes(n)) => {
            if n == FRAME_SIZE {
                let t = moved(running, LinkState::Active, None);
                Transition { next: t.next, notice: None, deliver: true }
            } else {
                moved(running, LinkState::Active, Some(StationError::BufferLenError(n)))
            }
        },
        (LinkState::Active, LinkEvent::ReadTimedOut) => moved(running, LinkState::Active, None),
        (LinkState::Active, LinkEvent::ReadBrokenPipe) => moved(
            running,
            LinkState::Searching,
            Some(StationError::DisconnectError),
        ),
        (LinkState::Active, LinkEvent::ReadFailed) => failed(StationError::ReadError),
        (LinkState::Shutdown, _) => Transition { next: state, notice: None, deliver: false },
        (LinkState::Failed(_), _) => Transition { next: state, notice: None, deliver: false },
        _ => moved(running, state, None),
    }
}

/// The exit status a finished run reports; `None` while it is still running.
pub fn exit_status(state: LinkState) -> (r: Option<i32>)
    ensures
        r == exit_status_spec(state),
{
    match state {
        LinkState::Shutdown => Some(INTERRUPT_EXIT_STATUS),
        LinkState::Failed(_) => Some(FAILURE_EXIT_STATUS),
        _ => None,
    }
}

/// The kinds of I/O failure that the state machine tells apart.
#[derive(Debug, Clone, Copy, PartialEq, Eq, Structural)]
pub enum IoKind {
    NotFound,
    TimedOut,
    BrokenPipe,
    Other,
}

/// The kinds of failure the serial port reports when opened or cleared.
#[derive(Debug, Clone, Copy, PartialEq, Eq, Structural)]
pub enum PortErrorKind {
    NoDevice,
    InvalidInput,
    Unknown,
    Io(IoKind),
}

/// Whether a port failure means that the device is not present.
pub open spec fn is_absent(kind: PortErrorKind) -> bool {
    kind == PortErrorKind::NoDevice || kind == PortErrorKind::Io(IoKind::NotFound)
}

/// The outcome of a failed attempt to open the port.
pub fn open_failure_event(kind: PortErrorKind) -> (r: LinkEvent)
    ensures
        r == (if is_absent(kind) {
            LinkEvent::OpenNotFound
        } else {
            LinkEvent::OpenFailed
        }),
{
    match kind {
        PortErrorKind::NoDevice => LinkEvent::OpenNotFound,
        PortErrorKind::Io(IoKind::NotFound) => LinkEvent::OpenNotFound,
        _ => LinkEvent::OpenFailed,
    }
}

/// The outcome of a failed attempt to discard buffered input.
pub fn clear_failure_event(kind: PortErrorKind) -> (r: LinkEvent)
    ensures
        r == (if is_absent(kind) {
            LinkEvent::ClearNotFound
        } else {
            LinkEvent::ClearFailed
        }),
{
    match kind {
        PortErrorKind::NoDevice => LinkEvent::ClearNotFound,
        PortErrorKind::Io(IoKind::NotFound) => LinkEvent::ClearNotFound,
        _ => LinkEvent::ClearFailed,
    }
}

/// The outcome of a failed read: a timeout is no error, a broken pipe or an
/// absent device is a disconnect, anything else is a fault.
pub fn read_failure_event(kind: IoKind) -> (r: LinkEvent)
    ensures
        r == (match kind {
            IoKind::TimedOut => LinkEvent::ReadTimedOut,
            IoKind::BrokenPipe => LinkEvent::ReadBrokenPipe,
            IoKind::NotFound => LinkEvent::ReadBrokenPipe,
            IoKind::Other => LinkEvent::ReadFailed,
        }),
{
    match kind {
        IoKind::TimedOut => LinkEvent::ReadTimedOut,
        IoKind::BrokenPipe => LinkEvent::ReadBrokenPipe,
        IoKind::NotFound => LinkEvent::ReadBrokenPipe,
        IoKind::Other => LinkEvent::ReadFailed,
    }
}

/// The state reached from `state` after the outcomes `events`, in order,
/// with the shutdown flag holding `running` throughout.
pub open spec fn run(state: LinkState, running: bool, events: Seq<LinkEvent>) -> LinkState
    decreases events.len(),
{
    if events.len() == 0 {
        state
    } else {
        step_spec(run(state, running, events.drop_last()), running, events.last()).next
    }
}

/// A transport that reports the device absent `n` times, then opens.
pub open spec fn absent_then_opened(n: nat) -> Seq<LinkEvent> {
    Seq::new(n, |i: int| LinkEvent::OpenNotFound).push(LinkEvent::Opened)
}

/// Only a read of exactly `FRAME_SIZE` bytes is ever handed on to be
/// decoded: every other outcome, and every read of another length, is not.
pub proof fn lemma_only_full_frames_delivered(state: LinkState, running: bool, event: LinkEvent)
    ensures
        step_spec(state, running, event).deliver ==> state == LinkState::Active && event
            == LinkEvent::ReadBytes(FRAME_SIZE),
{
}

/// Shutdown and failure are terminal: no outcome leaves them, and neither
/// asks for further I/O.
pub proof fn lemma_terminal_states_stay(e: StationError, running: bool, event: LinkEvent)
    ensures
        step_spec(LinkState::Shutdown, running, event).next == LinkState::Shutdown,
        step_spec(LinkState::Failed(e), running, event).next == LinkState::Failed(e),
        io_spec(LinkState::Shutdown) == IoRequest::Stop,
        io_spec(LinkState::Failed(e)) == IoRequest::Stop,
{
}

/// Once the shutdown flag reads false, the next state starts no I/O at all.
pub proof fn lemma_stop_requested_starts_no_io(state: LinkState, event: LinkEvent)
    ensures
        io_spec(step_spec(state, false, event).next) == IoRequest::Stop,
{
}

/// With shutdown requested during the search for an absent device, the
/// search ends with the next outcome: no port is opened and the run ends
/// with the interrupt status.
pub proof fn lemma_stop_ends_search()
    ensures
        step_spec(LinkState::Searching, false, LinkEvent::OpenNotFound).next == LinkState::Shutdown,
        io_spec(LinkState::Shutdown) == IoRequest::Stop,
        exit_status_spec(LinkState::Shutdown) == Some(INTERRUPT_EXIT_STATUS),
{
}

/// A broken pipe while reading reports a disconnect and leads back to
/// searching for the device, not to the end of the run.
pub proof fn lemma_broken_pipe_searches_again()
    ensures
        step_spec(LinkState::Active, true, LinkEvent::ReadBrokenPipe) == (Transition {
            next: LinkState::Searching,
            notice: Some(StationError::DisconnectError),
            deliver: false,
        }),
        io_spec(LinkState::Searching) == IoRequest::Open,
        exit_status_spec(LinkState::Searching) is None,
{
}

/// Against a transport that reports the device absent `n` times and then
/// opens, the search asks to open after each of the first `k <= n`
/// outcomes, and after the opening at attempt `n + 1` it asks to open no
/// more: exactly `n + 1` attempts.
pub proof fn lemma_search_opens_after_absences(n: nat)
    ensures
        forall|k: int|
            0 <= k <= n ==> run(LinkState::Searching, true, #[trigger] absent_then_opened(n).take(k))
                == LinkState::Searching,
        run(LinkState::Searching, true, absent_then_opened(n)) == LinkState::Clearing,
        io_spec(LinkState::Searching) == IoRequest::Open,
        io_spec(LinkState::Clearing) == IoRequest::Clear,
{
    let ev = absent_then_opened(n);
    assert forall|k: int| 0 <= k <= n implies run(LinkState::Searching, true, #[trigger] ev.take(k))
        == LinkState::Searching by {
        lemma_absences_keep_searching(ev, n, k);
    }
    lemma_absences_keep_searching(ev, n, n as int);
    assert(ev.drop_last() =~= ev.take(n as int));
}

proof fn lemma_absences_keep_searching(ev: Seq<LinkEvent>, n: nat, k: int)
    requires
        ev == absent_then_opened(n),
        0 <= k <= n,
    ensures
        run(LinkState::Searching, true, ev.take(k)) == LinkState::Searching,
    decreases k,
{
    if k > 0 {
        lemma_absences_keep_searching(ev, n, k - 1);
        assert(ev.take(k).drop_last() =~= ev.take(k - 1));
        assert(ev.take(k).last() == LinkEvent::OpenNotFound);
    } else {
        assert(ev.take(0).len() == 0);
    }
}

} // verus!
