use usb_parse::error::StationError;
use usb_parse::link::{
    clear_failure_event, exit_status, next_io, open_failure_event, read_failure_event, start, step,
    IoKind, IoRequest, LinkEvent, LinkState, PortErrorKind, FAILURE_EXIT_STATUS,
    INTERRUPT_EXIT_STATUS,
};

#[test]
fn short_read_is_reported_and_skipped() {
    let t = step(LinkState::Active, true, LinkEvent::ReadBytes(10));
    assert_eq!(t.notice, Some(StationError::BufferLenError(10)));
    assert!(!t.deliver);
    assert_eq!(t.next, LinkState::Active);
    assert_eq!(next_io(t.next), IoRequest::Read);
}

#[test]
fn full_frame_is_delivered() {
    let t = step(LinkState::Active, true, LinkEvent::ReadBytes(27));
    assert_eq!(t.notice, None);
    assert!(t.deliver);
    assert_eq!(t.next, LinkState::Active);
}

#[test]
fn search_succeeds_after_absences() {
    for n in 0..5usize {
        let mut state = start(true);
        let mut attempts = 0usize;
        while next_io(state) == IoRequest::Open {
            attempts += 1;
            let event = if attempts <= n { LinkEvent::OpenNotFound } else { LinkEvent::Opened };
            state = step(state, true, event).next;
            assert!(attempts <= n + 1);
        }
        assert_eq!(attempts, n + 1);
        assert_eq!(state, LinkState::Clearing);
    }
}

#[test]
fn broken_pipe_returns_to_search() {
    let t = step(LinkState::Active, true, LinkEvent::ReadBrokenPipe);
    assert_eq!(t.next, LinkState::Searching);
    assert_eq!(t.notice, Some(StationError::DisconnectError));
    assert_eq!(next_io(t.next), IoRequest::Open);
    assert_eq!(exit_status(t.next), None);
    let t2 = step(t.next, true, LinkEvent::Opened);
    assert_eq!(t2.next, LinkState::Clearing);
    let t3 = step(t2.next, true, LinkEvent::Cleared);
    assert_eq!(t3.next, LinkState::Active);
}

#[test]
fn stop_during_search_opens_nothing() {
    let t = step(LinkState::Searching, false, LinkEvent::OpenNotFound);
    assert_eq!(t.next, LinkState::Shutdown);
    assert_eq!(next_io(t.next), IoRequest::Stop);
    assert_eq!(exit_status(t.next), Some(INTERRUPT_EXIT_STATUS));
    assert_eq!(INTERRUPT_EXIT_STATUS, 69);
}

#[test]
fn stop_flag_stops_every_state() {
    let states = [LinkState::Searching, LinkState::Clearing, LinkState::Active];
    let events = [
        LinkEvent::Opened,
        LinkEvent::OpenNotFound,
        LinkEvent::Cleared,
        LinkEvent::ClearNotFound,
        LinkEvent::ReadBytes(27),
        LinkEvent::ReadBytes(3),
        LinkEvent::ReadTimedOut,
        LinkEvent::ReadBrokenPipe,
    ];
    for s in states {
        for e in events {
            let t = step(s, false, e);
            assert_eq!(next_io(t.next), IoRequest::Stop);
        }
    }
    assert_eq!(start(false), LinkState::Shutdown);
}

#[test]
fn fatal_outcomes_end_the_run() {
    let t = step(LinkState::Searching, true, LinkEvent::OpenFailed);
    assert_eq!(t.next, LinkState::Failed(StationError::ConnectionError));
    assert_eq!(t.notice, Some(StationError::ConnectionError));
    assert_eq!(exit_status(t.next), Some(FAILURE_EXIT_STATUS));
    let t = step(LinkState::Clearing, true, LinkEvent::ClearFailed);
    assert_eq!(t.next, LinkState::Failed(StationError::ClearDataError));
    let t = step(LinkState::Active, true, LinkEvent::ReadFailed);
    assert_eq!(t.next, LinkState::Failed(StationError::ReadError));
    assert_eq!(next_io(t.next), IoRequest::Stop);
    let again = step(t.next, true, LinkEvent::Opened);
    assert_eq!(again.next, t.next);
}

#[test]
fn clear_on_absent_device_searches_again() {
    let t = step(LinkState::Clearing, true, LinkEvent::ClearNotFound);
    assert_eq!(t.next, LinkState::Searching);
    assert_eq!(t.notice, Some(StationError::DisconnectError));
}

#[test]
fn timeout_keeps_reading() {
    let t = step(LinkState::Active, true, LinkEvent::ReadTimedOut);
    assert_eq!(t.next, LinkState::Active);
    assert_eq!(t.notice, None);
    assert!(!t.deliver);
}

#[test]
fn failures_are_classified() {
    assert_eq!(open_failure_event(PortErrorKind::NoDevice), LinkEvent::OpenNotFound);
    assert_eq!(open_failure_event(PortErrorKind::Io(IoKind::NotFound)), LinkEvent::OpenNotFound);
    assert_eq!(open_failure_event(PortErrorKind::Unknown), LinkEvent::OpenFailed);
    assert_eq!(open_failure_event(PortErrorKind::Io(IoKind::Other)), LinkEvent::OpenFailed);
    assert_eq!(clear_failure_event(PortErrorKind::NoDevice), LinkEvent::ClearNotFound);
    assert_eq!(clear_failure_event(PortErrorKind::InvalidInput), LinkEvent::ClearFailed);
    assert_eq!(read_failure_event(IoKind::TimedOut), LinkEvent::ReadTimedOut);
    assert_eq!(read_failure_event(IoKind::BrokenPipe), LinkEvent::ReadBrokenPipe);
    assert_eq!(read_failure_event(IoKind::NotFound), LinkEvent::ReadBrokenPipe);
    assert_eq!(read_failure_event(IoKind::Other), LinkEvent::ReadFailed);
}

#[test]
fn recoverable_errors_are_not_fatal() {
    assert!(!StationError::DisconnectError.is_fatal());
    assert!(!StationError::BufferLenError(10).is_fatal());
    assert!(StationError::ConnectionError.is_fatal());
    assert!(StationError::ClearDataError.is_fatal());
    assert!(StationError::ReadError.is_fatal());
    assert!(StationError::DeserializeError.is_fatal());
}

#[test]
fn messages_describe_each_condition() {
    assert_eq!(StationError::BufferLenError(10).message(), "Mismatched buffer length: 10");
    assert_eq!(StationError::BufferLenError(0).message(), "Mismatched buffer length: 0");
    assert_eq!(StationError::BufferLenError(252).message(), "Mismatched buffer length: 252");
    assert_eq!(
        StationError::BufferLenError(usize::MAX).message(),
        format!("Mismatched buffer length: {}", usize::MAX)
    );
    assert_eq!(StationError::DisconnectError.message(), "Teensy disconnected");
    assert_eq!(StationError::ConnectionError.message(), "Error when opening serial port");
    assert_eq!(StationError::ClearDataError.message(), "Unable to clear existing accumulated data");
    assert_eq!(StationError::ReadError.message(), "Read error");
    assert_eq!(StationError::DeserializeError.message(), "Error in initial parse");
}
