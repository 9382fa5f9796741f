use gateway::lane::ForwardingLane;
use gateway::session::Action;
use gateway::session::Event;
use gateway::session::ForwardOutcome;
use gateway::session::ForwardRequest;
use gateway::session::Inbound;
use gateway::session::Session;

/// Stands in for the outbound handle: records each call, and with it the calls that were in
/// flight when it began.
struct RecordingHandle {
    lane: ForwardingLane,
    calls: Vec<(u64, ForwardRequest)>,
    overlaps: usize,
}

impl RecordingHandle {
    fn new() -> RecordingHandle {
        RecordingHandle { lane: ForwardingLane::new(), calls: Vec::new(), overlaps: 0 }
    }

    fn begin_send(&mut self, session: u64, request: ForwardRequest) -> bool {
        if !self.lane.begin(session) {
            return false;
        }
        self.calls.push((session, request));
        true
    }

    fn end_send(&mut self, session: u64) {
        if !self.lane.finish(session) {
            self.overlaps += 1;
        }
    }
}

fn frame(last_octet: u8, payload: &[u8]) -> Vec<u8> {
    let mut raw = vec![4u8, 0, 42, 10, 0, 0, last_octet];
    while raw.len() < 32 {
        raw.push(0);
    }
    raw.extend_from_slice(payload);
    raw
}

fn forward_of(session: &mut Session, raw: Vec<u8>) -> ForwardRequest {
    match session.step(Event::Received(Inbound::Binary(raw))) {
        Action::Forward(request) => request,
        other => panic!("expected a forward, got {:?}", other),
    }
}

#[test]
fn new_lane_is_idle() {
    assert_eq!(ForwardingLane::new().in_flight(), None);
}

#[test]
fn lane_grants_one_send_at_a_time() {
    let mut lane = ForwardingLane::new();
    assert!(lane.begin(7));
    assert_eq!(lane.in_flight(), Some(7));
    assert!(!lane.begin(8));
    assert!(!lane.begin(7));
    assert_eq!(lane.in_flight(), Some(7));
}

#[test]
fn lane_is_released_by_its_holder_only() {
    let mut lane = ForwardingLane::new();
    assert!(!lane.finish(1));
    assert!(lane.begin(1));
    assert!(!lane.finish(2));
    assert_eq!(lane.in_flight(), Some(1));
    assert!(lane.finish(1));
    assert_eq!(lane.in_flight(), None);
    assert!(!lane.finish(1));
}

#[test]
fn lane_serves_the_next_session_after_a_release() {
    let mut lane = ForwardingLane::new();
    assert!(lane.begin(1));
    assert!(lane.finish(1));
    assert!(lane.begin(2));
    assert_eq!(lane.in_flight(), Some(2));
    assert!(lane.finish(2));
    assert!(lane.begin(u64::MAX));
    assert_eq!(lane.in_flight(), Some(u64::MAX));
}

#[test]
fn two_sessions_forward_through_the_handle_without_overlap() {
    let mut handle = RecordingHandle::new();
    let mut first = Session::new();
    let mut second = Session::new();
    first.step(Event::HandshakeCompleted);
    second.step(Event::HandshakeCompleted);

    let from_first = forward_of(&mut first, frame(1, &[1, 1]));
    let from_second = forward_of(&mut second, frame(2, &[2, 2]));

    // both want to send; the second has to wait until the first is done
    assert!(handle.begin_send(1, from_first));
    assert!(!handle.begin_send(2, from_second.clone()));
    assert_eq!(handle.lane.in_flight(), Some(1));
    handle.end_send(1);
    assert_eq!(first.step(Event::ForwardFinished(ForwardOutcome::Delivered)), Action::AwaitMessage);
    assert!(handle.begin_send(2, from_second));
    handle.end_send(2);
    assert_eq!(second.step(Event::ForwardFinished(ForwardOutcome::Delivered)), Action::AwaitMessage);

    assert_eq!(handle.calls.len(), 2);
    assert_eq!(handle.overlaps, 0);
    assert_eq!(handle.lane.in_flight(), None);
    assert_eq!(handle.calls[0].0, 1);
    assert_eq!(handle.calls[0].1.payload, vec![1u8, 1]);
    assert_eq!(handle.calls[0].1.destination.as_bytes(), &[4u8, 0, 42, 10, 0, 0, 1][..]);
    assert_eq!(handle.calls[1].0, 2);
    assert_eq!(handle.calls[1].1.payload, vec![2u8, 2]);
    assert_eq!(handle.calls[1].1.destination.as_bytes(), &[4u8, 0, 42, 10, 0, 0, 2][..]);
}

#[test]
fn interleaved_requests_never_put_two_sends_in_flight() {
    let mut lane = ForwardingLane::new();
    let mut in_flight: Vec<u64> = Vec::new();
    // a fixed interleaving of begins and finishes by three sessions
    let script: [(bool, u64); 14] = [
        (true, 1), (true, 2), (false, 2), (true, 3), (false, 1), (true, 2), (true, 1),
        (false, 3), (false, 2), (true, 3), (true, 3), (false, 3), (false, 3), (true, 1),
    ];
    for (begin, session) in script {
        if begin {
            if lane.begin(session) {
                in_flight.push(session);
            }
        } else if lane.finish(session) {
            in_flight.retain(|s| *s != session);
        }
        assert!(in_flight.len() <= 1);
        assert_eq!(lane.in_flight(), in_flight.first().copied());
    }
    assert_eq!(in_flight, vec![1]);
}
