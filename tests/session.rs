use zero::session::{Frame, Outgoing, Session, SessionAction, SessionEvent, SessionState};

fn pong_payload(a: SessionAction) -> Option<Vec<u8>> {
    match a {
        SessionAction::Send(Outgoing::Pong(p)) => Some(p),
        _ => None,
    }
}

#[test]
fn ping_is_answered_with_same_payload() {
    let mut s = Session::new();
    let a = s.on_event(SessionEvent::Received(Frame::Ping(vec![1, 2, 3])));
    assert_eq!(pong_payload(a), Some(vec![1, 2, 3]));
    assert!(s.is_running());
    let b = s.on_event(SessionEvent::Received(Frame::Ping(Vec::new())));
    assert_eq!(pong_payload(b), Some(Vec::new()));
}

#[test]
fn change_sends_reload() {
    let mut s = Session::new();
    assert!(matches!(
        s.on_event(SessionEvent::Changed),
        SessionAction::Send(Outgoing::Reload)
    ));
    assert!(matches!(
        s.on_event(SessionEvent::Lagged),
        SessionAction::Send(Outgoing::Reload)
    ));
    assert_eq!(s.state(), SessionState::Running);
}

#[test]
fn other_frames_are_ignored() {
    let mut s = Session::new();
    assert!(matches!(
        s.on_event(SessionEvent::Received(Frame::Text("hi".to_string()))),
        SessionAction::Nothing
    ));
    assert!(matches!(
        s.on_event(SessionEvent::Received(Frame::Binary(vec![9]))),
        SessionAction::Nothing
    ));
    assert!(matches!(
        s.on_event(SessionEvent::Received(Frame::Pong(vec![9]))),
        SessionAction::Nothing
    ));
    assert!(s.is_running());
}

#[test]
fn close_frame_ends_session_once() {
    let mut s = Session::new();
    assert!(matches!(
        s.on_event(SessionEvent::Received(Frame::Close)),
        SessionAction::Close
    ));
    assert_eq!(s.state(), SessionState::Closed);
    assert!(matches!(s.on_event(SessionEvent::Changed), SessionAction::Nothing));
    assert!(matches!(
        s.on_event(SessionEvent::Received(Frame::Ping(vec![1]))),
        SessionAction::Nothing
    ));
    assert!(matches!(
        s.on_event(SessionEvent::Received(Frame::Close)),
        SessionAction::Nothing
    ));
}

#[test]
fn failures_end_session() {
    for e in [
        SessionEvent::ReceiveFailed,
        SessionEvent::InboundEnded,
        SessionEvent::SubscriptionClosed,
        SessionEvent::SendFailed,
    ] {
        let mut s = Session::new();
        assert!(matches!(s.on_event(e), SessionAction::Close));
        assert!(!s.is_running());
        assert!(matches!(s.on_event(SessionEvent::Changed), SessionAction::Nothing));
    }
}

#[test]
fn every_connected_session_reloads_once() {
    let mut sessions: Vec<Session> = (0..5).map(|_| Session::new()).collect();
    sessions[2].on_event(SessionEvent::ReceiveFailed);
    let reloads = sessions
        .iter_mut()
        .map(|s| s.on_event(SessionEvent::Changed))
        .filter(|a| matches!(a, SessionAction::Send(Outgoing::Reload)))
        .count();
    assert_eq!(reloads, 4);
}

#[test]
fn disconnect_leaves_others_delivering() {
    let mut a = Session::new();
    let mut b = Session::new();
    assert!(matches!(
        a.on_event(SessionEvent::Received(Frame::Close)),
        SessionAction::Close
    ));
    assert!(matches!(
        b.on_event(SessionEvent::Changed),
        SessionAction::Send(Outgoing::Reload)
    ));
    assert!(matches!(a.on_event(SessionEvent::Changed), SessionAction::Nothing));
}
