use karaoke::{
    accepts_protocol, greeting, heartbeat_frame, inbound_step, live_frame, protocol, InFrame,
    LiveCommand, OutFrame, Outbound, WebsocketCommand, HEARTBEAT_SECS,
};

fn is_text(f: &OutFrame, s: &str) -> bool {
    matches!(f, OutFrame::Text { text } if text == s)
}

fn is_heartbeat(f: &OutFrame) -> bool {
    matches!(f, OutFrame::Ping { data } if data == b"Ping")
}

#[test]
fn protocol_is_rust_websocket() {
    assert_eq!(protocol(), "rust-websocket");
}

#[test]
fn accepts_only_expected_protocol() {
    assert!(accepts_protocol(&vec![String::from("chat"), String::from("rust-websocket")]));
    assert!(!accepts_protocol(&vec![String::from("chat")]));
    assert!(!accepts_protocol(&vec![]));
    assert!(!accepts_protocol(&vec![String::from("rust-websocke")]));
}

#[test]
fn greeting_and_live_frames() {
    assert!(is_text(&greeting(), "Hello"));
    assert!(is_text(&live_frame(LiveCommand::Stop), "Stop"));
    assert!(is_heartbeat(&heartbeat_frame()));
}

#[test]
fn inbound_close_stops_and_signals() {
    let s = inbound_step(InFrame::Close);
    assert!(s.stop);
    assert!(matches!(s.control, Some(WebsocketCommand::Close)));
}

#[test]
fn inbound_ping_is_forwarded() {
    let s = inbound_step(InFrame::Ping { data: vec![1, 2, 3] });
    assert!(!s.stop);
    match s.control {
        Some(WebsocketCommand::Ping { data }) => assert_eq!(data, vec![1, 2, 3]),
        _ => panic!("expected a ping"),
    }
}

#[test]
fn inbound_text_and_pong_change_nothing() {
    for f in [InFrame::Text { text: String::from("hi") }, InFrame::Pong, InFrame::Other] {
        let s = inbound_step(f);
        assert!(!s.stop);
        assert!(s.control.is_none());
    }
}

#[test]
fn idle_session_gets_heartbeat_every_twenty_seconds() {
    assert_eq!(HEARTBEAT_SECS, 20);
    let mut out = Outbound::new(0);
    let mut beats = Vec::new();
    for now in 1..=65u64 {
        let plan = out.tick(now, None, None);
        assert!(!plan.close);
        if !plan.frames.is_empty() {
            assert_eq!(plan.frames.len(), 1);
            assert!(is_heartbeat(&plan.frames[0]));
            beats.push(now);
        }
    }
    assert_eq!(beats, vec![20, 40, 60]);
}

#[test]
fn tick_sends_event_then_pong_then_heartbeat() {
    let mut out = Outbound::new(0);
    let plan = out.tick(
        20,
        Some(LiveCommand::Stop),
        Some(WebsocketCommand::Ping { data: vec![7] }),
    );
    assert!(!plan.close);
    assert_eq!(plan.frames.len(), 3);
    assert!(is_text(&plan.frames[0], "Stop"));
    assert!(matches!(&plan.frames[1], OutFrame::Pong { data } if data == &vec![7u8]));
    assert!(is_heartbeat(&plan.frames[2]));
    let plan = out.tick(21, None, None);
    assert!(plan.frames.is_empty());
}

#[test]
fn close_signal_ends_one_session_only() {
    let mut a = Outbound::new(0);
    let mut b = Outbound::new(0);
    let step = inbound_step(InFrame::Close);
    let plan_a = a.tick(25, Some(LiveCommand::Stop), step.control);
    assert!(plan_a.close);
    assert_eq!(plan_a.frames.len(), 1);
    assert!(is_text(&plan_a.frames[0], "Stop"));
    let plan_b = b.tick(25, Some(LiveCommand::Stop), None);
    assert!(!plan_b.close);
    assert_eq!(plan_b.frames.len(), 2);
    assert!(is_text(&plan_b.frames[0], "Stop"));
    assert!(is_heartbeat(&plan_b.frames[1]));
}
