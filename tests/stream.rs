use espionox::stream::{ForwarderState, RecvOutcome, SendOutcome};
use espionox::{ForwardAction, Forwarder, ReceiverHandle, TokenChannel, CHANNEL_CAPACITY};

fn strings(v: &[&str]) -> Vec<String> {
    v.iter().map(|s| s.to_string()).collect()
}

#[test]
fn tokens_arrive_in_order_then_end() {
    let mut h = ReceiverHandle::start(strings(&["The", " cat", " sat"]));
    assert_eq!(h.next(), Some("The".to_string()));
    assert_eq!(h.next(), Some(" cat".to_string()));
    assert_eq!(h.next(), Some(" sat".to_string()));
    assert_eq!(h.next(), None);
    assert_eq!(h.next(), None);
}

#[test]
fn long_stream_passes_the_bounded_channel_intact() {
    let src: Vec<String> = (0..173).map(|i| format!("t{}", i)).collect();
    let mut h = ReceiverHandle::start(src.clone());
    let mut got = Vec::new();
    while let Some(t) = h.next() {
        got.push(t);
    }
    assert_eq!(got, src);
}

#[test]
fn empty_stream_ends_at_once() {
    let mut h = ReceiverHandle::start(Vec::new());
    assert_eq!(h.next(), None);
}

#[test]
fn dropping_the_handle_mid_stream_stops_the_forwarder() {
    let src: Vec<String> = (0..120).map(|i| format!("t{}", i)).collect();
    let mut h = ReceiverHandle::start(src);
    assert_eq!(h.next(), Some("t0".to_string()));
    assert_eq!(h.producer_state(), ForwarderState::Running);
    h.close();
    assert_eq!(h.producer_state(), ForwarderState::Cancelled);
}

#[test]
fn channel_is_bounded_fifo() {
    let mut c = TokenChannel::new();
    for i in 0..CHANNEL_CAPACITY {
        assert!(matches!(c.try_send(format!("{}", i)), SendOutcome::Sent));
    }
    assert_eq!(CHANNEL_CAPACITY, 50);
    assert!(matches!(c.try_send("x".to_string()), SendOutcome::Full(t) if t == "x"));
    assert!(matches!(c.try_recv(), RecvOutcome::Token(t) if t == "0"));
    assert!(matches!(c.try_send("y".to_string()), SendOutcome::Sent));
    c.close_sender();
    for i in 1..CHANNEL_CAPACITY {
        assert!(matches!(c.try_recv(), RecvOutcome::Token(t) if t == format!("{}", i)));
    }
    assert!(matches!(c.try_recv(), RecvOutcome::Token(t) if t == "y"));
    assert!(matches!(c.try_recv(), RecvOutcome::Ended));
}

#[test]
fn channel_refuses_after_consumer_leaves() {
    let mut c = TokenChannel::new();
    assert!(matches!(c.try_recv(), RecvOutcome::Empty));
    c.try_send("a".to_string());
    c.close_receiver();
    assert_eq!(c.len(), 0);
    assert!(matches!(c.try_send("b".to_string()), SendOutcome::Closed(t) if t == "b"));
}

#[test]
fn forwarder_states() {
    let mut f = Forwarder::new();
    assert!(f.is_running());
    assert!(matches!(f.on_source(Some("a".to_string())), ForwardAction::Send(t) if t == "a"));
    f.on_sent(true);
    assert!(f.is_running());
    f.on_sent(false);
    assert_eq!(f.state, ForwarderState::Cancelled);
    let mut g = Forwarder::new();
    assert!(matches!(g.on_source(None), ForwardAction::CloseChannel));
    assert_eq!(g.state, ForwarderState::Ended);
}
