use webrtc_stream_server::registry::SessionRegistry;
use webrtc_stream_server::router::{classify, route, Dropped, Inbound, MessageData};

fn frame(msg_type: &str, sender: &str, receiver: &str, msg: &str) -> String {
    format!(
        "{{\"msg_type\":\"{}\",\"sender\":\"{}\",\"receiver\":\"{}\",\"msg\":\"{}\"}}",
        msg_type, sender, receiver, msg
    )
}

fn two_sessions() -> SessionRegistry<u32> {
    let mut reg = SessionRegistry::new();
    reg.register("x".to_string(), 1);
    reg.register("y".to_string(), 2);
    reg
}

#[test]
fn decode_reads_all_four_fields() {
    let data = MessageData::decode(&frame("offer", "x", "y", "payload1")).unwrap();
    assert_eq!(data.msg_type, "offer");
    assert_eq!(data.sender, "x");
    assert_eq!(data.receiver, "y");
    assert_eq!(data.msg, "payload1");
}

#[test]
fn decode_unescapes_json_strings() {
    let data = MessageData::decode(r#"{"msg_type":"ice","sender":"a","receiver":"b","msg":"l1\nq\"u"}"#).unwrap();
    assert_eq!(data.msg, "l1\nq\"u");
}

#[test]
fn decode_refuses_missing_or_mistyped_fields() {
    assert!(MessageData::decode(r#"{"msg_type":"offer","sender":"x","receiver":"y"}"#).is_none());
    assert!(MessageData::decode(r#"{"msg_type":"offer","sender":"x","receiver":"y","msg":5}"#).is_none());
    assert!(MessageData::decode("not json").is_none());
    assert!(MessageData::decode("").is_none());
}

#[test]
fn relay_frame_goes_to_the_receiver_only() {
    let reg = two_sessions();
    let f = frame("offer", "x", "y", "payload1");
    assert_eq!(route(&reg, &f), Ok(&2));
}

#[test]
fn unknown_receiver_is_dropped() {
    let reg = two_sessions();
    let f = frame("offer", "x", "nonexistent", "payload1");
    assert_eq!(route(&reg, &f), Err(Dropped::UnknownReceiver));
    assert_eq!(reg.lookup("x"), Some(&1));
}

#[test]
fn heartbeat_is_never_delivered() {
    let reg = two_sessions();
    let f = frame("heartbeat", "x", "y", "");
    assert_eq!(route(&reg, &f), Err(Dropped::Heartbeat));
    assert!(matches!(classify(&f), Inbound::Heartbeat));
}

#[test]
fn undecodable_frame_is_dropped() {
    let reg = two_sessions();
    assert_eq!(route(&reg, "{\"msg_type\":\"offer\"}"), Err(Dropped::Undecodable));
    assert!(matches!(classify("[1,2]"), Inbound::Undecodable));
}

#[test]
fn classify_names_the_receiver() {
    match classify(&frame("answer", "y", "x", "sdp")) {
        Inbound::Relay { receiver } => assert_eq!(receiver, "x"),
        _ => panic!("expected a relay"),
    }
}

#[test]
fn consecutive_frames_reach_the_same_sink_in_order() {
    let reg = two_sessions();
    let mut delivered: Vec<(u32, String)> = Vec::new();
    for f in [frame("offer", "x", "y", "m1"), frame("offer", "x", "y", "m2")] {
        if let Ok(sink) = route(&reg, &f) {
            delivered.push((*sink, f.clone()));
        }
    }
    assert_eq!(delivered.len(), 2);
    assert_eq!(delivered[0], (2, frame("offer", "x", "y", "m1")));
    assert_eq!(delivered[1], (2, frame("offer", "x", "y", "m2")));
}
