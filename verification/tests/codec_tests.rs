use bing_client::codec::FrameCodec;
use bing_client::session::{echo_frame, handshake_frame, stop_frame};

#[test]
fn decode_keeps_valid_json_in_order() {
    let raw = "{\"a\":1}\x1e[1,2]\x1enot json\x1e";
    let records = FrameCodec::decode(raw);
    assert_eq!(records.len(), 2);
    assert_eq!(records[0], "{\"a\":1}");
    assert_eq!(records[1], "[1,2]");
}

#[test]
fn decode_empty_input_yields_nothing() {
    let records = FrameCodec::decode("");
    assert_eq!(records.len(), 0);
}

#[test]
fn decode_discards_trailing_empty_segment() {
    let records = FrameCodec::decode("{}\x1e");
    assert_eq!(records, vec!["{}".to_string()]);
}

#[test]
fn decode_without_separator_keeps_one_record() {
    let records = FrameCodec::decode("{\"type\":6}");
    assert_eq!(records, vec!["{\"type\":6}".to_string()]);
}

#[test]
fn decode_drops_only_the_malformed_records() {
    let raw = "oops\x1e{\"type\":1}\x1e\x1e{\"type\":2}";
    let records = FrameCodec::decode(raw);
    assert_eq!(records, vec!["{\"type\":1}".to_string(), "{\"type\":2}".to_string()]);
}

#[test]
fn encode_appends_exactly_one_separator() {
    let s = FrameCodec::encode("{\"protocol\":\"json\",\"version\":1}");
    assert_eq!(s, "{\"protocol\":\"json\",\"version\":1}\x1e");
}

#[test]
fn control_frames_are_the_documented_records() {
    assert_eq!(handshake_frame(), "{\"protocol\":\"json\",\"version\":1}\x1e");
    assert_eq!(echo_frame(), "{\"type\":6}\x1e");
    assert_eq!(
        stop_frame(),
        "{\"arguments\":[{}],\"invocationId\":\"3\",\"target\":\"stop\",\"type\":1}\x1e"
    );
}
