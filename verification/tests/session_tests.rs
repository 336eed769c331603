use bing_client::record::decode_records;
use bing_client::stop_signal::StopSignal;
use bing_client::session::{
    JoinOutcome, SessionInput, SessionState, StreamSession, stream_url,
};
use bing_client::types::bot_easy_resp::{BotResp, Image};
use bing_client::types::chat_type::Chat;

fn streaming_session() -> StreamSession {
    let mut session = StreamSession::new();
    session.transport_connected();
    session.handshake_done();
    session
}

fn frame_input(raw: &str) -> SessionInput {
    SessionInput::Records(decode_records(raw))
}

#[test]
fn heartbeats_echo_once_each_and_yield_no_event() {
    let mut session = streaming_session();
    let out = session.step(frame_input("{\"type\":6}\x1e{\"type\":6}\x1e"), false);
    assert_eq!(out.heartbeat_echoes, 2);
    assert_eq!(out.events.len(), 0);
    assert_eq!(out.spawned.len(), 0);
    assert!(!out.send_stop);
    assert!(matches!(session.state, SessionState::Streaming));
}

#[test]
fn cumulative_text_updates_come_through_in_order() {
    let mut session = streaming_session();
    let raw = "{\"type\":1,\"arguments\":[{\"messages\":[{\"text\":\"Hi\"}]}]}\x1e";
    let out = session.step(frame_input(raw), false);
    assert_eq!(out.events, vec![BotResp::Text("Hi".to_string())]);
}

#[test]
fn terminal_record_ends_the_loop_and_keeps_jobs_for_drain() {
    let mut session = streaming_session();
    let gen = "{\"type\":1,\"arguments\":[{\"messages\":[{\"text\":\"a cat\",\"messageType\":\"GenerateContentQuery\",\"messageId\":\"m1\"}]}]}\x1e";
    let out = session.step(frame_input(gen), false);
    assert_eq!(out.events.len(), 0);
    assert_eq!(out.spawned.len(), 1);
    assert_eq!(out.spawned[0].prompt, "a cat");
    let out = session.step(frame_input("{\"type\":2,\"item\":{\"messages\":[]}}\x1e"), false);
    assert_eq!(out.events.len(), 0);
    assert!(matches!(session.state, SessionState::Draining));
    let images = vec![Image { name: "bing_image_1.jpg".to_string(), url: "https://i".to_string() }];
    let drained = session.drain(vec![JoinOutcome::Completed(BotResp::Image(images.clone()))]);
    assert_eq!(drained, vec![BotResp::Image(images)]);
    assert!(matches!(session.state, SessionState::Closed));
}

#[test]
fn records_after_the_terminal_one_are_never_read() {
    let mut session = streaming_session();
    let raw = "{\"type\":3}\x1e{\"type\":6}\x1e{\"type\":1,\"arguments\":[{\"messages\":[{\"text\":\"late\"}]}]}\x1e";
    let out = session.step(frame_input(raw), false);
    assert_eq!(out.events.len(), 0);
    assert_eq!(out.heartbeat_echoes, 0);
    assert!(matches!(session.state, SessionState::Draining));
}

#[test]
fn cancellation_sends_exactly_one_stop_record() {
    let mut session = streaming_session();
    let out1 = session.step(frame_input("{\"type\":6}\x1e"), true);
    assert!(out1.send_stop);
    let out2 = session.step(frame_input("{\"type\":6}\x1e"), true);
    assert!(!out2.send_stop);
    let out3 = session.step(frame_input("{\"type\":3}\x1e"), true);
    assert!(!out3.send_stop);
    assert!(matches!(session.state, SessionState::Draining));
    let drained = session.drain(Vec::new());
    assert_eq!(drained.len(), 0);
    assert!(matches!(session.state, SessionState::Closed));
}

#[test]
fn close_frame_is_natural_completion() {
    let mut session = streaming_session();
    let out = session.step(SessionInput::CloseFrame, false);
    assert_eq!(out.events.len(), 0);
    assert!(matches!(session.state, SessionState::Draining));
}

#[test]
fn recoverable_transport_errors_are_skipped() {
    let mut session = streaming_session();
    let out = session.step(SessionInput::RecoverableError, false);
    assert_eq!(out.events.len(), 0);
    assert!(matches!(session.state, SessionState::Streaming));
    let out = session.step(SessionInput::TerminalError, false);
    assert_eq!(out.events.len(), 0);
    assert!(matches!(session.state, SessionState::Draining));
}

#[test]
fn panicked_job_drains_to_an_apology() {
    let mut session = streaming_session();
    session.step(SessionInput::Ended, false);
    let drained = session.drain(vec![JoinOutcome::Panicked("boom".to_string())]);
    assert_eq!(
        drained,
        vec![BotResp::Apology(
            "Bing Copilot Draw Image Join Failed; Error Message: boom".to_string()
        )]
    );
}

#[test]
fn malformed_records_in_a_frame_are_ignored() {
    let mut session = streaming_session();
    let out = session.step(frame_input("garbage\x1e{\"type\":6}\x1e{\"foo\":1}\x1e"), false);
    assert_eq!(out.heartbeat_echoes, 1);
    assert_eq!(out.events.len(), 0);
    assert!(matches!(session.state, SessionState::Streaming));
}

#[test]
fn the_stop_flag_is_shared_and_idempotent() {
    let signal = StopSignal::new();
    assert!(!signal.check_stop());
    let handle = signal.stop_fn();
    handle.trigger();
    assert!(signal.check_stop());
    handle.trigger();
    assert!(signal.check_stop());
}

#[test]
fn stream_url_needs_the_encrypted_token() {
    let mut chat = Chat::new("chat-1".to_string());
    assert!(stream_url(&chat).is_err());
    chat.install_signature("plain".to_string(), "token value".to_string());
    let url = stream_url(&chat).unwrap();
    assert_eq!(
        url,
        "wss://sydney.bing.com/sydney/ChatHub?sec_access_token=token%20value"
    );
}
