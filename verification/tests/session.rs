use qwen_tts_realtime::audio_format::AudioFormat;
use qwen_tts_realtime::odps::Odps;
use qwen_tts_realtime::session::{QwenTtsRealtime, SessionError, SessionState};

fn open_session() -> QwenTtsRealtime {
    let mut s = QwenTtsRealtime::new();
    s.begin_connect();
    s.handshake_succeeded();
    s
}

#[test]
fn test_commands_rejected_before_connect() {
    let fmt = AudioFormat::pcm_24000hz_mono_16bit();
    let mut s = QwenTtsRealtime::new();
    assert_eq!(
        s.update_session("Cherry", &fmt, "server_commit"),
        Err(SessionError::NotConnected)
    );
    assert_eq!(s.append_text("hello"), Err(SessionError::NotConnected));
    assert_eq!(s.finish(), Err(SessionError::NotConnected));
    assert_eq!(s.state, SessionState::Idle);
}

#[test]
fn test_lifecycle_transitions() {
    let fmt = AudioFormat::pcm_24000hz_mono_16bit();
    let mut s = open_session();
    assert_eq!(s.state, SessionState::Open);
    s.update_session("Cherry", &fmt, "server_commit").unwrap();
    assert_eq!(s.state, SessionState::Configured);
    s.append_text("hello").unwrap();
    assert_eq!(s.state, SessionState::Streaming);
    s.append_text("world").unwrap();
    assert_eq!(s.state, SessionState::Streaming);
    s.finish().unwrap();
    assert_eq!(s.state, SessionState::Finishing);
    s.mark_finished();
    assert_eq!(s.state, SessionState::Finished);
}

#[test]
fn test_commands_rejected_after_terminal() {
    let fmt = AudioFormat::pcm_24000hz_mono_16bit();
    let mut s = open_session();
    s.mark_closed();
    assert_eq!(s.state, SessionState::Closed);
    assert_eq!(
        s.update_session("Cherry", &fmt, "server_commit"),
        Err(SessionError::SessionClosed)
    );
    assert_eq!(s.append_text("hello"), Err(SessionError::SessionClosed));
    assert_eq!(s.finish(), Err(SessionError::SessionClosed));
    // terminal states are final
    s.mark_finished();
    assert_eq!(s.state, SessionState::Closed);
}

#[test]
fn test_append_before_configure_is_permitted() {
    // The chosen policy: an append issued before any configure is accepted
    // and sent; ordering and id freshness are unchanged.
    let fmt = AudioFormat::pcm_24000hz_mono_16bit();
    let mut s = open_session();
    let first = s.append_text("early").unwrap();
    assert!(first.contains("\"event_id\":\"event_0\""));
    assert_eq!(s.state, SessionState::Streaming);
    let second = s.update_session("Cherry", &fmt, "server_commit").unwrap();
    assert!(second.contains("\"event_id\":\"event_1\""));
    assert_eq!(s.state, SessionState::Streaming);
}

#[test]
fn test_finish_twice_is_harmless() {
    let mut s = open_session();
    let first = s.finish().unwrap();
    let second = s.finish().unwrap();
    assert_ne!(first, second);
    assert_eq!(s.state, SessionState::Finishing);
}

#[test]
fn test_event_ids_are_distinct() {
    let fmt = AudioFormat::pcm_24000hz_mono_16bit();
    let mut s = open_session();
    let mut frames = Vec::new();
    frames.push(s.update_session("Cherry", &fmt, "server_commit").unwrap());
    for text in ["a", "b", "c"] {
        frames.push(s.append_text(text).unwrap());
    }
    frames.push(s.finish().unwrap());
    for (i, frame) in frames.iter().enumerate() {
        assert!(frame.contains(&format!("\"event_id\":\"event_{}\"", i)));
    }
    for i in 0..frames.len() {
        for j in (i + 1)..frames.len() {
            assert_ne!(frames[i], frames[j]);
        }
    }
}

#[test]
fn test_handshake_failure_produces_no_session() {
    let mut s = QwenTtsRealtime::new();
    s.begin_connect();
    s.handshake_failed();
    assert_eq!(s.state, SessionState::Errored);
    assert_eq!(s.finish(), Err(SessionError::SessionClosed));
}

#[test]
fn test_audio_format_new() {
    let fmt = AudioFormat::new("pcm", 24000, "mono", "16bit", "pcm16");
    assert_eq!(fmt.format, "pcm");
    assert_eq!(fmt.sample_rate, 24000);
    assert_eq!(fmt.channels, "mono");
    assert_eq!(fmt.bit_rate, "16bit");
    assert_eq!(fmt.format_str, "pcm16");
}

#[test]
fn test_odps_new() {
    let o = Odps::new("ak", "sk", "http://service.example/api");
    assert_eq!(o.ak, "ak");
    assert_eq!(o.sk, "sk");
    assert_eq!(o.endpoint, "http://service.example/api");
    Odps::get_project("proj", None);
    Odps::get_project("proj", Some("schema"));
}
