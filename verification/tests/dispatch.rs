use base64::Engine;
use qwen_tts_realtime::codec::InboundEvent;
use qwen_tts_realtime::dispatch::{
    after_event, classify_frame, reason_str, run_frames, run_session, Delivery, Directive, Frame,
    QwenTtsRealtimeCallback, Termination,
};

/// Records every invocation in order; decodes audio deltas like the demo
/// sink; asks the loop to stop when the server's finish signal arrives.
struct RecordingCallback {
    calls: Vec<String>,
    audio: Vec<Vec<u8>>,
}

impl RecordingCallback {
    fn new() -> Self {
        RecordingCallback { calls: Vec::new(), audio: Vec::new() }
    }
}

impl QwenTtsRealtimeCallback for RecordingCallback {
    fn on_open(&mut self) {
        self.calls.push("open".to_string());
    }

    fn on_close(&mut self, close_msg: &str) {
        self.calls.push(format!("close:{}", close_msg));
    }

    fn on_event(&mut self, event: &InboundEvent) -> bool {
        match event {
            InboundEvent::SessionCreated => {
                self.calls.push("event:session.created".to_string());
                false
            }
            InboundEvent::AudioDelta { base64_payload } => {
                self.calls.push("event:response.audio.delta".to_string());
                let engine = base64::engine::GeneralPurpose::new(
                    &base64::alphabet::STANDARD,
                    base64::engine::GeneralPurposeConfig::new().with_decode_allow_trailing_bits(true),
                );
                let bytes = engine.decode(base64_payload).unwrap();
                self.audio.push(bytes);
                false
            }
            InboundEvent::ResponseDone => {
                self.calls.push("event:response.done".to_string());
                false
            }
            InboundEvent::SessionFinished => {
                self.calls.push("event:session.finished".to_string());
                true
            }
            InboundEvent::Unknown { raw_type } => {
                self.calls.push(format!("event:unknown:{}", raw_type));
                false
            }
        }
    }

    fn on_finish(&mut self, close_msg: &str) {
        self.calls.push(format!("finish:{}", close_msg));
    }
}

fn text(s: &str) -> Frame {
    Frame::Text(s.to_string())
}

#[test]
fn test_tts_generate_frames() {
    // Scenario: configure, stream text, finish; the server answers with the
    // full inbound sequence and the callback sees the decoded audio in order.
    let mut cb = RecordingCallback::new();
    let frames = vec![
        text("{\"type\":\"session.created\"}"),
        text("{\"type\":\"response.audio.delta\",\"delta\":\"AAA=\"}"),
        text("{\"type\":\"response.audio.delta\",\"delta\":\"BBB=\"}"),
        text("{\"type\":\"response.done\"}"),
        text("{\"type\":\"session.finished\"}"),
    ];
    let (log, term) = run_session(true, &frames, &mut cb).unwrap();
    assert_eq!(term, Some(Termination::Finished));
    assert_eq!(log.len(), 5);
    assert_eq!(cb.audio, vec![vec![0x00, 0x00], vec![0x04, 0x10]]);
    assert_eq!(
        cb.calls,
        vec![
            "open",
            "event:session.created",
            "event:response.audio.delta",
            "event:response.audio.delta",
            "event:response.done",
            "event:session.finished",
            "finish:session.finished",
        ]
    );
    // on_open first, on_finish exactly once and last
    assert_eq!(cb.calls.iter().filter(|c| c.starts_with("finish:")).count(), 1);
    assert!(cb.calls.last().unwrap().starts_with("finish:"));
}

#[test]
fn test_remote_close_mid_stream() {
    // The remote end closes without a finish signal: on_close fires, then
    // on_finish with the close reason, and nothing further is dispatched.
    let mut cb = RecordingCallback::new();
    cb.on_open();
    let frames = vec![
        text("{\"type\":\"session.created\"}"),
        Frame::Close,
        text("{\"type\":\"response.done\"}"),
    ];
    let (log, term) = run_frames(&frames, &mut cb);
    assert_eq!(term, Some(Termination::ClosedByServer));
    assert_eq!(log.len(), 2);
    assert!(matches!(log[1], Delivery::Close));
    assert_eq!(
        cb.calls,
        vec![
            "open",
            "event:session.created",
            "close:Connection closed by server",
            "finish:connection closed by server",
        ]
    );
}

#[test]
fn test_malformed_frame_does_not_stop_the_loop() {
    let mut cb = RecordingCallback::new();
    let frames = vec![
        text("not json at all"),
        text("{\"missing\":\"type\"}"),
        text("{\"type\":\"session.created\"}"),
        text("{\"type\":\"session.finished\"}"),
    ];
    let (log, term) = run_frames(&frames, &mut cb);
    assert_eq!(term, Some(Termination::Finished));
    assert_eq!(log.len(), 2);
    assert_eq!(
        cb.calls,
        vec!["event:session.created", "event:session.finished", "finish:session.finished"]
    );
}

#[test]
fn test_binary_frames_are_ignored() {
    let mut cb = RecordingCallback::new();
    let frames = vec![Frame::Other, text("{\"type\":\"session.created\"}"), Frame::Other];
    let (log, term) = run_frames(&frames, &mut cb);
    assert_eq!(term, None);
    assert_eq!(log.len(), 1);
    assert_eq!(cb.calls, vec!["event:session.created"]);
}

#[test]
fn test_read_error_stops_abnormally() {
    let mut cb = RecordingCallback::new();
    let frames = vec![
        text("{\"type\":\"session.created\"}"),
        Frame::ReadFailed,
        text("{\"type\":\"session.finished\"}"),
    ];
    let (log, term) = run_frames(&frames, &mut cb);
    assert_eq!(term, Some(Termination::TransportError));
    assert_eq!(log.len(), 1);
    assert_eq!(cb.calls, vec!["event:session.created", "finish:transport error"]);
}

#[test]
fn test_finish_signal_stops_and_names_its_reason() {
    // Nothing after the finish signal is processed, and the reason names the
    // signal, distinct from every error-driven reason.
    let mut cb = RecordingCallback::new();
    let frames = vec![text("{\"type\":\"session.finished\"}"), text("{\"type\":\"session.created\"}")];
    let (log, term) = run_frames(&frames, &mut cb);
    assert_eq!(term, Some(Termination::Finished));
    assert_eq!(log.len(), 1);
    assert_eq!(cb.calls, vec!["event:session.finished", "finish:session.finished"]);
    assert_eq!(reason_str(Termination::Finished), "session.finished");
    assert_ne!(reason_str(Termination::Finished), reason_str(Termination::TransportError));
    assert_ne!(reason_str(Termination::Finished), reason_str(Termination::ClosedByServer));
    assert_ne!(reason_str(Termination::Finished), reason_str(Termination::Aborted));
    assert_ne!(reason_str(Termination::Finished), reason_str(Termination::Cancelled));
    assert_eq!(reason_str(Termination::Cancelled), "cancelled by caller");
}

#[test]
fn test_handshake_rejected_fires_no_callbacks() {
    // Scenario: the handshake is rejected (for instance an invalid token).
    // Session creation fails synchronously and no callback reaction fires.
    let mut cb = RecordingCallback::new();
    let frames = vec![text("{\"type\":\"session.created\"}")];
    let out = run_session(false, &frames, &mut cb);
    assert!(out.is_none());
    assert!(cb.calls.is_empty());
    assert!(cb.audio.is_empty());
}

#[test]
fn test_unknown_events_are_still_delivered() {
    let mut cb = RecordingCallback::new();
    let frames = vec![text("{\"type\":\"session.warning\"}")];
    let (log, term) = run_frames(&frames, &mut cb);
    assert_eq!(term, None);
    assert_eq!(log.len(), 1);
    assert_eq!(cb.calls, vec!["event:unknown:session.warning"]);
}

/// Asks the loop to stop on every event, whatever it is.
struct AbortAll;

impl QwenTtsRealtimeCallback for AbortAll {
    fn on_open(&mut self) {}
    fn on_close(&mut self, _close_msg: &str) {}
    fn on_event(&mut self, _event: &InboundEvent) -> bool {
        true
    }
    fn on_finish(&mut self, _close_msg: &str) {}
}

#[test]
fn test_abort_on_other_event() {
    // A callback may request a stop on any event; the reason then names the
    // abort, not the finish signal.
    let mut cb = AbortAll;
    let frames = vec![text("{\"type\":\"response.done\"}"), text("{\"type\":\"session.created\"}")];
    let (log, term) = run_frames(&frames, &mut cb);
    assert_eq!(term, Some(Termination::Aborted));
    assert_eq!(log.len(), 1);
    assert_eq!(reason_str(Termination::Aborted), "aborted by callback");
}

#[test]
fn test_classify_frame_and_after_event() {
    match classify_frame(&text("{\"type\":\"session.created\"}")) {
        Directive::Deliver(InboundEvent::SessionCreated) => {}
        _ => panic!("text frame with a known type must be delivered"),
    }
    assert!(matches!(classify_frame(&text("garbage")), Directive::Ignore));
    assert!(matches!(classify_frame(&Frame::Other), Directive::Ignore));
    assert!(matches!(classify_frame(&Frame::Close), Directive::CloseConnection));
    assert!(matches!(classify_frame(&Frame::ReadFailed), Directive::Fail));

    assert_eq!(after_event(&InboundEvent::SessionFinished, false), Some(Termination::Finished));
    assert_eq!(after_event(&InboundEvent::ResponseDone, true), Some(Termination::Aborted));
    assert_eq!(after_event(&InboundEvent::ResponseDone, false), None);
}
