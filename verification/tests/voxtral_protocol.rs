use base64::Engine;
use cloud_transcription::error::{Mode, TranscriptionError};
use cloud_transcription::json::json_quote;
use cloud_transcription::session::{handshake_step, CollectStep, HandshakeStep, Incoming, TranscriptCollector};
use cloud_transcription::streaming::{AudioAction, AudioInput, ServerAction, StreamingTextEvent, StreamingTranscription};
use cloud_transcription::voxtral::{
    append_message, classify_event_fields, decode_server_event, upload_messages, ServerEvent, VoxtralEngine, CHUNK_SIZE,
    END_OF_AUDIO_MESSAGE, SESSION_UPDATE_MESSAGE,
};

fn text(s: &str) -> Incoming {
    Incoming::Text(s.to_string())
}

#[test]
fn voxtral_engine_keeps_its_configuration() {
    let engine = VoxtralEngine::new("key-1".to_string(), "voxtral-mini".to_string());
    assert_eq!(engine.model(), "voxtral-mini");
    assert_eq!(engine.authorization(), "Bearer key-1");
    assert_eq!(
        engine.ws_url(),
        "wss://api.mistral.ai/v1/audio/transcriptions/realtime?model=voxtral-mini"
    );
}

#[test]
fn session_update_declares_pcm_s16le_at_16khz() {
    let v: serde_json::Value = serde_json::from_str(SESSION_UPDATE_MESSAGE).unwrap();
    assert_eq!(v["type"], "session.update");
    assert_eq!(v["session"]["audio_format"]["encoding"], "pcm_s16le");
    assert_eq!(v["session"]["audio_format"]["sample_rate"], 16000);
    let end: serde_json::Value = serde_json::from_str(END_OF_AUDIO_MESSAGE).unwrap();
    assert_eq!(end["type"], "input_audio.end");
}

#[test]
fn append_message_carries_base64_audio() {
    assert_eq!(
        append_message(b"hello"),
        "{\"audio\":\"aGVsbG8=\",\"type\":\"input_audio.append\"}"
    );
    assert_eq!(append_message(b""), "{\"audio\":\"\",\"type\":\"input_audio.append\"}");
}

#[test]
fn upload_messages_cut_pcm_into_pieces() {
    let pcm: Vec<u8> = (0..70000u32).map(|i| (i % 251) as u8).collect();
    let messages = upload_messages(&pcm);
    assert_eq!(messages.len(), 4);
    assert_eq!(messages[3], END_OF_AUDIO_MESSAGE);
    let mut joined: Vec<u8> = Vec::new();
    for (k, m) in messages[..3].iter().enumerate() {
        let v: serde_json::Value = serde_json::from_str(m).unwrap();
        assert_eq!(v["type"], "input_audio.append");
        let audio = v["audio"].as_str().unwrap();
        let bytes = base64::engine::general_purpose::STANDARD.decode(audio).unwrap();
        if k < 2 {
            assert_eq!(bytes.len(), CHUNK_SIZE);
        } else {
            assert_eq!(bytes.len(), 70000 - 2 * CHUNK_SIZE);
        }
        joined.extend_from_slice(&bytes);
    }
    assert_eq!(joined, pcm);
}

#[test]
fn upload_messages_of_exact_multiple_and_of_nothing() {
    assert_eq!(upload_messages(&vec![7u8; CHUNK_SIZE * 2]).len(), 3);
    let none = upload_messages(&[]);
    assert_eq!(none, vec![END_OF_AUDIO_MESSAGE.to_string()]);
}

#[test]
fn decode_recognises_each_event() {
    assert!(matches!(
        decode_server_event("{\"type\":\"session.created\",\"session\":{}}"),
        Ok(ServerEvent::SessionCreated)
    ));
    match decode_server_event("{\"type\":\"transcription.text.delta\",\"text\":\"Hi\"}") {
        Ok(ServerEvent::TextDelta(Some(t))) => assert_eq!(t, "Hi"),
        _ => panic!("expected a delta"),
    }
    assert!(matches!(
        decode_server_event("{\"type\":\"transcription.text.delta\",\"text\":5}"),
        Ok(ServerEvent::TextDelta(None))
    ));
    assert!(matches!(
        decode_server_event("{\"type\":\"transcription.done\"}"),
        Ok(ServerEvent::Done(None))
    ));
    assert!(matches!(
        decode_server_event("{\"type\":\"transcription.language\"}"),
        Ok(ServerEvent::Other)
    ));
    assert!(matches!(decode_server_event("[1,2]"), Ok(ServerEvent::Other)));
}

#[test]
fn error_event_message_comes_from_message_then_error_message() {
    match decode_server_event("{\"type\":\"error\",\"message\":\"m\",\"error\":{\"message\":\"x\"}}") {
        Ok(ServerEvent::Failed(m)) => assert_eq!(m, "m"),
        _ => panic!("expected a failure"),
    }
    match decode_server_event("{\"type\":\"error\",\"error\":{\"message\":\"x\"}}") {
        Ok(ServerEvent::Failed(m)) => assert_eq!(m, "x"),
        _ => panic!("expected a failure"),
    }
    match decode_server_event("{\"type\":\"error\"}") {
        Ok(ServerEvent::Failed(m)) => assert_eq!(m, "Unknown error"),
        _ => panic!("expected a failure"),
    }
}

#[test]
fn decode_reports_the_parser_message() {
    match decode_server_event("not json") {
        Err(e) => {
            let expected = serde_json::from_str::<serde_json::Value>("not json").unwrap_err();
            assert_eq!(e, expected.to_string());
        }
        Ok(_) => panic!("expected a parse failure"),
    }
}

#[test]
fn handshake_waits_for_session_created() {
    assert!(matches!(handshake_step(text("{\"type\":\"ping\"}"), Mode::Batch), HandshakeStep::Waiting));
    assert!(matches!(handshake_step(Incoming::Close, Mode::Batch), HandshakeStep::Waiting));
    assert!(matches!(handshake_step(Incoming::Other, Mode::Batch), HandshakeStep::Waiting));
    assert!(matches!(
        handshake_step(text("{\"type\":\"session.created\"}"), Mode::Streaming),
        HandshakeStep::Ready
    ));
}

#[test]
fn handshake_failures() {
    match handshake_step(Incoming::Ended, Mode::Batch) {
        HandshakeStep::Failed(e) => assert_eq!(e.message(), "Voxtral: did not receive session.created"),
        _ => panic!("expected a failure"),
    }
    match handshake_step(Incoming::Ended, Mode::Streaming) {
        HandshakeStep::Failed(e) => {
            assert_eq!(e.message(), "Voxtral streaming: did not receive session.created")
        }
        _ => panic!("expected a failure"),
    }
    match handshake_step(Incoming::ReadError("reset".to_string()), Mode::Streaming) {
        HandshakeStep::Failed(e) => assert_eq!(e.message(), "reset"),
        _ => panic!("expected a failure"),
    }
    match handshake_step(text("{oops"), Mode::Batch) {
        HandshakeStep::Failed(TranscriptionError::MalformedJson(_)) => {}
        _ => panic!("expected a parse failure"),
    }
}

#[test]
fn deltas_accumulate_and_close_completes_trimmed() {
    let mut c = TranscriptCollector::new(Mode::Batch);
    match c.on_message(text("{\"type\":\"transcription.text.delta\",\"text\":\" Hello\"}")) {
        CollectStep::Appended(d) => assert_eq!(d, " Hello"),
        _ => panic!("expected a delta"),
    }
    c.on_message(text("{\"type\":\"transcription.text.delta\",\"text\":\" world \"}"));
    assert_eq!(c.text(), " Hello world ");
    assert!(matches!(c.on_message(Incoming::Other), CollectStep::Continue));
    match c.on_message(Incoming::Close) {
        CollectStep::Finished { text, done } => {
            assert_eq!(text, "Hello world");
            assert!(!done);
        }
        _ => panic!("expected completion"),
    }
}

#[test]
fn final_text_replaces_deltas() {
    let mut c = TranscriptCollector::new(Mode::Batch);
    c.on_message(text("{\"type\":\"transcription.text.delta\",\"text\":\"draft\"}"));
    match c.on_message(text("{\"type\":\"transcription.done\",\"text\":\"  Final text \"}")) {
        CollectStep::Finished { text, done } => {
            assert_eq!(text, "Final text");
            assert!(done);
        }
        _ => panic!("expected completion"),
    }
    assert_eq!(c.text(), "  Final text ");
}

#[test]
fn done_without_text_keeps_the_deltas() {
    let mut c = TranscriptCollector::new(Mode::Batch);
    c.on_message(text("{\"type\":\"transcription.text.delta\",\"text\":\"kept \"}"));
    match c.on_message(text("{\"type\":\"transcription.done\"}")) {
        CollectStep::Finished { text, done } => {
            assert_eq!(text, "kept");
            assert!(done);
        }
        _ => panic!("expected completion"),
    }
}

#[test]
fn collector_failures() {
    let mut c = TranscriptCollector::new(Mode::Batch);
    match c.on_message(text("{\"type\":\"error\",\"message\":\"quota\"}")) {
        CollectStep::Failed(e) => assert_eq!(e.message(), "Voxtral API error: quota"),
        _ => panic!("expected a failure"),
    }
    match c.on_message(Incoming::ReadError("broken pipe".to_string())) {
        CollectStep::Failed(e) => assert_eq!(e.message(), "broken pipe"),
        _ => panic!("expected a failure"),
    }
    match c.on_message(text("garbage")) {
        CollectStep::Failed(TranscriptionError::MalformedJson(_)) => {}
        _ => panic!("expected a parse failure"),
    }
    let mut ended = TranscriptCollector::new(Mode::Batch);
    match ended.on_message(Incoming::Ended) {
        CollectStep::Finished { text, done } => {
            assert_eq!(text, "");
            assert!(!done);
        }
        _ => panic!("expected completion"),
    }
}

#[test]
fn streaming_audio_actions() {
    let mut s = StreamingTranscription::new();
    assert!(s.accepts_audio());
    match s.on_audio(AudioInput::Chunk(vec![1])) {
        AudioAction::Send(m) => assert_eq!(m, "{\"audio\":\"AQA=\",\"type\":\"input_audio.append\"}"),
        _ => panic!("expected a message"),
    }
    assert!(s.accepts_audio());
    match s.on_audio(AudioInput::EndOfAudio) {
        AudioAction::Send(m) => assert_eq!(m, END_OF_AUDIO_MESSAGE),
        _ => panic!("expected a message"),
    }
    assert!(!s.accepts_audio());
    match s.on_audio(AudioInput::Cancel) {
        AudioAction::Abort(e) => assert_eq!(e.message(), "Voxtral streaming: cancelled by user"),
        _ => panic!("expected an abort"),
    }
    let mut closed = StreamingTranscription::new();
    assert!(matches!(closed.on_audio(AudioInput::Closed), AudioAction::Nothing));
    assert!(!closed.accepts_audio());
}

#[test]
fn streaming_server_actions() {
    let mut s = StreamingTranscription::new();
    match s.on_server(text("{\"type\":\"transcription.text.delta\",\"text\":\"Hey \"}")) {
        ServerAction::Forward(StreamingTextEvent::Delta(d)) => assert_eq!(d, "Hey "),
        _ => panic!("expected a delta"),
    }
    match s.on_server(text("{\"type\":\"transcription.text.delta\",\"text\":\"there\"}")) {
        ServerAction::Forward(StreamingTextEvent::Delta(d)) => assert_eq!(d, "there"),
        _ => panic!("expected a delta"),
    }
    assert_eq!(s.text(), "Hey there");
    match s.on_server(text("{\"type\":\"transcription.done\"}")) {
        ServerAction::Complete { text, notify_done } => {
            assert_eq!(text, "Hey there");
            assert!(notify_done);
        }
        _ => panic!("expected completion"),
    }
}

#[test]
fn streaming_server_failures_and_close() {
    let mut s = StreamingTranscription::new();
    match s.on_server(text("{\"type\":\"error\",\"error\":{\"message\":\"bad\"}}")) {
        ServerAction::Fail(e) => assert_eq!(e.message(), "Voxtral streaming API error: bad"),
        _ => panic!("expected a failure"),
    }
    match s.on_server(Incoming::ReadError("eof".to_string())) {
        ServerAction::Fail(e) => assert_eq!(e.message(), "Voxtral streaming: WebSocket read error: eof"),
        _ => panic!("expected a failure"),
    }
    assert!(matches!(s.on_server(Incoming::Other), ServerAction::Nothing));
    match s.on_server(Incoming::Close) {
        ServerAction::Complete { text, notify_done } => {
            assert_eq!(text, "");
            assert!(!notify_done);
        }
        _ => panic!("expected completion"),
    }
}

#[test]
fn json_quote_escapes_as_serde_json() {
    assert_eq!(json_quote("plain"), "\"plain\"");
    assert_eq!(json_quote("a\"b\\c\n\u{1}é\u{7f}"), "\"a\\\"b\\\\c\\n\\u0001é\u{7f}\"");
    assert_eq!(json_quote("\u{8}\u{c}\r\t\u{1f}"), "\"\\b\\f\\r\\t\\u001f\"");
}

#[test]
fn error_messages_for_every_kind() {
    let cases: Vec<(TranscriptionError, &str)> = vec![
        (TranscriptionError::MalformedJson("eof".into()), "eof"),
        (TranscriptionError::Transport("io".into()), "io"),
        (TranscriptionError::StreamWrite("closed".into()), "Voxtral streaming: WebSocket write failed: closed"),
        (TranscriptionError::ConnectTimedOut(Mode::Batch), "Voxtral: WebSocket connection timed out"),
        (TranscriptionError::ConnectTimedOut(Mode::Streaming), "Voxtral streaming: WebSocket connection timed out"),
        (TranscriptionError::SessionTimedOut(Mode::Batch), "Voxtral: timed out waiting for session.created"),
        (TranscriptionError::SessionTimedOut(Mode::Streaming), "Voxtral streaming: timed out waiting for session.created"),
        (TranscriptionError::TranscriptionTimedOut, "Voxtral: timed out waiting for transcription"),
        (TranscriptionError::RequestTimedOut, "OpenRouter: request timed out"),
        (TranscriptionError::OpenRouterApi("nope".into()), "OpenRouter API error: nope"),
        (
            TranscriptionError::OpenRouterStatus { status: "500 Internal Server Error".into(), body: "x".into() },
            "OpenRouter API error (500 Internal Server Error): x",
        ),
        (TranscriptionError::OpenRouterBadResponse("eof".into()), "OpenRouter: failed to parse response: eof"),
    ];
    for (e, expected) in cases {
        assert_eq!(e.message(), expected);
    }
}

#[test]
fn classify_read_fields() {
    let s = |t: &str| Some(t.to_string());
    assert!(matches!(classify_event_fields(vec![s("session.created"), None, None, None]), ServerEvent::SessionCreated));
    assert!(matches!(classify_event_fields(vec![None, s("x"), None, None]), ServerEvent::Other));
    match classify_event_fields(vec![s("transcription.done"), s("all"), None, None]) {
        ServerEvent::Done(Some(t)) => assert_eq!(t, "all"),
        _ => panic!("expected done"),
    }
    match classify_event_fields(vec![s("error"), None, None, s("inner")]) {
        ServerEvent::Failed(m) => assert_eq!(m, "inner"),
        _ => panic!("expected a failure"),
    }
}

#[test]
fn collector_takes_decoded_events() {
    let mut c = TranscriptCollector::new(Mode::Streaming);
    assert!(matches!(c.on_event(ServerEvent::SessionCreated), CollectStep::Continue));
    assert!(matches!(c.on_event(ServerEvent::TextDelta(None)), CollectStep::Continue));
    c.on_event(ServerEvent::TextDelta(Some("x ".to_string())));
    match c.on_event(ServerEvent::Failed("down".to_string())) {
        CollectStep::Failed(e) => assert_eq!(e.message(), "Voxtral streaming API error: down"),
        _ => panic!("expected a failure"),
    }
    assert_eq!(c.text(), "x ");
}

#[test]
fn gathering_ends_on_the_first_terminal_message() {
    let frames = [
        text("{\"type\":\"transcription.text.delta\",\"text\":\"one\"}"),
        text("{\"type\":\"transcription.done\",\"text\":\"final\"}"),
        text("{\"type\":\"transcription.text.delta\",\"text\":\"late\"}"),
        Incoming::Close,
    ];
    let mut c = TranscriptCollector::new(Mode::Batch);
    let mut outcome = None;
    for frame in frames {
        match c.on_message(frame) {
            CollectStep::Finished { text, .. } => {
                outcome = Some(text);
                break;
            }
            CollectStep::Failed(_) => panic!("unexpected failure"),
            _ => {}
        }
    }
    assert_eq!(outcome.as_deref(), Some("final"));
}
