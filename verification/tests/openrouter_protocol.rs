use cloud_transcription::openrouter::{api_error_from_fields, format_status_line, transcription_from_fields, interpret_response, is_success_status, status_line_of, OpenRouterEngine, OPENROUTER_API_URL};
use cloud_transcription::pcm::samples_to_wav;

fn engine() -> OpenRouterEngine {
    OpenRouterEngine::new("sk-test".to_string(), "openai/gpt-4o-audio".to_string())
}

#[test]
fn openrouter_engine_keeps_its_configuration() {
    let e = engine();
    assert_eq!(e.model(), "openai/gpt-4o-audio");
    assert_eq!(e.authorization(), "Bearer sk-test");
    assert_eq!(OPENROUTER_API_URL, "https://openrouter.ai/api/v1/chat/completions");
}

#[test]
fn request_body_is_exact() {
    let body = engine().request_body(b"abc");
    assert_eq!(
        body,
        "{\"messages\":[{\"content\":[{\"text\":\"Transcribe this audio exactly as spoken. Output only the transcription text, nothing else.\",\"type\":\"text\"},{\"input_audio\":{\"data\":\"YWJj\",\"format\":\"wav\"},\"type\":\"input_audio\"}],\"role\":\"user\"}],\"model\":\"openai/gpt-4o-audio\"}"
    );
}

#[test]
fn request_body_is_the_json_document_of_the_request() {
    let weird = OpenRouterEngine::new("k".to_string(), "m\"odel\\\n".to_string());
    let body = weird.request_body(&[0, 255, 16]);
    let v: serde_json::Value = serde_json::from_str(&body).unwrap();
    assert_eq!(v["model"], "m\"odel\\\n");
    assert_eq!(v["messages"][0]["role"], "user");
    assert_eq!(v["messages"][0]["content"][0]["type"], "text");
    assert_eq!(v["messages"][0]["content"][1]["type"], "input_audio");
    assert_eq!(v["messages"][0]["content"][1]["input_audio"]["format"], "wav");
    assert_eq!(v["messages"][0]["content"][1]["input_audio"]["data"], "AP8Q");
}

#[test]
fn request_body_for_samples_sends_their_wav() {
    let e = engine();
    let samples: Vec<i16> = vec![5, -5, 300];
    let body = e.request_body_for_samples(&samples);
    assert_eq!(body, e.request_body(&samples_to_wav(&samples)));
}

#[test]
fn success_statuses() {
    assert!(is_success_status(200));
    assert!(is_success_status(299));
    assert!(!is_success_status(199));
    assert!(!is_success_status(300));
    assert!(!is_success_status(404));
}

#[test]
fn status_lines_match_reqwest() {
    assert_eq!(status_line_of(502), "502 Bad Gateway");
    assert_eq!(status_line_of(299), "299 <unknown status code>");
    for code in [100u16, 200, 204, 401, 429, 500, 599, 999] {
        let status = reqwest::StatusCode::from_u16(code).unwrap();
        assert_eq!(status_line_of(code), status.to_string());
    }
}

#[test]
fn reply_content_is_trimmed() {
    let body = "{\"choices\":[{\"message\":{\"content\":\"  hi there \\n\"}}]}";
    assert_eq!(interpret_response(200, body).unwrap(), "hi there");
}

#[test]
fn empty_content_falls_back_to_audio_transcript() {
    let body = "{\"choices\":[{\"message\":{\"content\":\"\",\"audio\":{\"transcript\":\" yo \"}}}]}";
    assert_eq!(interpret_response(200, body).unwrap(), "yo");
    let no_content = "{\"choices\":[{\"message\":{\"content\":null,\"audio\":{\"transcript\":\"z\"}}}]}";
    assert_eq!(interpret_response(201, no_content).unwrap(), "z");
}

#[test]
fn reply_without_text_is_empty() {
    assert_eq!(interpret_response(200, "{\"choices\":[]}").unwrap(), "");
    assert_eq!(interpret_response(200, "{}").unwrap(), "");
    assert_eq!(interpret_response(200, "{\"choices\":{\"0\":{\"message\":{\"content\":\"x\"}}}}").unwrap(), "");
}

#[test]
fn error_reply_with_json_message() {
    let err = interpret_response(401, "{\"error\":{\"message\":\"No auth credentials found\",\"code\":401}}").unwrap_err();
    assert_eq!(err.message(), "OpenRouter API error: No auth credentials found");
}

#[test]
fn error_reply_with_json_but_no_message_reports_the_body() {
    let err = interpret_response(400, "{\"error\":{}}").unwrap_err();
    assert_eq!(err.message(), "OpenRouter API error: {\"error\":{}}");
}

#[test]
fn error_reply_that_is_not_json_reports_the_status() {
    let err = interpret_response(502, "<html>bad gateway</html>").unwrap_err();
    assert_eq!(err.message(), "OpenRouter API error (502 Bad Gateway): <html>bad gateway</html>");
}

#[test]
fn successful_reply_that_is_not_json() {
    let err = interpret_response(200, "oops").unwrap_err();
    let expected = serde_json::from_str::<serde_json::Value>("oops").unwrap_err();
    assert_eq!(err.message(), format!("OpenRouter: failed to parse response: {}", expected));
}

#[test]
fn status_line_formatting_from_a_reason() {
    assert_eq!(format_status_line(404, Some("Not Found".to_string())), "404 Not Found");
    assert_eq!(format_status_line(987, None), "987 <unknown status code>");
}

#[test]
fn api_error_from_read_fields() {
    let with = api_error_from_fields(&vec![Some("limit".to_string())], "{...}");
    assert_eq!(with.message(), "OpenRouter API error: limit");
    let without = api_error_from_fields(&vec![None], "{\"error\":1}");
    assert_eq!(without.message(), "OpenRouter API error: {\"error\":1}");
}

#[test]
fn transcription_from_read_fields() {
    assert_eq!(transcription_from_fields(&vec![Some(" a ".to_string()), Some("b".to_string())]), "a");
    assert_eq!(transcription_from_fields(&vec![Some(String::new()), Some(" b".to_string())]), "b");
    assert_eq!(transcription_from_fields(&vec![None, None]), "");
}
