use outlook_fusion::calendar_service::CalendarService;
use outlook_fusion::event::EventDocument;
use outlook_fusion::json::escape_json;

fn sample_document() -> EventDocument {
    EventDocument {
        subject: "Sync".to_string(),
        body_content: "notes".to_string(),
        start_date_time: "2026-02-01T14:00:00-03:00".to_string(),
        start_time_zone: "America/Sao_Paulo".to_string(),
        end_date_time: "2026-02-01T15:00:00-03:00".to_string(),
        end_time_zone: "America/Sao_Paulo".to_string(),
        location_display_name: "Online".to_string(),
    }
}

#[test]
fn document_json_has_the_exact_expected_text() {
    let text = sample_document().to_json();
    let expected = "{\"subject\":\"Sync\",\
\"body\":{\"contentType\":\"HTML\",\"content\":\"notes\"},\
\"start\":{\"dateTime\":\"2026-02-01T14:00:00-03:00\",\"timeZone\":\"America/Sao_Paulo\"},\
\"end\":{\"dateTime\":\"2026-02-01T15:00:00-03:00\",\"timeZone\":\"America/Sao_Paulo\"},\
\"location\":{\"displayName\":\"Online\"}}";
    assert_eq!(text, expected);
}

#[test]
fn escape_passes_plain_text_through() {
    assert_eq!(escape_json("plain text, São Paulo"), "plain text, São Paulo");
}

#[test]
fn escape_handles_quotes_backslashes_and_controls() {
    assert_eq!(escape_json("a\"b"), "a\\\"b");
    assert_eq!(escape_json("a\\b"), "a\\\\b");
    assert_eq!(escape_json("a\nb"), "a\\u000ab");
    assert_eq!(escape_json("tab\there"), "tab\\u0009here");
    assert_eq!(escape_json("\u{1}"), "\\u0001");
    assert_eq!(escape_json(""), "");
}

#[test]
fn document_json_parses_back_with_serde_json() {
    let doc = EventDocument {
        subject: "Quo\"tes & \\slashes\n".to_string(),
        body_content: "line one\r\nline two".to_string(),
        ..sample_document()
    };
    let text = doc.to_json();
    let v: serde_json::Value = serde_json::from_str(&text).unwrap();
    assert_eq!(
        v.get("subject").unwrap().as_str().unwrap(),
        "Quo\"tes & \\slashes\n"
    );
    let body = v.get("body").unwrap();
    assert_eq!(body.get("contentType").unwrap().as_str().unwrap(), "HTML");
    assert_eq!(
        body.get("content").unwrap().as_str().unwrap(),
        "line one\r\nline two"
    );
    let start = v.get("start").unwrap();
    assert_eq!(
        start.get("dateTime").unwrap().as_str().unwrap(),
        "2026-02-01T14:00:00-03:00"
    );
    assert_eq!(
        start.get("timeZone").unwrap().as_str().unwrap(),
        "America/Sao_Paulo"
    );
    let end = v.get("end").unwrap();
    assert_eq!(
        end.get("dateTime").unwrap().as_str().unwrap(),
        "2026-02-01T15:00:00-03:00"
    );
    let location = v.get("location").unwrap();
    assert_eq!(
        location.get("displayName").unwrap().as_str().unwrap(),
        "Online"
    );
}

#[test]
fn built_document_serializes_end_to_end() {
    let cs = CalendarService::new(
        "Sync".to_string(),
        Some("agenda".to_string()),
        "content".to_string(),
        "2026-02-01T14:00:00-03:00".to_string(),
        "2026-02-01T15:00:00-03:00".to_string(),
        None,
        None,
    );
    let text = cs.build_document().unwrap().to_json();
    let v: serde_json::Value = serde_json::from_str(&text).unwrap();
    assert_eq!(v.get("subject").unwrap().as_str().unwrap(), "Sync");
    assert_eq!(
        v.get("body").unwrap().get("content").unwrap().as_str().unwrap(),
        "agenda"
    );
}
