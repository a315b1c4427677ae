use dcr::handlers::{
    debug_handler, health_handler, health_toggle_handler, logger_handler, main_handler,
    method_not_allowed, p404, version_handler, DCR_VERSION,
};
use dcr::health::HealthState;
use dcr::ingest::{BodyEvent, Ingest, IngestError};
use dcr::page::{Field, RequestInfo};
use dcr::response::{Response, Status, HTML_UTF8};

fn request() -> RequestInfo {
    RequestInfo {
        protocol: "HTTP/1.1".to_string(),
        method: "POST".to_string(),
        uri: "/debug".to_string(),
        path: "/debug".to_string(),
        headers: vec![Field { key: "content-length".to_string(), value: "\"3\"".to_string() }],
    }
}

fn drained(chunks: &[&[u8]]) -> Ingest {
    let mut body = Ingest::new();
    for chunk in chunks {
        body.step(&BodyEvent::Chunk(chunk.to_vec()));
    }
    body.step(&BodyEvent::End);
    body
}

fn assert_html(response: &Response, status: Status, code: u16, body: &str) {
    assert_eq!(response.status, status);
    assert_eq!(response.status.code(), code);
    assert_eq!(response.content_type.as_deref(), Some("text/html; charset=utf-8"));
    assert_eq!(response.body, body);
}

#[test]
fn statuses_have_their_codes() {
    assert_eq!(Status::Success.code(), 200);
    assert_eq!(Status::NotFound.code(), 404);
    assert_eq!(Status::MethodNotAllowed.code(), 405);
    assert_eq!(Status::ServiceUnavailable.code(), 503);
    assert_eq!(HTML_UTF8, "text/html; charset=utf-8");
}

#[test]
fn responses_are_built_from_status_and_body() {
    let html = Response::html(Status::NotFound, "gone".to_string());
    assert_html(&html, Status::NotFound, 404, "gone");
    let bare = Response::bare(Status::Success);
    assert_eq!(bare.status, Status::Success);
    assert_eq!(bare.content_type, None);
    assert_eq!(bare.body, "");
}

#[test]
fn health_is_ok_when_healthy() {
    let health = HealthState::new();
    assert_html(&health_handler(&health), Status::Success, 200, "OK");
}

#[test]
fn health_is_ko_when_unhealthy() {
    let mut health = HealthState::new();
    health.toggle();
    assert_html(&health_handler(&health), Status::ServiceUnavailable, 503, "KO");
}

#[test]
fn toggling_reports_the_new_state() {
    let mut health = HealthState::new();
    let first = health_toggle_handler(&mut health);
    assert_html(&first, Status::Success, 200, "healthcheck toggled to false state");
    assert!(!health.read());
    let second = health_toggle_handler(&mut health);
    assert_html(&second, Status::Success, 200, "healthcheck toggled to true state");
    assert!(health.read());
}

#[test]
fn the_version_is_always_the_same() {
    assert_eq!(DCR_VERSION, "0.1");
    for _ in 0..100 {
        assert_html(&version_handler(), Status::Success, 200, "0.1");
    }
}

#[test]
fn the_logger_confirms_an_empty_body() {
    let response = logger_handler(&drained(&[])).unwrap();
    assert_html(&response, Status::Success, 200, "data ingested");
}

#[test]
fn the_logger_confirms_a_body_of_ten_megabytes() {
    let chunk = vec![0xa5u8; 64 * 1024];
    let mut body = Ingest::new();
    for _ in 0..160 {
        body.step(&BodyEvent::Chunk(chunk.clone()));
    }
    body.step(&BodyEvent::End);
    assert_eq!(body.len(), 10 * 1024 * 1024);
    let response = logger_handler(&body).unwrap();
    assert_html(&response, Status::Success, 200, "data ingested");
}

#[test]
fn the_logger_answers_the_same_whatever_the_body_holds() {
    for body in [&b"plain text"[..], &[0u8, 255, 128, 10, 13][..], &b"<script>"[..]] {
        let response = logger_handler(&drained(&[body])).unwrap();
        assert_html(&response, Status::Success, 200, "data ingested");
    }
}

#[test]
fn the_logger_does_not_confirm_a_broken_body() {
    let mut body = Ingest::new();
    body.step(&BodyEvent::Chunk(vec![1, 2, 3]));
    body.step(&BodyEvent::Failed);
    assert_eq!(logger_handler(&body).err(), Some(IngestError::Broken));
}

#[test]
fn the_logger_does_not_confirm_an_unfinished_body() {
    let mut body = Ingest::new();
    body.step(&BodyEvent::Chunk(vec![1, 2, 3]));
    assert_eq!(logger_handler(&body).err(), Some(IngestError::Unfinished));
}

#[test]
fn debug_echoes_the_request_without_the_environment() {
    let response = debug_handler(&request(), &drained(&[b"abc"])).unwrap();
    let expected = "<html><body><H1>Program</H1><H1>Request</H1>\
<textarea cols=150 readonly>Protocol: HTTP/1.1\nMethod: POST\nURI: /debug</textarea>\
<H1>Headers</H1><textarea cols=150 rows=20 readonly>content-length: \"3\"\n</textarea>\
<H1>Data</H1></body></html>\n";
    assert_html(&response, Status::Success, 200, expected);
}

#[test]
fn debug_waits_for_the_whole_body() {
    let mut broken = Ingest::new();
    broken.step(&BodyEvent::Failed);
    assert_eq!(debug_handler(&request(), &broken).err(), Some(IngestError::Broken));
    assert_eq!(debug_handler(&request(), &Ingest::new()).err(), Some(IngestError::Unfinished));
}

#[test]
fn the_main_page_shows_what_it_is_given() {
    let env = vec![Field { key: "LANG".to_string(), value: "C".to_string() }];
    let response = main_handler(&request(), &env);
    let expected = "<html><body><H1>Program</H1><H1>Request</H1>\
<textarea cols=150 readonly>Protocol: HTTP/1.1\nMethod: POST\nURI: /debug</textarea>\
<H1>Headers</H1><textarea cols=150 rows=20 readonly>content-length: \"3\"\n</textarea>\
<H1>Data</H1><H1>Env</H1><hr><textarea cols=150 rows=20 readonly>LANG: C\n</textarea>\
</body></html>\n";
    assert_html(&response, Status::Success, 200, expected);
}

#[test]
fn not_found_is_404() {
    assert_html(&p404(), Status::NotFound, 404, "NOT FOUND");
}

#[test]
fn method_not_allowed_is_405_without_body() {
    let response = method_not_allowed();
    assert_eq!(response.status, Status::MethodNotAllowed);
    assert_eq!(response.status.code(), 405);
    assert_eq!(response.content_type, None);
    assert_eq!(response.body, "");
}
