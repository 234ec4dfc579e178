use r2_upload::client::{ClientError, WriteError};
use r2_upload::config::{ConfigError, ConfigField, R2Config};
use r2_upload::handler::{
    derive_key, metadata_for, object_key, plan_upload, Event, HandlerError, HandlerResponse, ResponseBody, Stage,
};
use r2_upload::parser::{ParseError, UploadRequest};

fn config() -> R2Config {
    R2Config::from_values(Some("acc".into()), Some("AK".into()), Some("SK".into()), Some("bkt".into())).unwrap()
}

fn request(bytes: &[u8], name: Option<&str>, description: Option<&str>) -> UploadRequest {
    UploadRequest {
        file_bytes: bytes.to_vec(),
        file_name: name.map(|n| n.to_string()),
        description: description.map(|d| d.to_string()),
    }
}

fn ready() -> Stage {
    let s = Stage::Init.step(Event::ConfigRead(Ok(config())));
    assert!(matches!(s, Stage::ConfigLoaded(_)));
    let s = s.step(Event::BuildClient);
    assert!(matches!(s, Stage::ClientReady(_, _)));
    s
}

fn answer(s: Stage) -> HandlerResponse {
    match s {
        Stage::Responded(r) => r,
        other => panic!("no response: {:?}", other),
    }
}

fn is_generated_key(k: &str) -> bool {
    let Some(rest) = k.strip_prefix("uploads/") else { return false };
    let Some(id) = rest.strip_suffix(".bin") else { return false };
    id.len() == 36 && id.chars().all(|c| c.is_ascii_digit() || ('a'..='f').contains(&c) || c == '-')
}

#[test]
fn named_file_key_is_exact() {
    let k = derive_key(&Some("report.pdf".to_string()), &"ignored".to_string());
    assert_eq!(k, "uploads/report.pdf");
    assert_eq!(object_key(&Some("report.pdf".to_string())), "uploads/report.pdf");
    assert_eq!(object_key(&Some("report.pdf".to_string())), "uploads/report.pdf");
}

#[test]
fn unnamed_key_uses_given_id() {
    let k = derive_key(&None, &"1234".to_string());
    assert_eq!(k, "uploads/1234.bin");
}

#[test]
fn unnamed_keys_are_fresh_ids() {
    let a = object_key(&None);
    let b = object_key(&None);
    assert!(is_generated_key(&a), "{}", a);
    assert!(is_generated_key(&b), "{}", b);
    assert_ne!(a, b);
}

#[test]
fn metadata_holds_only_description() {
    assert_eq!(metadata_for(&Some("hi".to_string())), vec![("description".to_string(), "hi".to_string())]);
    assert!(metadata_for(&None).is_empty());
}

#[test]
fn plan_targets_bucket_with_octet_stream() {
    let p = plan_upload(&config(), request(b"xyz", Some("a.txt"), Some("d")));
    assert_eq!(p.bucket, "bkt");
    assert_eq!(p.key, "uploads/a.txt");
    assert_eq!(p.body, b"xyz".to_vec());
    assert_eq!(p.content_type.as_deref(), Some("application/octet-stream"));
    assert_eq!(p.metadata, vec![("description".to_string(), "d".to_string())]);
}

#[test]
fn successful_upload_answers_200() {
    let s = ready().step(Event::PartsRead(Ok(request(b"payload", Some("report.pdf"), Some("q3")))));
    match &s {
        Stage::Parsed(_, p) => assert_eq!(p.key, "uploads/report.pdf"),
        other => panic!("not parsed: {:?}", other),
    }
    let r = answer(s.step(Event::WriteDone(Ok(()))));
    assert_eq!(r.status, 200);
    assert_eq!(r.status_text(), "success");
    match r.body {
        ResponseBody::Success { key, metadata } => {
            assert_eq!(key, "uploads/report.pdf");
            assert_eq!(metadata, vec![("description".to_string(), "q3".to_string())]);
        }
        ResponseBody::Error(e) => panic!("error: {:?}", e),
    }
}

#[test]
fn unnamed_upload_without_description() {
    let s = ready().step(Event::PartsRead(Ok(request(&[0u8, 1, 2], None, None))));
    let r = answer(s.step(Event::WriteDone(Ok(()))));
    assert_eq!(r.status, 200);
    match r.body {
        ResponseBody::Success { key, metadata } => {
            assert!(is_generated_key(&key), "{}", key);
            assert!(metadata.is_empty());
        }
        ResponseBody::Error(e) => panic!("error: {:?}", e),
    }
}

#[test]
fn write_failure_answers_500() {
    let s = ready().step(Event::PartsRead(Ok(request(b"payload", Some("x.bin"), None))));
    match &s {
        Stage::Parsed(_, p) => assert_eq!(p.key, "uploads/x.bin"),
        other => panic!("not parsed: {:?}", other),
    }
    let err = WriteError::Backend("connection reset".to_string());
    let r = answer(s.step(Event::WriteDone(Err(err.clone()))));
    assert_eq!(r.status, 500);
    assert_eq!(r.status_text(), "error");
    assert!(matches!(r.body, ResponseBody::Error(HandlerError::Write(e)) if e == err));
}

#[test]
fn parse_failure_answers_400() {
    let r = answer(ready().step(Event::PartsRead(Err(ParseError::NoFileProvided))));
    assert_eq!(r.status, 400);
    assert!(matches!(r.body, ResponseBody::Error(HandlerError::Parse(ParseError::NoFileProvided))));
    let r = answer(ready().step(Event::PartsRead(Ok(request(b"", Some("e.txt"), None)))));
    assert_eq!(r.status, 400);
}

#[test]
fn config_failure_answers_500() {
    let err = ConfigError::Missing(ConfigField::Bucket);
    let r = answer(Stage::Init.step(Event::ConfigRead(Err(err))));
    assert_eq!(r.status, 500);
    assert_eq!(r.status_text(), "error");
    assert!(matches!(r.body, ResponseBody::Error(HandlerError::Config(e)) if e == err));
}

#[test]
fn client_failure_answers_500() {
    let mut c = config();
    c.region = Some(String::new());
    let s = Stage::Init.step(Event::ConfigRead(Ok(c))).step(Event::BuildClient);
    let r = answer(s);
    assert_eq!(r.status, 500);
    assert!(matches!(r.body, ResponseBody::Error(HandlerError::Client(ClientError::Invalid(ConfigField::Region)))));
}

#[test]
fn out_of_order_events_leave_stage() {
    let s = Stage::Init.step(Event::BuildClient);
    assert!(matches!(s, Stage::Init));
    let s = ready().step(Event::WriteDone(Ok(())));
    assert!(matches!(s, Stage::ClientReady(_, _)));
    let done = answer(Stage::Init.step(Event::ConfigRead(Err(ConfigError::Missing(ConfigField::AccountId)))));
    let s = Stage::Responded(done).step(Event::BuildClient);
    assert!(matches!(s, Stage::Responded(_)));
}

#[test]
fn concurrent_requests_do_not_share_metadata() {
    let a = ready().step(Event::PartsRead(Ok(request(b"aaa", Some("a.txt"), Some("from a")))));
    let b = ready().step(Event::PartsRead(Ok(request(b"bbb", Some("b.txt"), None))));
    let rb = answer(b.step(Event::WriteDone(Ok(()))));
    let ra = answer(a.step(Event::WriteDone(Ok(()))));
    match (ra.body, rb.body) {
        (ResponseBody::Success { key: ka, metadata: ma }, ResponseBody::Success { key: kb, metadata: mb }) => {
            assert_eq!(ka, "uploads/a.txt");
            assert_eq!(kb, "uploads/b.txt");
            assert_eq!(ma, vec![("description".to_string(), "from a".to_string())]);
            assert!(mb.is_empty());
        }
        _ => panic!("both should succeed"),
    }
}

#[test]
fn error_response_statuses() {
    assert_eq!(HandlerResponse::error(HandlerError::Parse(ParseError::NoFileProvided)).status, 400);
    assert_eq!(HandlerResponse::error(HandlerError::Write(WriteError::EmptyKey)).status, 500);
    assert_eq!(HandlerResponse::success("k".into(), vec![]).status, 200);
}
