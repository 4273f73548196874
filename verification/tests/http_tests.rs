use caimanager::config::AppConfig;
use caimanager::http::{
    create_reply, expected_token, initial_log_text, is_authorized, list_reply, operation_reply,
    reader_failure, unauthorized_reply, undefined_reply, update_name_check, AnswerKind, ReplyBody,
};
use caimanager::info::InstanceInfo;
use caimanager::system_info::OsInfo;

fn s(x: &str) -> String {
    x.to_string()
}

fn message(b: &ReplyBody) -> Option<&str> {
    match b {
        ReplyBody::Message(m) => Some(m.as_str()),
        _ => None,
    }
}

#[test]
fn operation_replies() {
    let r = operation_reply(Some(Ok(AnswerKind::Nothing)));
    assert_eq!(r.status, 200);
    assert!(matches!(r.body, ReplyBody::Empty));
    let r = operation_reply(Some(Err(s("Invalid instance name"))));
    assert_eq!(r.status, 502);
    assert_eq!(message(&r.body), Some("Invalid instance name"));
    let r = operation_reply(None);
    assert_eq!(r.status, 500);
    assert_eq!(message(&r.body), Some("Failed to receive response"));
}

#[test]
fn create_reply_accepts_only_plain_success() {
    assert_eq!(create_reply(Some(Ok(AnswerKind::Nothing))).status, 200);
    assert_eq!(create_reply(Some(Ok(AnswerKind::Receiver))).status, 500);
    assert_eq!(create_reply(Some(Err(s("Instance exist")))).status, 502);
    assert_eq!(create_reply(None).status, 500);
}

#[test]
fn list_reply_returns_json_text() {
    let r = list_reply(Some(Ok(AnswerKind::Message(s("[]")))));
    assert_eq!(r.status, 200);
    assert!(matches!(r.body, ReplyBody::Json(ref j) if j == "[]"));
    assert_eq!(list_reply(Some(Ok(AnswerKind::Nothing))).status, 500);
    assert_eq!(list_reply(Some(Err(s("x")))).status, 502);
}

#[test]
fn update_may_not_rename() {
    let info = InstanceInfo {
        name: s("beta"),
        path: s("/srv"),
        app: s("sh"),
        parameter: vec![],
        auto_run: false,
        auto_restart: false,
        stop_command: s("stop"),
    };
    let r = update_name_check(&s("alpha"), &info).unwrap();
    assert_eq!(r.status, 403);
    assert_eq!(message(&r.body), Some("Changing instance name is not allowed"));
    assert!(update_name_check(&s("beta"), &info).is_none());
}

#[test]
fn fixed_replies() {
    assert_eq!(undefined_reply().status, 404);
    assert_eq!(unauthorized_reply().status, 401);
}

#[test]
fn authorization_needs_bearer_token() {
    let expected = expected_token(&s("SECRET-REDACTED"));
    assert_eq!(expected, "Bearer SECRET-REDACTED");
    assert!(is_authorized(Some(s("Bearer SECRET-REDACTED")), &expected));
    assert!(!is_authorized(Some(s("SECRET-REDACTED")), &expected));
    assert!(!is_authorized(None, &expected));
}

#[test]
fn websocket_texts() {
    assert_eq!(initial_log_text(Some(Ok(AnswerKind::Message(s("log"))))), Some(s("log")));
    assert_eq!(initial_log_text(Some(Err(s("Invalid instance name")))), Some(s("CAIManager: Invalid instance name")));
    assert_eq!(initial_log_text(Some(Ok(AnswerKind::Nothing))), None);
    assert_eq!(initial_log_text(None), None);
    assert_eq!(reader_failure(Some(Ok(AnswerKind::Receiver))), None);
    assert_eq!(reader_failure(Some(Ok(AnswerKind::Nothing))), Some(s("Getting stdout reader failed")));
    assert_eq!(reader_failure(Some(Err(s("Invalid instance name")))), Some(s("Invalid instance name")));
    assert_eq!(reader_failure(None), Some(s("Unexpected result from broker")));
}

#[test]
fn tls_needs_certificate_and_key() {
    let mut c = AppConfig { listen: s("0.0.0.0:8080"), token: s("t"), cert: s("cert.pem"), key: s("key.pem") };
    assert!(c.tls_enabled());
    c.key = String::new();
    assert!(!c.tls_enabled());
}

#[test]
fn os_info_fills_missing_values_with_empty_text() {
    let o = OsInfo::new(Some(s("Linux")), None, Some(s("12")), None);
    assert_eq!(o.name, "Linux");
    assert_eq!(o.kernel_version, "");
    assert_eq!(o.os_version, "12");
    assert_eq!(o.host_name, "");
}
