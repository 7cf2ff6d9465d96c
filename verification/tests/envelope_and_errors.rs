use buglog::AppError;
use buglog::AppErrorType;
use buglog::EnvVars;
use buglog::ResResult;

#[test]
fn ok_envelope_carries_payload_and_fixed_fields() {
    let r: ResResult<u32> = ResResult::ok(7);
    assert!(r.success);
    assert_eq!(r.data, Some(7));
    assert_eq!(r.message.as_deref(), Some("request succeeded"));
    assert_eq!(r.code, Some(200));
}

#[test]
fn err_envelope_has_no_payload() {
    let r = ResResult::err("request failed", 500);
    assert!(!r.success);
    assert_eq!(r.data, None);
    assert_eq!(r.message.as_deref(), Some("request failed"));
    assert_eq!(r.code, Some(500));
}

#[test]
fn fail_envelope_keeps_message_and_code() {
    let r: ResResult<Vec<u8>> = ResResult::fail("boom".to_owned(), 418);
    assert!(!r.success);
    assert_eq!(r.data, None);
    assert_eq!(r.message.as_deref(), Some("boom"));
    assert_eq!(r.code, Some(418));
}

#[test]
fn status_codes_by_error_kind() {
    assert_eq!(AppErrorType::DbError.status_code(), 500);
    assert_eq!(AppErrorType::DecodeError.status_code(), 400);
    assert_eq!(AppErrorType::NotFoundError.status_code(), 404);
    assert_eq!(AppErrorType::RouteNotMatched.status_code(), 500);
}

#[test]
fn public_message_prefers_own_message() {
    let mut e = AppError::of(AppErrorType::DbError);
    assert_eq!(e.public_message(), "request failed");
    e.message = Some("no connection".to_owned());
    assert_eq!(e.public_message(), "no connection");
}

#[test]
fn env_vars_require_database_url_first() {
    let r = EnvVars::new(None, None);
    assert_eq!(r.unwrap_err(), "DATABASE_URL is not set");

    let r = EnvVars::new(Some("0.0.0.0:8080".to_owned()), None);
    assert_eq!(r.unwrap_err(), "DATABASE_URL is not set");

    let r = EnvVars::new(None, Some("mysql://localhost/app".to_owned()));
    assert_eq!(r.unwrap_err(), "SERVER_ADDRESS is not set");

    let r = EnvVars::new(
        Some("0.0.0.0:8080".to_owned()),
        Some("mysql://localhost/app".to_owned()),
    );
    let v = r.unwrap();
    assert_eq!(v.server_address, "0.0.0.0:8080");
    assert_eq!(v.database_url, "mysql://localhost/app");
}
