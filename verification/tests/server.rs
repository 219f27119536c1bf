use tally_odbc_relay::api::QueryResponse;
use tally_odbc_relay::odbc::OdbcError;
use tally_odbc_relay::server::{
    health_reply, json_error, query_reply, rejected_query_reply, AppState, ReplyBody,
};

#[test]
fn health_ok_is_200() {
    let r = health_reply(Ok(Ok(())));
    assert_eq!(r.status, 200);
    assert!(matches!(r.body, ReplyBody::HealthOk(ref b) if b.ok));
}

#[test]
fn health_failure_is_503_with_message() {
    let r = health_reply(Ok(Err(OdbcError::Driver("no driver".to_string()))));
    assert_eq!(r.status, 503);
    match r.body {
        ReplyBody::HealthErr(b) => {
            assert!(!b.ok);
            assert_eq!(b.error, "no driver");
        }
        other => panic!("unexpected {:?}", other),
    }
    let r = health_reply(Ok(Err(OdbcError::UnsupportedPlatform)));
    match r.body {
        ReplyBody::HealthErr(b) => {
            assert_eq!(b.error, "tally-odbc-relay only executes ODBC on Windows")
        }
        other => panic!("unexpected {:?}", other),
    }
}

#[test]
fn task_failure_is_500() {
    let r = health_reply(Err("task panicked".to_string()));
    assert_eq!(r.status, 500);
    assert!(matches!(r.body, ReplyBody::Error(ref b) if b.error == "task panicked"));
    let r = query_reply(Err("task cancelled".to_string()));
    assert_eq!(r.status, 500);
}

#[test]
fn query_replies() {
    let resp = QueryResponse {
        columns: vec!["$Name".to_string()],
        rows: vec![vec!["Acme Traders".to_string()]],
    };
    let r = query_reply(Ok(Ok(resp.clone())));
    assert_eq!(r.status, 200);
    assert!(matches!(r.body, ReplyBody::Result(ref got) if *got == resp));
    let r = query_reply(Ok(Err(OdbcError::Driver("syntax error".to_string()))));
    assert_eq!(r.status, 502);
    assert!(matches!(r.body, ReplyBody::Error(ref b) if b.error == "syntax error"));
}

#[test]
fn bad_body_is_400() {
    let r = rejected_query_reply("request body is empty".to_string());
    assert_eq!(r.status, 400);
    assert!(matches!(r.body, ReplyBody::Error(ref b) if b.error == "request body is empty"));
    let r = json_error(418, "teapot".to_string());
    assert_eq!(r.status, 418);
}

#[test]
fn state_holds_the_dsn() {
    let s = AppState::new("TallyODBC64_9000".to_string());
    assert_eq!(&*s.dsn, "TallyODBC64_9000");
}
