use tally_odbc_relay::api::{
    finish_json_query, is_json_content_type, prepare_query_sql, QueryRequest, QueryText,
};
use tally_odbc_relay::text::{eq_ignore_ascii_case_str, trim_str};

/// Decodes `{"sql": "..."}` with serde_json's values, standing in for the
/// program's derived decoder: the library gets the request or the message.
fn decode(text: &str) -> Result<QueryRequest, String> {
    match serde_json::from_str::<serde_json::Value>(text) {
        Ok(value) => match value.get("sql").and_then(|s| s.as_str()) {
            Some(sql) => Ok(QueryRequest { sql: sql.to_string() }),
            None => Err("missing field `sql`".to_string()),
        },
        Err(err) => Err(err.to_string()),
    }
}

/// Reads the SQL of a request body as the program does.
fn parse_query_sql(content_type: Option<&str>, body: &str) -> Result<String, String> {
    match prepare_query_sql(content_type, body)? {
        QueryText::Sql(sql) => Ok(sql),
        QueryText::Json(text) => finish_json_query(decode(&text)),
    }
}

#[test]
fn parses_json_sql() {
    let sql = parse_query_sql(
        Some("application/json; charset=utf-8"),
        r#"{"sql":"SELECT $Name FROM Ledger"}"#,
    )
    .unwrap();
    assert_eq!(sql, "SELECT $Name FROM Ledger");
}

#[test]
fn rejects_empty_json_sql() {
    let err = parse_query_sql(Some("application/json"), r#"{"sql":"  "}"#).unwrap_err();
    assert_eq!(err, "sql is empty");
}

#[test]
fn rejects_invalid_json() {
    let err = parse_query_sql(Some("application/json"), "not-json").unwrap_err();
    assert!(err.starts_with("invalid JSON body:"));
}

#[test]
fn treats_plain_text_as_sql() {
    let sql = parse_query_sql(Some("text/plain"), "SELECT $Name FROM Company\n").unwrap();
    assert_eq!(sql, "SELECT $Name FROM Company");
}

#[test]
fn treats_missing_content_type_as_raw_sql() {
    let sql = parse_query_sql(None, "SELECT $Name FROM ODBCTables").unwrap();
    assert_eq!(sql, "SELECT $Name FROM ODBCTables");
}

#[test]
fn rejects_empty_body() {
    let err = parse_query_sql(Some("text/plain"), "   ").unwrap_err();
    assert_eq!(err, "request body is empty");
}

#[test]
fn json_body_is_handed_back_trimmed() {
    match prepare_query_sql(Some("application/json"), "  {\"sql\":\"x\"}\n").unwrap() {
        QueryText::Json(text) => assert_eq!(text, "{\"sql\":\"x\"}"),
        QueryText::Sql(_) => panic!("a JSON body was taken for SQL"),
    }
}

#[test]
fn media_type_is_matched_up_to_case_and_parameters() {
    assert!(is_json_content_type(Some("Application/JSON ; charset=utf-8")));
    assert!(is_json_content_type(Some(" application/json")));
    assert!(!is_json_content_type(Some("application/jsonx")));
    assert!(!is_json_content_type(Some("text/plain; application/json")));
    assert!(!is_json_content_type(None));
}

#[test]
fn unicode_whitespace_is_trimmed() {
    assert_eq!(trim_str("\u{3000}\t SELECT 1\u{a0}\r\n"), "SELECT 1");
    assert_eq!(trim_str("\u{2003}\u{2029}"), "");
    assert_eq!(trim_str("a b"), "a b");
}

#[test]
fn ascii_case_is_ignored_only_for_ascii_letters() {
    assert!(eq_ignore_ascii_case_str("DLL", "dll"));
    assert!(!eq_ignore_ascii_case_str("dl", "dll"));
    assert!(!eq_ignore_ascii_case_str("\u{c9}", "\u{e9}"));
}

#[test]
fn json_sql_is_trimmed_and_decoder_errors_are_prefixed() {
    let ok = finish_json_query(Ok(QueryRequest { sql: "  SELECT 2\n".to_string() }));
    assert_eq!(ok, Ok("SELECT 2".to_string()));
    let err = finish_json_query(Err("expected value".to_string()));
    assert_eq!(err, Err("invalid JSON body: expected value".to_string()));
}

#[test]
fn relayed_sql_is_never_blank_and_already_trimmed() {
    for body in ["  SELECT 3  ", "\nSELECT 4", "SELECT 5"] {
        let sql = parse_query_sql(None, body).unwrap();
        assert!(!sql.is_empty());
        assert_eq!(trim_str(&sql), sql);
    }
}
