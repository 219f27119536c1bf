use tally_odbc_relay::api::QueryResponse;
use tally_odbc_relay::odbc::{
    connection_string, execute_sql, panic_message, ping_dsn, OdbcAction, OdbcError, OdbcEvent,
    OdbcSession, Stage,
};

fn expect_connect(action: OdbcAction, expected: &str) {
    match action {
        OdbcAction::Connect { connection_string } => assert_eq!(connection_string, expected),
        other => panic!("expected Connect, got {:?}", other),
    }
}

fn feed(session: &mut OdbcSession, event: OdbcEvent) -> OdbcAction {
    assert!(session.accepts(&event));
    session.step(event)
}

fn units(s: &str) -> Option<Vec<u16>> {
    Some(s.encode_utf16().collect())
}

#[test]
fn unsupported_message_is_stable() {
    assert_eq!(
        OdbcError::UnsupportedPlatform.message(),
        "tally-odbc-relay only executes ODBC on Windows"
    );
}

#[test]
fn driver_message_is_passed_through() {
    assert_eq!(OdbcError::Driver("no DSN".to_string()).message(), "no DSN");
}

#[test]
fn bare_dsn_becomes_connection_string() {
    assert_eq!(connection_string("TallyODBC64_9000"), "DSN=TallyODBC64_9000;");
    assert_eq!(connection_string("DSN=Other;UID=x"), "DSN=Other;UID=x");
}

#[test]
fn panic_messages() {
    assert_eq!(panic_message(Some("boom")), "ODBC driver panic: boom");
    assert_eq!(panic_message(None), "ODBC driver panic");
}

#[test]
fn ping_succeeds_when_connection_opens() {
    let (mut s, a) = ping_dsn("TallyODBC64_9000");
    expect_connect(a, "DSN=TallyODBC64_9000;");
    match feed(&mut s, OdbcEvent::Connected) {
        OdbcAction::Pinged(Ok(())) => {}
        other => panic!("unexpected {:?}", other),
    }
    assert_eq!(s.stage(), Stage::Done);
    assert!(!s.accepts(&OdbcEvent::Connected));
}

#[test]
fn ping_fails_with_driver_message() {
    let (mut s, _) = ping_dsn("X");
    match feed(&mut s, OdbcEvent::Failed("IM002 data source not found".to_string())) {
        OdbcAction::Pinged(Err(e)) => assert_eq!(e.message(), "IM002 data source not found"),
        other => panic!("unexpected {:?}", other),
    }
}

#[test]
fn ping_on_unsupported_platform() {
    let (mut s, _) = ping_dsn("X");
    match feed(&mut s, OdbcEvent::Unsupported) {
        OdbcAction::Pinged(Err(OdbcError::UnsupportedPlatform)) => {}
        other => panic!("unexpected {:?}", other),
    }
}

#[test]
fn query_collects_rows_column_by_column() {
    let (mut s, a) = execute_sql("TallyODBC64_9000", "SELECT $Name, $Parent FROM Ledger");
    expect_connect(a, "DSN=TallyODBC64_9000;");
    match feed(&mut s, OdbcEvent::Connected) {
        OdbcAction::Execute { sql } => assert_eq!(sql, "SELECT $Name, $Parent FROM Ledger"),
        other => panic!("unexpected {:?}", other),
    }
    assert!(matches!(
        feed(&mut s, OdbcEvent::Executed { has_cursor: true }),
        OdbcAction::ReadColumnNames
    ));
    let names = vec!["$Name".to_string(), "$Parent".to_string()];
    assert!(matches!(feed(&mut s, OdbcEvent::ColumnNames(names)), OdbcAction::FetchRow));
    assert!(matches!(feed(&mut s, OdbcEvent::Row(true)), OdbcAction::ReadCell { column: 1 }));
    assert!(matches!(
        feed(&mut s, OdbcEvent::Cell(units("Acme Traders"))),
        OdbcAction::ReadCell { column: 2 }
    ));
    assert!(matches!(feed(&mut s, OdbcEvent::Cell(None)), OdbcAction::FetchRow));
    assert!(matches!(feed(&mut s, OdbcEvent::Row(true)), OdbcAction::ReadCell { column: 1 }));
    assert!(matches!(
        feed(&mut s, OdbcEvent::Cell(units("Caf\u{e9} \u{20b9}"))),
        OdbcAction::ReadCell { column: 2 }
    ));
    assert!(matches!(
        feed(&mut s, OdbcEvent::Cell(units("Sundry Debtors"))),
        OdbcAction::FetchRow
    ));
    match feed(&mut s, OdbcEvent::Row(false)) {
        OdbcAction::Answered(Ok(resp)) => assert_eq!(
            resp,
            QueryResponse {
                columns: vec!["$Name".to_string(), "$Parent".to_string()],
                rows: vec![
                    vec!["Acme Traders".to_string(), String::new()],
                    vec!["Caf\u{e9} \u{20b9}".to_string(), "Sundry Debtors".to_string()],
                ],
            }
        ),
        other => panic!("unexpected {:?}", other),
    }
}

#[test]
fn invalid_utf16_becomes_replacement_character() {
    let (mut s, _) = execute_sql("X", "SELECT 1");
    feed(&mut s, OdbcEvent::Connected);
    feed(&mut s, OdbcEvent::Executed { has_cursor: true });
    feed(&mut s, OdbcEvent::ColumnNames(vec!["c".to_string()]));
    feed(&mut s, OdbcEvent::Row(true));
    feed(&mut s, OdbcEvent::Cell(Some(vec![0x61, 0xd800])));
    match feed(&mut s, OdbcEvent::Row(false)) {
        OdbcAction::Answered(Ok(resp)) => assert_eq!(resp.rows, vec![vec!["a\u{fffd}".to_string()]]),
        other => panic!("unexpected {:?}", other),
    }
}

#[test]
fn statement_without_result_set_answers_empty() {
    let (mut s, _) = execute_sql("X", "UPDATE x");
    feed(&mut s, OdbcEvent::Connected);
    match feed(&mut s, OdbcEvent::Executed { has_cursor: false }) {
        OdbcAction::Answered(Ok(resp)) => {
            assert!(resp.columns.is_empty());
            assert!(resp.rows.is_empty());
        }
        other => panic!("unexpected {:?}", other),
    }
}

#[test]
fn rows_of_a_result_without_columns_are_empty() {
    let (mut s, _) = execute_sql("X", "SELECT");
    feed(&mut s, OdbcEvent::Connected);
    feed(&mut s, OdbcEvent::Executed { has_cursor: true });
    feed(&mut s, OdbcEvent::ColumnNames(Vec::new()));
    assert!(matches!(feed(&mut s, OdbcEvent::Row(true)), OdbcAction::FetchRow));
    match feed(&mut s, OdbcEvent::Row(false)) {
        OdbcAction::Answered(Ok(resp)) => assert_eq!(resp.rows, vec![Vec::<String>::new()]),
        other => panic!("unexpected {:?}", other),
    }
}

#[test]
fn too_many_columns_is_a_driver_error() {
    let (mut s, _) = execute_sql("X", "SELECT *");
    feed(&mut s, OdbcEvent::Connected);
    feed(&mut s, OdbcEvent::Executed { has_cursor: true });
    let names = vec![String::new(); 65536];
    match feed(&mut s, OdbcEvent::ColumnNames(names)) {
        OdbcAction::Answered(Err(OdbcError::Driver(m))) => {
            assert_eq!(m, "out of range integral type conversion attempted")
        }
        other => panic!("unexpected {:?}", other),
    }
}

#[test]
fn panic_mid_query_is_a_driver_error() {
    let (mut s, _) = execute_sql("X", "SELECT 1");
    feed(&mut s, OdbcEvent::Connected);
    feed(&mut s, OdbcEvent::Executed { has_cursor: true });
    match feed(&mut s, OdbcEvent::Panicked(Some("bad SQLLEN".to_string()))) {
        OdbcAction::Answered(Err(e)) => assert_eq!(e.message(), "ODBC driver panic: bad SQLLEN"),
        other => panic!("unexpected {:?}", other),
    }
    assert!(!s.accepts(&OdbcEvent::Row(false)));
}

#[test]
fn events_out_of_turn_are_refused() {
    let (s, _) = execute_sql("X", "SELECT 1");
    assert!(!s.accepts(&OdbcEvent::Row(true)));
    assert!(!s.accepts(&OdbcEvent::Cell(None)));
    assert!(s.accepts(&OdbcEvent::Failed("x".to_string())));
}
