//! The HTTP API's bodies and the rules that turn a `/query` request body into
//! the SQL text to run.

use vstd::prelude::*;
use crate::text::{
    before_first, before_first_str, eq_ignore_ascii_case, eq_ignore_ascii_case_str,
    lemma_trim_idempotent, trim, trim_str,
};

verus! {

/// The JSON body `{"sql": "..."}` of a query request.
#[derive(Debug)]
pub struct QueryRequest {
    pub sql: String,
}

/// The answer to a query: the column names and, per row, one text per column.
#[derive(Debug, Clone, PartialEq, Eq)]
pub struct QueryResponse {
    pub columns: Vec<String>,
    pub rows: Vec<Vec<String>>,
}

/// The body `{"error": "..."}` of a failed request.
#[derive(Debug)]
pub struct ErrorBody {
    pub error: String,
}

/// The body `{"ok": true}` of a successful health check.
#[derive(Debug)]
pub struct HealthOk {
    pub ok: bool,
}

/// The body `{"ok": false, "error": "..."}` of a failed health check.
#[derive(Debug)]
pub struct HealthErr {
    pub ok: bool,
    pub error: String,
}

/// Where the SQL of a request body is: the body itself, or a JSON document
/// that still has to be decoded.
#[derive(Debug)]
pub enum QueryText {
    Sql(String),
    Json(String),
}

/// The media type that marks a JSON body.
pub open spec fn json_media_type() -> Seq<char> {
    "application/json"@
}

/// Whether a `Content-Type` value names JSON: its part before the first `;`,
/// trimmed, is `application/json` up to ASCII case.
pub open spec fn is_json_media_type(content_type: Seq<char>) -> bool {
    eq_ignore_ascii_case(trim(before_first(content_type, ';')), json_media_type())
}

/// Whether a request with this optional `Content-Type` carries JSON.
pub open spec fn is_json_request(content_type: Option<Seq<char>>) -> bool {
    match content_type {
        Some(value) => is_json_media_type(value),
        None => false,
    }
}

/// The refusal of a body that is blank.
pub open spec fn empty_body_message() -> Seq<char> {
    "request body is empty"@
}

/// The refusal of a JSON body whose `sql` is blank.
pub open spec fn empty_sql_message() -> Seq<char> {
    "sql is empty"@
}

/// The prefix of the refusal of a body that is not valid JSON for a query.
pub open spec fn invalid_json_prefix() -> Seq<char> {
    "invalid JSON body: "@
}

/// Whether a `Content-Type` value names JSON.
pub fn is_json_content_type(content_type: Option<&str>) -> (r: bool)
    ensures
        r == is_json_request(opt_view(content_type)),
{
    match content_type {
        Some(value) => {
            let media = trim_str(before_first_str(value, ';'));
            eq_ignore_ascii_case_str(media, "application/json")
        },
        None => false,
    }
}

/// The view of an optional string.
pub open spec fn opt_view(s: Option<&str>) -> Option<Seq<char>> {
    match s {
        Some(v) => Some(v@),
        None => None,
    }
}

/// The first half of reading the SQL of a `/query` request: a blank body is
/// refused; a JSON body is handed back trimmed, to be decoded; any other body
/// is the SQL itself, trimmed.
pub fn prepare_query_sql(content_type: Option<&str>, body: &str) -> (r: Result<QueryText, String>)
    ensures
        match r {
            Err(e) => trim(body@).len() == 0 && e@ == empty_body_message(),
            Ok(QueryText::Json(t)) => {
                &&& trim(body@).len() > 0
                &&& is_json_request(opt_view(content_type))
                &&& t@ == trim(body@)
            },
            Ok(QueryText::Sql(t)) => {
                &&& trim(body@).len() > 0
                &&& !is_json_request(opt_view(content_type))
                &&& t@ == trim(body@)
            },
        },
{
    let trimmed = trim_str(body);
    if trimmed.unicode_len() == 0 {
        return Err(String::from_str("request body is empty"));
    }
    if is_json_content_type(content_type) {
        Ok(QueryText::Json(String::from_str(trimmed)))
    } else {
        Ok(QueryText::Sql(String::from_str(trimmed)))
    }
}

/// The second half for a JSON body: `decoded` is what decoding the JSON gave,
/// the request or the decoder's message. A decoding failure is refused with
/// that message; a blank `sql` is refused; otherwise the SQL is `sql` trimmed.
pub fn finish_json_query(decoded: Result<QueryRequest, String>) -> (r: Result<String, String>)
    ensures
        match decoded {
            Err(e) => r matches Err(m) && m@ == invalid_json_prefix() + e@,
            Ok(request) => if trim(request.sql@).len() == 0 {
                r matches Err(m) && m@ == empty_sql_message()
            } else {
                r matches Ok(sql) && sql@ == trim(request.sql@)
            },
        },
{
    match decoded {
        Err(e) => Err(String::from_str("invalid JSON body: ").concat(e.as_str())),
        Ok(request) => {
            let sql = trim_str(request.sql.as_str());
            if sql.unicode_len() == 0 {
                Err(String::from_str("sql is empty"))
            } else {
                Ok(String::from_str(sql))
            }
        },
    }
}

/// The SQL that a request yields is never blank and carries no surrounding
/// whitespace: trimming it again changes nothing.
pub proof fn law_relayed_sql_is_trimmed(body: Seq<char>)
    requires
        trim(body).len() > 0,
    ensures
        trim(trim(body)) == trim(body),
        trim(trim(body)).len() > 0,
{
    lemma_trim_idempotent(body);
}

} // verus!
