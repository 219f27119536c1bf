//! What the HTTP server answers: the status and the JSON body of each reply
//! to `GET /health` and `POST /query`.

use std::sync::Arc;
use vstd::prelude::*;
use crate::api::{ErrorBody, HealthErr, HealthOk, QueryResponse};
use crate::odbc::{
    accepts_event, error_message, next, ping_start, response_model, ActionModel, EventModel,
    OdbcError, OdbcErrorModel, ResponseModel,
};

verus! {

/// What the request handlers share: the DSN to query.
#[derive(Clone)]
pub struct AppState {
    pub dsn: Arc<str>,
}

impl AppState {
    /// The state for a server that queries `dsn`.
    pub fn new(dsn: String) -> (r: Self)
        ensures
            r.dsn@ == dsn@,
    {
        AppState { dsn: shared_str(dsn) }
    }
}

/// Moves a string into a shared `Arc<str>`, with `Arc::from`.
#[verifier::external_body]
fn shared_str(s: String) -> (r: Arc<str>)
    ensures
        r@ == s@,
{
    Arc::from(s)
}

/// `200 OK`.
pub open spec fn status_ok() -> u16 {
    200
}

/// `400 Bad Request`: the request body could not be read as a query.
pub open spec fn status_bad_request() -> u16 {
    400
}

/// `500 Internal Server Error`: the blocking task could not finish.
pub open spec fn status_internal_error() -> u16 {
    500
}

/// `502 Bad Gateway`: the ODBC driver or Tally failed the query.
pub open spec fn status_bad_gateway() -> u16 {
    502
}

/// `503 Service Unavailable`: Tally's ODBC does not answer.
pub open spec fn status_unavailable() -> u16 {
    503
}

/// The JSON body of a reply.
#[derive(Debug)]
pub enum ReplyBody {
    HealthOk(HealthOk),
    HealthErr(HealthErr),
    Error(ErrorBody),
    Result(QueryResponse),
}

/// A reply: its HTTP status and its JSON body.
#[derive(Debug)]
pub struct Reply {
    pub status: u16,
    pub body: ReplyBody,
}

/// The model of a reply's body.
pub enum BodyModel {
    HealthOk(bool),
    HealthErr(bool, Seq<char>),
    Error(Seq<char>),
    Result(ResponseModel),
}

/// The model of a reply.
pub struct ReplyModel {
    pub status: u16,
    pub body: BodyModel,
}

impl View for Reply {
    type V = ReplyModel;

    open spec fn view(&self) -> ReplyModel {
        ReplyModel {
            status: self.status,
            body: match self.body {
                ReplyBody::HealthOk(b) => BodyModel::HealthOk(b.ok),
                ReplyBody::HealthErr(b) => BodyModel::HealthErr(b.ok, b.error@),
                ReplyBody::Error(b) => BodyModel::Error(b.error@),
                ReplyBody::Result(r) => BodyModel::Result(response_model(r)),
            },
        }
    }
}

/// An error reply: the status with `{"error": error}`.
pub fn json_error(status: u16, error: String) -> (r: Reply)
    ensures
        r@ == (ReplyModel { status, body: BodyModel::Error(error@) }),
{
    Reply { status, body: ReplyBody::Error(ErrorBody { error }) }
}

/// The reply to `GET /health`, given how the health check ended: with the
/// check's answer, or with the message of a task that did not finish.
pub open spec fn health_reply_model(outcome: Result<Result<(), OdbcErrorModel>, Seq<char>>) -> ReplyModel {
    match outcome {
        Ok(Ok(())) => ReplyModel { status: status_ok(), body: BodyModel::HealthOk(true) },
        Ok(Err(e)) => ReplyModel {
            status: status_unavailable(),
            body: BodyModel::HealthErr(false, error_message(e)),
        },
        Err(t) => ReplyModel { status: status_internal_error(), body: BodyModel::Error(t) },
    }
}

/// The model of a health check's outcome.
pub open spec fn health_outcome(outcome: Result<Result<(), OdbcError>, String>) -> Result<
    Result<(), OdbcErrorModel>,
    Seq<char>,
> {
    match outcome {
        Ok(Ok(())) => Ok(Ok(())),
        Ok(Err(e)) => Ok(Err(e@)),
        Err(t) => Err(t@),
    }
}

/// The reply to `GET /health`: `200 {"ok": true}` when the DSN answers,
/// `503 {"ok": false, "error": ...}` when it does not, and `500` with the
/// task's message when the check could not run.
pub fn health_reply(outcome: Result<Result<(), OdbcError>, String>) -> (r: Reply)
    ensures
        r@ == health_reply_model(health_outcome(outcome)),
{
    match outcome {
        Ok(Ok(())) => Reply { status: 200, body: ReplyBody::HealthOk(HealthOk { ok: true }) },
        Ok(Err(e)) => Reply {
            status: 503,
            body: ReplyBody::HealthErr(HealthErr { ok: false, error: e.message() }),
        },
        Err(t) => json_error(500, t),
    }
}

/// The reply to a `POST /query` whose body could not be read as a query.
pub fn rejected_query_reply(error: String) -> (r: Reply)
    ensures
        r@ == (ReplyModel { status: status_bad_request(), body: BodyModel::Error(error@) }),
{
    json_error(400, error)
}

/// The reply to a `POST /query` that ran, given how it ended.
pub open spec fn query_reply_model(outcome: Result<Result<ResponseModel, OdbcErrorModel>, Seq<char>>) -> ReplyModel {
    match outcome {
        Ok(Ok(r)) => ReplyModel { status: status_ok(), body: BodyModel::Result(r) },
        Ok(Err(e)) => ReplyModel {
            status: status_bad_gateway(),
            body: BodyModel::Error(error_message(e)),
        },
        Err(t) => ReplyModel { status: status_internal_error(), body: BodyModel::Error(t) },
    }
}

/// The model of a query's outcome.
pub open spec fn query_outcome(outcome: Result<Result<QueryResponse, OdbcError>, String>) -> Result<
    Result<ResponseModel, OdbcErrorModel>,
    Seq<char>,
> {
    match outcome {
        Ok(Ok(r)) => Ok(Ok(response_model(r))),
        Ok(Err(e)) => Ok(Err(e@)),
        Err(t) => Err(t@),
    }
}

/// The reply to a `POST /query` that ran: `200` with the result, `502` with
/// the ODBC error's message, or `500` with the task's message when the query
/// could not run.
pub fn query_reply(outcome: Result<Result<QueryResponse, OdbcError>, String>) -> (r: Reply)
    ensures
        r@ == query_reply_model(query_outcome(outcome)),
        outcome matches Ok(Ok(res)) ==> r.status == 200 && r@.body == BodyModel::Result(
            ResponseModel { columns: res.columns.deep_view(), rows: res.rows.deep_view() },
        ),
{
    match outcome {
        Ok(Ok(result)) => Reply { status: 200, body: ReplyBody::Result(result) },
        Ok(Err(e)) => json_error(502, e.message()),
        Err(t) => json_error(500, t),
    }
}

/// Every reply to a `POST /query` that ran and is not `200` carries
/// `{"error": ...}`, with `502` for a failure of the ODBC driver or of Tally
/// (and its message) and `500` for a task that could not finish; a `200`
/// reply carries the result. (A body that could not be read is answered
/// `400`, see [`rejected_query_reply`].)
pub proof fn law_query_failures_carry_error_bodies(
    outcome: Result<Result<ResponseModel, OdbcErrorModel>, Seq<char>>,
)
    ensures
        ({
            let reply = query_reply_model(outcome);
            &&& reply.status == status_ok() <==> reply.body is Result
            &&& reply.status != status_ok() ==> reply.body is Error && (reply.status
                == status_bad_gateway() || reply.status == status_internal_error())
            &&& outcome matches Ok(Err(e)) ==> reply.status == status_bad_gateway()
                && reply.body == BodyModel::Error(error_message(e))
        }),
{
}

/// A health check answers with whatever the first ODBC call gave, and
/// `GET /health` replies `200 {"ok": true}` exactly when the connection
/// opened; otherwise `503 {"ok": false, "error": ...}` with the error's
/// message.
pub proof fn law_health_reply_follows_connection(e: EventModel)
    requires
        accepts_event(ping_start(), e),
    ensures
        next(ping_start(), e).1 matches ActionModel::Pinged(r) && ({
            let reply = health_reply_model(Ok(r));
            &&& (reply.status == status_ok()) == (e is Connected)
            &&& e is Connected ==> reply.body == BodyModel::HealthOk(true)
            &&& !(e is Connected) ==> reply.status == status_unavailable() && reply.body
                == BodyModel::HealthErr(false, error_message(r->Err_0))
        }),
{
}

/// A query that ran is answered `200` with exactly its result: the same
/// column names and the same rows, every one of them, in order.
pub proof fn law_query_result_is_sent_whole(r: ResponseModel)
    ensures
        query_reply_model(Ok(Ok(r))).status == 200,
        query_reply_model(Ok(Ok(r))).body matches BodyModel::Result(sent) && sent.columns
            == r.columns && sent.rows.len() == r.rows.len() && (forall|i: int|
            0 <= i < r.rows.len() ==> #[trigger] sent.rows[i] == r.rows[i]),
{
}

} // verus!
