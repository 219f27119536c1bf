//! ODBC sessions against the Tally driver, as a state machine: the session
//! says which ODBC call to make next, and is told what the call gave. It
//! answers a health check (`ping_dsn`) or a query (`execute_sql`).

use vstd::prelude::*;
use crate::api::QueryResponse;

verus! {

/// Why an ODBC call could not be answered.
#[derive(Debug)]
pub enum OdbcError {
    /// The driver (or the ODBC manager) reported this message.
    Driver(String),
    /// This build cannot reach an ODBC driver.
    UnsupportedPlatform,
}

/// The model of an [`OdbcError`].
pub enum OdbcErrorModel {
    Driver(Seq<char>),
    UnsupportedPlatform,
}

/// The message of the unsupported-platform error.
pub open spec fn unsupported_platform_message() -> Seq<char> {
    "tally-odbc-relay only executes ODBC on Windows"@
}

/// The message that describes an error.
pub open spec fn error_message(e: OdbcErrorModel) -> Seq<char> {
    match e {
        OdbcErrorModel::Driver(m) => m,
        OdbcErrorModel::UnsupportedPlatform => unsupported_platform_message(),
    }
}

impl View for OdbcError {
    type V = OdbcErrorModel;

    open spec fn view(&self) -> OdbcErrorModel {
        match self {
            OdbcError::Driver(m) => OdbcErrorModel::Driver(m@),
            OdbcError::UnsupportedPlatform => OdbcErrorModel::UnsupportedPlatform,
        }
    }
}

impl OdbcError {
    /// The error's message, as it is shown to HTTP clients.
    pub fn message(&self) -> (r: String)
        ensures
            r@ == error_message(self@),
    {
        match self {
            OdbcError::Driver(m) => m.clone(),
            OdbcError::UnsupportedPlatform => String::from_str(
                "tally-odbc-relay only executes ODBC on Windows",
            ),
        }
    }
}

/// The connection string for a DSN: a value that holds `=` is already a
/// connection string; a bare name `N` becomes `DSN=N;`.
pub open spec fn connection_string_of(dsn: Seq<char>) -> Seq<char> {
    if dsn.contains('=') {
        dsn
    } else {
        "DSN="@ + dsn + ";"@
    }
}

/// Builds the connection string for a DSN.
pub fn connection_string(dsn: &str) -> (r: String)
    ensures
        r@ == connection_string_of(dsn@),
        (exists|i: int| 0 <= i < dsn@.len() && dsn@[i] == '=') ==> r@ == dsn@,
        (forall|i: int| 0 <= i < dsn@.len() ==> dsn@[i] != '=') ==> r@ == "DSN="@ + dsn@ + ";"@,
{
    let n = dsn.unicode_len();
    let mut i: usize = 0;
    while i < n
        invariant
            n == dsn@.len(),
            i <= n,
            forall|k: int| 0 <= k < i ==> dsn@[k] != '=',
        decreases n - i,
    {
        if dsn.get_char(i) == '=' {
            assert(dsn@.contains('='));
            return String::from_str(dsn);
        }
        i = i + 1;
    }
    assert(!dsn@.contains('='));
    String::from_str("DSN=").concat(dsn).concat(";")
}

/// The message of a driver that panicked, with the panic's text when it had one.
pub open spec fn panic_text(payload: Option<Seq<char>>) -> Seq<char> {
    match payload {
        Some(m) => "ODBC driver panic: "@ + m,
        None => "ODBC driver panic"@,
    }
}

/// Describes a panic of the driver, given the panic's text when it had one.
pub fn panic_message(payload: Option<&str>) -> (r: String)
    ensures
        r@ == panic_text(
            match payload {
                Some(m) => Some(m@),
                None => None,
            },
        ),
{
    match payload {
        Some(m) => String::from_str("ODBC driver panic: ").concat(m),
        None => String::from_str("ODBC driver panic"),
    }
}

/// UTF-16 decoding with replacement, as `String::from_utf16_lossy`
/// documents it: a unit outside the surrogate range is that character; a
/// high surrogate followed by a low one is the character they encode; any
/// other surrogate becomes U+FFFD, and decoding goes on with the next unit.
pub open spec fn utf16_lossy(units: Seq<u16>) -> Seq<char>
    decreases units.len(),
{
    if units.len() == 0 {
        seq![]
    } else {
        let u = units[0];
        if u < 0xd800 || u > 0xdfff {
            seq![u as char] + utf16_lossy(units.drop_first())
        } else if u <= 0xdbff && units.len() > 1 && 0xdc00 <= units[1] <= 0xdfff {
            seq![(0x10000 + (u - 0xd800) * 0x400 + (units[1] - 0xdc00)) as char] + utf16_lossy(
                units.subrange(2, units.len() as int),
            )
        } else {
            seq!['\u{fffd}'] + utf16_lossy(units.drop_first())
        }
    }
}

/// Decodes a cell's UTF-16 text with `String::from_utf16_lossy`.
#[verifier::external_body]
fn decode_utf16_lossy(units: &[u16]) -> (r: String)
    ensures
        r@ == utf16_lossy(units@),
{
    String::from_utf16_lossy(units)
}

/// The text of `u16::try_from`'s error (`TryFromIntError`).
pub open spec fn narrowing_error_text() -> Seq<char> {
    "out of range integral type conversion attempted"@
}

/// Narrows a column count to `u16` as `u16::try_from` does: it fails
/// exactly when the count exceeds `u16::MAX`, with the text of
/// `TryFromIntError`.
fn narrow_column_count(count: usize) -> (r: Result<u16, String>)
    ensures
        match r {
            Ok(n) => count <= 0xffff && n == count,
            Err(t) => count > 0xffff && t@ == narrowing_error_text(),
        },
{
    if count <= 0xffff {
        Ok(count as u16)
    } else {
        Err(String::from_str("out of range integral type conversion attempted"))
    }
}

/// Where a session stands.
#[derive(Debug, Clone, Copy, PartialEq, Eq, Structural)]
pub enum Stage {
    /// Waiting for the connection to open.
    Connecting,
    /// Waiting for the statement to run.
    Executing,
    /// Waiting for the column names of the result set.
    ReadingColumns,
    /// Waiting for the next row.
    Fetching,
    /// Waiting for the next cell of the current row.
    ReadingCell,
    /// Finished: nothing more is asked.
    Done,
}

/// What the session asks for next, or its answer.
#[derive(Debug)]
pub enum OdbcAction {
    /// Open a connection with this connection string.
    Connect { connection_string: String },
    /// Run this statement on the connection.
    Execute { sql: String },
    /// Read the column names of the result set.
    ReadColumnNames,
    /// Fetch the next row.
    FetchRow,
    /// Read the text of this column (counted from 1) of the current row.
    ReadCell { column: u16 },
    /// The answer of a health check.
    Pinged(Result<(), OdbcError>),
    /// The answer of a query.
    Answered(Result<QueryResponse, OdbcError>),
}

/// What the last ODBC call gave.
#[derive(Debug)]
pub enum OdbcEvent {
    /// The connection is open.
    Connected,
    /// No ODBC driver can be reached from this build.
    Unsupported,
    /// The statement ran; it produced a result set or it did not.
    Executed { has_cursor: bool },
    /// The column names of the result set.
    ColumnNames(Vec<String>),
    /// A row was fetched (`true`) or the result set is exhausted (`false`).
    Row(bool),
    /// The cell's UTF-16 text, or `None` for SQL NULL.
    Cell(Option<Vec<u16>>),
    /// The call failed with this message.
    Failed(String),
    /// The driver panicked, with this text when the panic had one.
    Panicked(Option<String>),
}

/// The model of an [`OdbcEvent`].
pub enum EventModel {
    Connected,
    Unsupported,
    Executed(bool),
    ColumnNames(Seq<Seq<char>>),
    Row(bool),
    Cell(Option<Seq<u16>>),
    Failed(Seq<char>),
    Panicked(Option<Seq<char>>),
}

impl View for OdbcEvent {
    type V = EventModel;

    open spec fn view(&self) -> EventModel {
        match self {
            OdbcEvent::Connected => EventModel::Connected,
            OdbcEvent::Unsupported => EventModel::Unsupported,
            OdbcEvent::Executed { has_cursor } => EventModel::Executed(*has_cursor),
            OdbcEvent::ColumnNames(names) => EventModel::ColumnNames(names.deep_view()),
            OdbcEvent::Row(present) => EventModel::Row(*present),
            OdbcEvent::Cell(c) => EventModel::Cell(
                match c {
                    Some(units) => Some(units@),
                    None => None,
                },
            ),
            OdbcEvent::Failed(m) => EventModel::Failed(m@),
            OdbcEvent::Panicked(p) => EventModel::Panicked(
                match p {
                    Some(m) => Some(m@),
                    None => None,
                },
            ),
        }
    }
}

/// The model of a query's answer: the column names and the rows' texts.
pub struct ResponseModel {
    pub columns: Seq<Seq<char>>,
    pub rows: Seq<Seq<Seq<char>>>,
}

/// The model of a [`QueryResponse`].
pub open spec fn response_model(r: QueryResponse) -> ResponseModel {
    ResponseModel { columns: r.columns.deep_view(), rows: r.rows.deep_view() }
}

/// The model of an [`OdbcAction`].
pub enum ActionModel {
    Connect(Seq<char>),
    Execute(Seq<char>),
    ReadColumnNames,
    FetchRow,
    ReadCell(int),
    Pinged(Result<(), OdbcErrorModel>),
    Answered(Result<ResponseModel, OdbcErrorModel>),
}

impl View for OdbcAction {
    type V = ActionModel;

    open spec fn view(&self) -> ActionModel {
        match self {
            OdbcAction::Connect { connection_string } => ActionModel::Connect(connection_string@),
            OdbcAction::Execute { sql } => ActionModel::Execute(sql@),
            OdbcAction::ReadColumnNames => ActionModel::ReadColumnNames,
            OdbcAction::FetchRow => ActionModel::FetchRow,
            OdbcAction::ReadCell { column } => ActionModel::ReadCell(*column as int),
            OdbcAction::Pinged(r) => ActionModel::Pinged(
                match r {
                    Ok(()) => Ok(()),
                    Err(e) => Err(e@),
                },
            ),
            OdbcAction::Answered(r) => ActionModel::Answered(
                match r {
                    Ok(resp) => Ok(response_model(*resp)),
                    Err(e) => Err(e@),
                },
            ),
        }
    }
}

/// The model of a session.
pub struct SessionModel {
    pub stage: Stage,
    /// A health check (no statement) rather than a query.
    pub ping: bool,
    pub sql: Seq<char>,
    pub columns: Seq<Seq<char>>,
    /// The rows read so far.
    pub rows: Seq<Seq<Seq<char>>>,
    /// The cells read so far of the current row.
    pub row: Seq<Seq<char>>,
}

/// What every session keeps: each row read has one cell per column; a row
/// is in progress only while cells are read, and then it is not yet full.
pub open spec fn model_wf(m: SessionModel) -> bool {
    &&& forall|i: int| 0 <= i < m.rows.len() ==> (#[trigger] m.rows[i]).len() == m.columns.len()
    &&& m.columns.len() <= 0xffff
    &&& m.stage == Stage::ReadingCell ==> m.row.len() < m.columns.len()
    &&& m.stage != Stage::ReadingCell ==> m.row.len() == 0
}

/// Whether a session in this state can take this event: any unfinished
/// session can take a failure or a panic; otherwise the event must answer
/// the call that the session asked for.
pub open spec fn accepts_event(m: SessionModel, e: EventModel) -> bool {
    m.stage != Stage::Done && match e {
        EventModel::Failed(_) | EventModel::Panicked(_) => true,
        EventModel::Connected | EventModel::Unsupported => m.stage == Stage::Connecting,
        EventModel::Executed(_) => m.stage == Stage::Executing,
        EventModel::ColumnNames(_) => m.stage == Stage::ReadingColumns,
        EventModel::Row(_) => m.stage == Stage::Fetching,
        EventModel::Cell(_) => m.stage == Stage::ReadingCell,
    }
}

/// The session once it has answered.
pub open spec fn finished(m: SessionModel) -> SessionModel {
    SessionModel { stage: Stage::Done, columns: seq![], rows: seq![], row: seq![], ..m }
}

/// The answer that a session gives on failure.
pub open spec fn fail(m: SessionModel, e: OdbcErrorModel) -> ActionModel {
    if m.ping {
        ActionModel::Pinged(Err(e))
    } else {
        ActionModel::Answered(Err(e))
    }
}

/// The text of a cell: its decoded UTF-16, or empty for SQL NULL.
pub open spec fn cell_text(c: Option<Seq<u16>>) -> Seq<char> {
    match c {
        Some(units) => utf16_lossy(units),
        None => seq![],
    }
}

/// One step of a session: the next state and what it asks for next.
pub open spec fn next(m: SessionModel, e: EventModel) -> (SessionModel, ActionModel) {
    match e {
        EventModel::Failed(t) => (finished(m), fail(m, OdbcErrorModel::Driver(t))),
        EventModel::Panicked(p) => (finished(m), fail(m, OdbcErrorModel::Driver(panic_text(p)))),
        EventModel::Unsupported => (finished(m), fail(m, OdbcErrorModel::UnsupportedPlatform)),
        EventModel::Connected => if m.ping {
            (finished(m), ActionModel::Pinged(Ok(())))
        } else {
            (SessionModel { stage: Stage::Executing, ..m }, ActionModel::Execute(m.sql))
        },
        EventModel::Executed(has_cursor) => if has_cursor {
            (SessionModel { stage: Stage::ReadingColumns, ..m }, ActionModel::ReadColumnNames)
        } else {
            (
                finished(m),
                ActionModel::Answered(Ok(ResponseModel { columns: seq![], rows: seq![] })),
            )
        },
        EventModel::ColumnNames(names) => if names.len() <= 0xffff {
            (
                SessionModel { stage: Stage::Fetching, columns: names, rows: seq![], row: seq![], ..m },
                ActionModel::FetchRow,
            )
        } else {
            (
                finished(m),
                fail(m, OdbcErrorModel::Driver(narrowing_error_text())),
            )
        },
        EventModel::Row(present) => if !present {
            (
                finished(m),
                ActionModel::Answered(Ok(ResponseModel { columns: m.columns, rows: m.rows })),
            )
        } else if m.columns.len() == 0 {
            (SessionModel { rows: m.rows.push(seq![]), ..m }, ActionModel::FetchRow)
        } else {
            (SessionModel { stage: Stage::ReadingCell, ..m }, ActionModel::ReadCell(1))
        },
        EventModel::Cell(c) => {
            let row = m.row.push(cell_text(c));
            if row.len() == m.columns.len() {
                (
                    SessionModel { stage: Stage::Fetching, rows: m.rows.push(row), row: seq![], ..m },
                    ActionModel::FetchRow,
                )
            } else {
                (SessionModel { row, ..m }, ActionModel::ReadCell(row.len() + 1int))
            }
        },
    }
}

/// A session with the Tally ODBC driver.
pub struct OdbcSession {
    stage: Stage,
    ping: bool,
    sql: String,
    columns: Vec<String>,
    rows: Vec<Vec<String>>,
    row: Vec<String>,
}

impl View for OdbcSession {
    type V = SessionModel;

    closed spec fn view(&self) -> SessionModel {
        SessionModel {
            stage: self.stage,
            ping: self.ping,
            sql: self.sql@,
            columns: self.columns.deep_view(),
            rows: self.rows.deep_view(),
            row: self.row.deep_view(),
        }
    }
}

/// A health check that has not yet connected.
pub open spec fn ping_start() -> SessionModel {
    SessionModel {
        stage: Stage::Connecting,
        ping: true,
        sql: seq![],
        columns: seq![],
        rows: seq![],
        row: seq![],
    }
}

/// Starts a health check of `dsn`: the session first asks to connect.
pub fn ping_dsn(dsn: &str) -> (r: (OdbcSession, OdbcAction))
    ensures
        r.0@ == ping_start(),
        r.1@ == ActionModel::Connect(connection_string_of(dsn@)),
        model_wf(r.0@),
{
    let s = OdbcSession {
        stage: Stage::Connecting,
        ping: true,
        sql: String::new(),
        columns: Vec::new(),
        rows: Vec::new(),
        row: Vec::new(),
    };
    assert(s@.columns =~= seq![]);
    assert(s@.rows =~= seq![]);
    assert(s@.row =~= seq![]);
    (s, OdbcAction::Connect { connection_string: connection_string(dsn) })
}

/// Starts running `sql` on `dsn`: the session first asks to connect.
pub fn execute_sql(dsn: &str, sql: &str) -> (r: (OdbcSession, OdbcAction))
    ensures
        r.0@ == (SessionModel {
            stage: Stage::Connecting,
            ping: false,
            sql: sql@,
            columns: seq![],
            rows: seq![],
            row: seq![],
        }),
        r.1@ == ActionModel::Connect(connection_string_of(dsn@)),
        model_wf(r.0@),
{
    let s = OdbcSession {
        stage: Stage::Connecting,
        ping: false,
        sql: String::from_str(sql),
        columns: Vec::new(),
        rows: Vec::new(),
        row: Vec::new(),
    };
    assert(s@.columns =~= seq![]);
    assert(s@.rows =~= seq![]);
    assert(s@.row =~= seq![]);
    (s, OdbcAction::Connect { connection_string: connection_string(dsn) })
}

impl OdbcSession {
    /// Where the session stands.
    pub fn stage(&self) -> (r: Stage)
        ensures
            r == self@.stage,
    {
        self.stage
    }

    /// Whether the session can take this event (see [`accepts_event`]).
    pub fn accepts(&self, event: &OdbcEvent) -> (r: bool)
        ensures
            r == accepts_event(self@, event@),
    {
        if self.stage == Stage::Done {
            return false;
        }
        match event {
            OdbcEvent::Failed(_) | OdbcEvent::Panicked(_) => true,
            OdbcEvent::Connected | OdbcEvent::Unsupported => self.stage == Stage::Connecting,
            OdbcEvent::Executed { .. } => self.stage == Stage::Executing,
            OdbcEvent::ColumnNames(_) => self.stage == Stage::ReadingColumns,
            OdbcEvent::Row(_) => self.stage == Stage::Fetching,
            OdbcEvent::Cell(_) => self.stage == Stage::ReadingCell,
        }
    }

    /// Ends the session and gives its failure answer.
    fn fail_with(&mut self, e: OdbcError) -> (action: OdbcAction)
        ensures
            final(self)@ == finished(old(self)@),
            action@ == fail(old(self)@, e@),
    {
        self.finish();
        if self.ping {
            OdbcAction::Pinged(Err(e))
        } else {
            OdbcAction::Answered(Err(e))
        }
    }

    /// Ends the session.
    fn finish(&mut self)
        ensures
            final(self)@ == finished(old(self)@),
    {
        self.stage = Stage::Done;
        self.columns = Vec::new();
        self.rows = Vec::new();
        self.row = Vec::new();
        proof {
            assert(self@.columns =~= seq![]);
            assert(self@.rows =~= seq![]);
            assert(self@.row =~= seq![]);
        }
    }

    /// Takes what the last ODBC call gave and says what to do next, or
    /// answers. A failure or a panic at any point ends the session with a
    /// driver error; a query's answer holds the column names and every row
    /// read, each row one text per column.
    pub fn step(&mut self, event: OdbcEvent) -> (action: OdbcAction)
        requires
            model_wf(old(self)@),
            accepts_event(old(self)@, event@),
        ensures
            (final(self)@, action@) == next(old(self)@, event@),
            model_wf(final(self)@),
    {
        match event {
            OdbcEvent::Failed(t) => self.fail_with(OdbcError::Driver(t)),
            OdbcEvent::Panicked(p) => {
                let text = match &p {
                    Some(m) => panic_message(Some(m.as_str())),
                    None => panic_message(None),
                };
                self.fail_with(OdbcError::Driver(text))
            },
            OdbcEvent::Unsupported => self.fail_with(OdbcError::UnsupportedPlatform),
            OdbcEvent::Connected => {
                if self.ping {
                    self.finish();
                    OdbcAction::Pinged(Ok(()))
                } else {
                    self.stage = Stage::Executing;
                    OdbcAction::Execute { sql: self.sql.clone() }
                }
            },
            OdbcEvent::Executed { has_cursor } => {
                if has_cursor {
                    self.stage = Stage::ReadingColumns;
                    OdbcAction::ReadColumnNames
                } else {
                    self.finish();
                    let resp = QueryResponse { columns: Vec::new(), rows: Vec::new() };
                    assert(response_model(resp).columns =~= seq![]);
                    assert(response_model(resp).rows =~= seq![]);
                    OdbcAction::Answered(Ok(resp))
                }
            },
            OdbcEvent::ColumnNames(names) => {
                match narrow_column_count(names.len()) {
                    Ok(_) => {
                        self.stage = Stage::Fetching;
                        self.columns = names;
                        self.rows = Vec::new();
                        self.row = Vec::new();
                        proof {
                            assert(self@.rows =~= seq![]);
                            assert(self@.row =~= seq![]);
                        }
                        OdbcAction::FetchRow
                    },
                    Err(text) => self.fail_with(OdbcError::Driver(text)),
                }
            },
            OdbcEvent::Row(present) => {
                if !present {
                    let mut columns = Vec::new();
                    let mut rows = Vec::new();
                    std::mem::swap(&mut columns, &mut self.columns);
                    std::mem::swap(&mut rows, &mut self.rows);
                    self.finish();
                    OdbcAction::Answered(Ok(QueryResponse { columns, rows }))
                } else if self.columns.len() == 0 {
                    let ghost old_rows = self.rows.deep_view();
                    let empty: Vec<String> = Vec::new();
                    assert(empty.deep_view() =~= seq![]);
                    self.rows.push(empty);
                    proof {
                        assert(self.rows.deep_view() =~= old_rows.push(seq![]));
                    }
                    OdbcAction::FetchRow
                } else {
                    self.stage = Stage::ReadingCell;
                    OdbcAction::ReadCell { column: 1 }
                }
            },
            OdbcEvent::Cell(c) => {
                let text = match &c {
                    Some(units) => decode_utf16_lossy(units.as_slice()),
                    None => String::new(),
                };
                let ghost old_row = self.row.deep_view();
                let ghost old_rows = self.rows.deep_view();
                self.row.push(text);
                proof {
                    assert(self.row.deep_view() =~= old_row.push(cell_text(m_cell(c))));
                }
                if self.row.len() == self.columns.len() {
                    let mut row = Vec::new();
                    std::mem::swap(&mut row, &mut self.row);
                    let ghost full = row.deep_view();
                    self.rows.push(row);
                    self.stage = Stage::Fetching;
                    proof {
                        assert(self.rows.deep_view() =~= old_rows.push(full));
                        assert(self@.row =~= seq![]);
                    }
                    OdbcAction::FetchRow
                } else {
                    let column = (self.row.len() + 1) as u16;
                    OdbcAction::ReadCell { column }
                }
            },
        }
    }
}

/// The model of a cell event's payload.
pub open spec fn m_cell(c: Option<Vec<u16>>) -> Option<Seq<u16>> {
    match c {
        Some(units) => Some(units@),
        None => None,
    }
}

/// Every answer to a query has one text per column in every row; each step
/// keeps what every session keeps.
pub proof fn law_answers_are_rectangular(m: SessionModel, e: EventModel)
    requires
        model_wf(m),
        accepts_event(m, e),
    ensures
        model_wf(next(m, e).0),
        next(m, e).1 matches ActionModel::Answered(Ok(r)) ==> forall|i: int|
            0 <= i < r.rows.len() ==> (#[trigger] r.rows[i]).len() == r.columns.len(),
{
}

/// A session ends with its answer: once finished it takes no more events.
pub proof fn law_finished_sessions_take_nothing(m: SessionModel, e: EventModel)
    requires
        m.stage == Stage::Done,
    ensures
        !accepts_event(m, e),
{
}

/// A failure at any point of a session ends it, and the answer is a driver
/// error with the failure's message: for a health check and a query alike.
pub proof fn law_failure_answers_with_its_message(m: SessionModel, t: Seq<char>)
    requires
        accepts_event(m, EventModel::Failed(t)),
    ensures
        next(m, EventModel::Failed(t)).0.stage == Stage::Done,
        m.ping ==> next(m, EventModel::Failed(t)).1 == ActionModel::Pinged(
            Err(OdbcErrorModel::Driver(t)),
        ),
        !m.ping ==> next(m, EventModel::Failed(t)).1 == ActionModel::Answered(
            Err(OdbcErrorModel::Driver(t)),
        ),
{
}

/// A `--dsn` value that holds `=` anywhere is already a connection string
/// and is used as it is; any other value names a DSN, and the connection
/// string is `DSN=` with the value and `;`.
pub proof fn law_connection_string_by_equals_sign(dsn: Seq<char>)
    ensures
        (exists|i: int| 0 <= i < dsn.len() && dsn[i] == '=') ==> connection_string_of(dsn) == dsn,
        (forall|i: int| 0 <= i < dsn.len() ==> dsn[i] != '=') ==> connection_string_of(dsn)
            == "DSN="@ + dsn + ";"@,
{
}

/// While rows are fetched, every row is kept whatever its cells hold: a
/// fetched row adds no row until its cells are read (or, with no columns,
/// adds the empty row); a cell that is not the row's last is appended to the
/// row in progress; the row's last cell completes the row, which is then
/// appended to the rows read, cell for cell (an SQL `NULL` as empty text, any
/// other cell as its decoded text); and the end of the rows answers with the
/// column names and exactly the rows read.
pub proof fn law_every_fetched_row_is_kept(m: SessionModel, e: EventModel)
    requires
        model_wf(m),
        accepts_event(m, e),
        m.stage == Stage::Fetching || m.stage == Stage::ReadingCell,
    ensures
        ({
            let (n, act) = next(m, e);
            &&& e == EventModel::Row(true) && m.columns.len() > 0 ==> n.rows == m.rows && n.row
                == Seq::<Seq<char>>::empty() && act == ActionModel::ReadCell(1)
            &&& e == EventModel::Row(true) && m.columns.len() == 0 ==> n.rows == m.rows.push(
                Seq::<Seq<char>>::empty(),
            )
            &&& e matches EventModel::Cell(c) ==> {
                let text = match c {
                    Some(units) => utf16_lossy(units),
                    None => Seq::<char>::empty(),
                };
                &&& m.row.len() + 1 == m.columns.len() ==> n.rows == m.rows.push(m.row.push(text))
                    && n.rows.len() == m.rows.len() + 1 && n.row.len() == 0
                &&& m.row.len() + 1 < m.columns.len() ==> n.rows == m.rows && n.row == m.row.push(
                    text,
                )
            }
            &&& e == EventModel::Row(false) ==> act == ActionModel::Answered(
                Ok(ResponseModel { columns: m.columns, rows: m.rows }),
            )
        }),
{
}

} // verus!
