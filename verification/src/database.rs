//! The connection manager and the document store, without the wire.
//!
//! Nothing here talks to a database. The startup sequence and the three store
//! operations are written as decisions: each says which statement is to be run
//! next and what the database's answer means. Whoever owns the connection pool
//! runs the statements and hands the answers back.

use vstd::prelude::*;
use vstd::string::*;
use crate::decimal::{decimal, push_decimal};
use crate::document::{clone_optional, optional_text, DocumentView, PersistedDocument};

verus! {

/// The most connections the pool may hold at once.
pub const MAX_CONNECTIONS: u32 = 5;

/// A statement for the database, with the values bound to its placeholders.
#[derive(PartialEq, Eq, Debug)]
pub enum Statement {
    /// A trivial round trip that shows the connection is alive.
    Probe,
    /// Creates the `document` table unless it is there already.
    EnsureSchema,
    /// Counts the rows of the table right after it was ensured; advisory.
    CheckTable,
    /// Fetches the one row with this id.
    Select { id: String },
    /// Inserts the row, or overwrites text and language where the id exists.
    Upsert { id: String, document: PersistedDocument },
    /// Counts the persisted documents.
    Count,
}

/// A statement as a mathematical value.
pub enum StatementView {
    Probe,
    EnsureSchema,
    CheckTable,
    Select { id: Seq<char> },
    Upsert { id: Seq<char>, document: DocumentView },
    Count,
}

impl View for Statement {
    type V = StatementView;

    open spec fn view(&self) -> StatementView {
        match *self {
            Statement::Probe => StatementView::Probe,
            Statement::EnsureSchema => StatementView::EnsureSchema,
            Statement::CheckTable => StatementView::CheckTable,
            Statement::Select { id } => StatementView::Select { id: id@ },
            Statement::Upsert { id, document } => StatementView::Upsert {
                id: id@,
                document: document@,
            },
            Statement::Count => StatementView::Count,
        }
    }
}

/// The SQL text of each statement.
pub open spec fn sql_text(statement: StatementView) -> Seq<char> {
    match statement {
        StatementView::Probe => "SELECT 1"@,
        StatementView::EnsureSchema =>
            "CREATE TABLE IF NOT EXISTS document (id TEXT PRIMARY KEY, text TEXT NOT NULL, language TEXT)"@,
        StatementView::CheckTable => "SELECT COUNT(*) FROM document"@,
        StatementView::Select { .. } => "SELECT text, language FROM document WHERE id = $1"@,
        StatementView::Upsert { .. } =>
            "INSERT INTO document (id, text, language) VALUES ($1, $2, $3) ON CONFLICT(id) DO UPDATE SET text = excluded.text, language = excluded.language"@,
        StatementView::Count => "SELECT count(*) FROM document"@,
    }
}

/// The values bound to the placeholders of each statement, `$1` first.
/// `None` binds SQL `NULL`.
pub open spec fn bound_values(statement: StatementView) -> Seq<Option<Seq<char>>> {
    match statement {
        StatementView::Select { id } => seq![Some(id)],
        StatementView::Upsert { id, document } => seq![
            Some(id),
            Some(document.text),
            document.language,
        ],
        _ => Seq::empty(),
    }
}

/// The characters of each bound value, in order.
pub open spec fn values_view(values: Seq<Option<String>>) -> Seq<Option<Seq<char>>> {
    Seq::new(values.len(), |i: int| optional_text(values[i]))
}

impl Statement {
    /// The SQL text to send.
    pub fn sql(&self) -> (text: &'static str)
        ensures
            text@ == sql_text(self@),
    {
        match self {
            Statement::Probe => "SELECT 1",
            Statement::EnsureSchema =>
                "CREATE TABLE IF NOT EXISTS document (id TEXT PRIMARY KEY, text TEXT NOT NULL, language TEXT)",
            Statement::CheckTable => "SELECT COUNT(*) FROM document",
            Statement::Select { .. } => "SELECT text, language FROM document WHERE id = $1",
            Statement::Upsert { .. } =>
                "INSERT INTO document (id, text, language) VALUES ($1, $2, $3) ON CONFLICT(id) DO UPDATE SET text = excluded.text, language = excluded.language",
            Statement::Count => "SELECT count(*) FROM document",
        }
    }

    /// The values to bind, `$1` first; `None` binds SQL `NULL`.
    pub fn binds(&self) -> (values: Vec<Option<String>>)
        ensures
            values_view(values@) == bound_values(self@),
    {
        let mut values: Vec<Option<String>> = Vec::new();
        match self {
            Statement::Select { id } => {
                values.push(Some(id.clone()));
            },
            Statement::Upsert { id, document } => {
                values.push(Some(id.clone()));
                values.push(Some(document.text.clone()));
                values.push(clone_optional(&document.language));
            },
            _ => {},
        }
        values
    }
}

/// The steps of bringing a database up, in the order they are taken.
#[derive(Clone, Copy, PartialEq, Eq, Debug, Structural)]
pub enum StartupStep {
    /// Open the bounded connection pool.
    Connect,
    /// Run the liveness probe.
    Probe,
    /// Make sure the table exists.
    EnsureSchema,
    /// Look at the table once; what comes back is only logged.
    CheckTable,
}

/// Whether a failure at `step` keeps the database from coming up.
/// Only the look at the table after it was ensured may fail without harm.
pub open spec fn is_fatal(step: StartupStep) -> bool {
    step != StartupStep::CheckTable
}

/// The step that follows `step`, if one does.
pub open spec fn step_after(step: StartupStep) -> Option<StartupStep> {
    match step {
        StartupStep::Connect => Some(StartupStep::Probe),
        StartupStep::Probe => Some(StartupStep::EnsureSchema),
        StartupStep::EnsureSchema => Some(StartupStep::CheckTable),
        StartupStep::CheckTable => None,
    }
}

/// How one step of the startup ended.
#[derive(PartialEq, Eq, Debug)]
pub enum StepOutcome {
    Succeeded,
    /// The step failed; the text is the underlying cause.
    Failed(String),
}

/// Why no database handle came out of the startup.
#[derive(PartialEq, Eq, Debug)]
pub struct ConnectionError {
    /// The step that failed.
    pub step: StartupStep,
    /// The underlying cause, as the driver reported it.
    pub cause: String,
}

/// What the owner of the pool is to do for the pending step.
#[derive(PartialEq, Eq, Debug)]
pub enum StartupAction {
    /// Open a pool on `uri` that holds at most `max_connections` connections.
    OpenPool { uri: String, max_connections: u32 },
    /// Run the statement on the pool.
    Execute(Statement),
}

/// A database that is being brought up: the target and the step that is pending.
#[derive(Debug)]
pub struct Startup {
    uri: String,
    step: StartupStep,
}

/// A driver for database operations: the handle that a completed startup yields.
/// There is no other way to come by one.
#[derive(Debug)]
pub struct Database {
    uri: String,
}

/// Where the startup stands after a step.
#[derive(Debug)]
pub enum Progress {
    /// Another step is pending.
    Continue(Startup),
    /// Every fatal step succeeded: the handle.
    Ready(Database),
    /// A fatal step failed: no handle.
    Failed(ConnectionError),
}

/// Where a startup stands, as a value of its own: what `Progress` says without
/// the handle and the pending state it carries.
pub enum Verdict {
    /// This step is pending.
    Pending(StartupStep),
    /// Every fatal step succeeded.
    Ready,
    /// A fatal step failed, with this step and cause.
    Failed(ConnectionError),
}

/// Where the startup stands once the pending `step` has ended with `outcome`:
/// a fatal step that failed ends it with the cause, the last step ends it
/// ready whatever came back, and any other step moves on to the next.
pub open spec fn verdict_after(step: StartupStep, outcome: StepOutcome) -> Verdict {
    match outcome {
        StepOutcome::Failed(cause) if is_fatal(step) => Verdict::Failed(
            ConnectionError { step, cause },
        ),
        _ => match step_after(step) {
            Some(following) => Verdict::Pending(following),
            None => Verdict::Ready,
        },
    }
}

/// Where a startup with `step` pending stands after the outcomes of its next
/// steps, taken in order; outcomes past its end are not looked at.
pub open spec fn verdict_of_run(step: StartupStep, outcomes: Seq<StepOutcome>) -> Verdict
    decreases outcomes.len(),
{
    if outcomes.len() == 0 {
        Verdict::Pending(step)
    } else {
        match verdict_after(step, outcomes[0]) {
            Verdict::Pending(following) => verdict_of_run(following, outcomes.skip(1)),
            ended => ended,
        }
    }
}

/// Whether `next` says of a startup on `uri` what `verdict` says: the same
/// standing, with the pending state or the handle still on `uri`.
pub open spec fn progress_matches(uri: Seq<char>, verdict: Verdict, next: Progress) -> bool {
    match verdict {
        Verdict::Pending(step) => next matches Progress::Continue(startup) && startup.uri() == uri
            && startup.step() == step,
        Verdict::Ready => next matches Progress::Ready(database) && database.uri() == uri,
        Verdict::Failed(error) => next == Progress::Failed(error),
    }
}

/// A handle comes out of a startup exactly when opening the pool, the probe
/// and the schema step all succeeded. The first of them to fail ends the
/// startup with its step and its cause, and no later step is taken. How the
/// look at the table ended makes no difference.
pub proof fn law_startup_outcome(outcomes: Seq<StepOutcome>)
    requires
        outcomes.len() == 4,
    ensures
        verdict_of_run(StartupStep::Connect, outcomes) is Ready <==> outcomes[0] is Succeeded
            && outcomes[1] is Succeeded && outcomes[2] is Succeeded,
        outcomes[0] matches StepOutcome::Failed(cause) ==> verdict_of_run(
            StartupStep::Connect,
            outcomes,
        ) == Verdict::Failed(ConnectionError { step: StartupStep::Connect, cause }),
        outcomes[0] is Succeeded ==> (outcomes[1] matches StepOutcome::Failed(cause)
            ==> verdict_of_run(StartupStep::Connect, outcomes) == Verdict::Failed(
            ConnectionError { step: StartupStep::Probe, cause },
        )),
        outcomes[0] is Succeeded && outcomes[1] is Succeeded ==> (outcomes[2] matches StepOutcome::Failed(
            cause,
        ) ==> verdict_of_run(StartupStep::Connect, outcomes) == Verdict::Failed(
            ConnectionError { step: StartupStep::EnsureSchema, cause },
        )),
{
    reveal_with_fuel(verdict_of_run, 5);
}

impl Startup {
    /// The connection URI this startup is for.
    pub closed spec fn uri(&self) -> Seq<char> {
        self.uri@
    }

    /// The step that is pending.
    pub closed spec fn step(&self) -> StartupStep {
        self.step
    }

    /// The step that is pending.
    pub fn pending(&self) -> (step: StartupStep)
        ensures
            step == self.step(),
    {
        self.step
    }

    /// What is to be done for the pending step: open the pool with its bound first,
    /// then the probe, the schema and the look at the table, each as a statement.
    pub fn action(&self) -> (action: StartupAction)
        ensures
            match self.step() {
                StartupStep::Connect => action matches StartupAction::OpenPool {
                    uri,
                    max_connections,
                } && uri@ == self.uri() && max_connections == MAX_CONNECTIONS,
                StartupStep::Probe => action == StartupAction::Execute(Statement::Probe),
                StartupStep::EnsureSchema => action == StartupAction::Execute(
                    Statement::EnsureSchema,
                ),
                StartupStep::CheckTable => action == StartupAction::Execute(Statement::CheckTable),
            },
    {
        match self.step {
            StartupStep::Connect => StartupAction::OpenPool {
                uri: self.uri.clone(),
                max_connections: MAX_CONNECTIONS,
            },
            StartupStep::Probe => StartupAction::Execute(Statement::Probe),
            StartupStep::EnsureSchema => StartupAction::Execute(Statement::EnsureSchema),
            StartupStep::CheckTable => StartupAction::Execute(Statement::CheckTable),
        }
    }

    /// Takes the outcome of the pending step and says where the startup stands.
    pub fn advance(self, outcome: StepOutcome) -> (next: Progress)
        ensures
            progress_matches(self.uri(), verdict_after(self.step(), outcome), next),
    {
        match self.step {
            StartupStep::Connect => match outcome {
                StepOutcome::Failed(cause) => Progress::Failed(
                    ConnectionError { step: StartupStep::Connect, cause },
                ),
                StepOutcome::Succeeded => Progress::Continue(
                    Startup { uri: self.uri, step: StartupStep::Probe },
                ),
            },
            StartupStep::Probe => match outcome {
                StepOutcome::Failed(cause) => Progress::Failed(
                    ConnectionError { step: StartupStep::Probe, cause },
                ),
                StepOutcome::Succeeded => Progress::Continue(
                    Startup { uri: self.uri, step: StartupStep::EnsureSchema },
                ),
            },
            StartupStep::EnsureSchema => match outcome {
                StepOutcome::Failed(cause) => Progress::Failed(
                    ConnectionError { step: StartupStep::EnsureSchema, cause },
                ),
                StepOutcome::Succeeded => Progress::Continue(
                    Startup { uri: self.uri, step: StartupStep::CheckTable },
                ),
            },
            StartupStep::CheckTable => Progress::Ready(Database { uri: self.uri }),
        }
    }
}

/// What came back from fetching one row.
#[derive(PartialEq, Eq, Debug)]
pub enum Fetched {
    /// The row that matched.
    Row(PersistedDocument),
    /// No row matched.
    NoRow,
    /// The fetch failed for another reason; the text is the cause.
    Failed(String),
}

/// What came back from executing a statement.
#[derive(PartialEq, Eq, Debug)]
pub enum Executed {
    /// The statement ran and touched this many rows.
    Done { rows_affected: u64 },
    /// The statement raised an error; the text is the cause.
    Failed(String),
}

/// What came back from counting.
#[derive(PartialEq, Eq, Debug)]
pub enum Counted {
    /// The count, as the database reports it.
    Rows(i64),
    /// The query failed; the text is the cause.
    Failed(String),
}

/// A store operation that did not go through.
#[derive(PartialEq, Eq, Debug)]
pub enum StoreError {
    /// The statement raised an error; the text is the cause.
    Query(String),
    /// The upsert ran but touched this many rows, not exactly one.
    RowCount(u64),
}

/// Why a load gave no document.
#[derive(PartialEq, Eq, Debug)]
pub enum LoadError {
    /// No document has this id.
    NotFound,
    /// The fetch itself failed.
    Store(StoreError),
}

/// What a row-count failure says, for `rows` rows touched.
pub open spec fn row_count_message(rows: u64) -> Seq<char> {
    "expected store() to receive 1 row affected, but it affected "@ + decimal(rows as nat)
        + " rows instead"@
}

impl StoreError {
    /// The failure in words: the cause as reported, or how many rows were touched
    /// where one was expected.
    pub fn message(&self) -> (text: String)
        ensures
            text@ == match *self {
                StoreError::Query(cause) => cause@,
                StoreError::RowCount(rows) => row_count_message(rows),
            },
    {
        match self {
            StoreError::Query(cause) => cause.clone(),
            StoreError::RowCount(rows) => {
                let mut text = String::from_str(
                    "expected store() to receive 1 row affected, but it affected ",
                );
                push_decimal(&mut text, *rows);
                text.append(" rows instead");
                text
            },
        }
    }
}

/// What a fetch means for a load: the row, "not found" for no row, and a store
/// error with the cause for any other failure.
pub open spec fn load_verdict(fetched: Fetched) -> Result<PersistedDocument, LoadError> {
    match fetched {
        Fetched::Row(document) => Ok(document),
        Fetched::NoRow => Err(LoadError::NotFound),
        Fetched::Failed(cause) => Err(LoadError::Store(StoreError::Query(cause))),
    }
}

/// What an execution means for a store: success exactly when one row was
/// touched; any other count is an error though the statement raised none.
pub open spec fn store_verdict(executed: Executed) -> Result<(), StoreError> {
    match executed {
        Executed::Done { rows_affected } => if rows_affected == 1 {
            Ok(())
        } else {
            Err(StoreError::RowCount(rows_affected))
        },
        Executed::Failed(cause) => Err(StoreError::Query(cause)),
    }
}

/// What a count reply means: the reported number as a `usize`.
pub open spec fn count_verdict(counted: Counted) -> Result<usize, StoreError> {
    match counted {
        Counted::Rows(rows) => Ok(rows as usize),
        Counted::Failed(cause) => Err(StoreError::Query(cause)),
    }
}

impl Database {
    /// The connection URI this handle was brought up on.
    pub closed spec fn uri(&self) -> Seq<char> {
        self.uri@
    }

    /// Begins bringing up a database on a PostgreSQL connection URI. Nothing has
    /// been contacted yet: opening the pool is the pending step.
    pub fn new(uri: &str) -> (startup: Startup)
        ensures
            startup.uri() == uri@,
            startup.step() == StartupStep::Connect,
    {
        Startup { uri: uri.to_owned(), step: StartupStep::Connect }
    }

    /// The statement that loads the document with this id.
    pub fn load(&self, document_id: &str) -> (statement: Statement)
        ensures
            statement@ == (StatementView::Select { id: document_id@ }),
    {
        Statement::Select { id: document_id.to_owned() }
    }

    /// What the fetch means: the document, or why there is none.
    pub fn loaded(&self, fetched: Fetched) -> (result: Result<PersistedDocument, LoadError>)
        ensures
            result == load_verdict(fetched),
    {
        match fetched {
            Fetched::Row(document) => Ok(document),
            Fetched::NoRow => Err(LoadError::NotFound),
            Fetched::Failed(cause) => Err(LoadError::Store(StoreError::Query(cause))),
        }
    }

    /// The statement that stores the document under this id: one upsert that
    /// carries the whole document, an absent language as absent.
    pub fn store(&self, document_id: &str, document: &PersistedDocument) -> (statement: Statement)
        ensures
            statement@ == (StatementView::Upsert { id: document_id@, document: document@ }),
    {
        Statement::Upsert { id: document_id.to_owned(), document: document.clone() }
    }

    /// What the execution means: stored, or why not.
    pub fn stored(&self, executed: Executed) -> (result: Result<(), StoreError>)
        ensures
            result == store_verdict(executed),
    {
        match executed {
            Executed::Done { rows_affected } => {
                if rows_affected == 1 {
                    Ok(())
                } else {
                    Err(StoreError::RowCount(rows_affected))
                }
            },
            Executed::Failed(cause) => Err(StoreError::Query(cause)),
        }
    }

    /// The statement that counts the documents in the database.
    pub fn count(&self) -> (statement: Statement)
        ensures
            statement == Statement::Count,
    {
        Statement::Count
    }

    /// What the count reply means: the number of documents, or why there is none.
    pub fn counted(&self, counted: Counted) -> (result: Result<usize, StoreError>)
        ensures
            result == count_verdict(counted),
            counted matches Counted::Rows(rows) ==> (0 <= rows <= usize::MAX ==> (result matches Ok(
                number,
            ) && number == rows)),
    {
        match counted {
            Counted::Rows(rows) => Ok(
                #[verifier::truncate]
                (rows as usize),
            ),
            Counted::Failed(cause) => Err(StoreError::Query(cause)),
        }
    }
}

} // verus!
