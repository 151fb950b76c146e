//! Executors: what the host engine calls to run a query.
//!
//! An executor is made once, from a connection descriptor or from a
//! connection that the driver has built already, and may serve many queries.
//! Each execution works on a copy of the connection and on a session of its
//! own, so executions share no state that changes.

use crate::error::{cx_error_to_df, cx_out_error_to_df, has_origin_and_detail, ExternalError, Origin};
use crate::schema::{has_lowercase_names, is_lowered};
use crate::stream::{reported_fields, ArrowDestinationStream, Phase};
use connectorx::destinations::arrow::ArrowDestination;
use connectorx::errors::{ConnectorXError, ConnectorXOutError};
use connectorx::source_router::SourceConn;
use connectorx::sql::CXQuery;
use vstd::prelude::*;

verus! {

/// The driver's connection to a source: what it made of a descriptor.
#[verifier::external_type_specification]
#[verifier::external_body]
pub struct ExSourceConn(SourceConn);

/// `<SourceConn as Clone>::clone`, which the driver derives: the copy is the
/// value that was copied.
pub assume_specification[ <SourceConn as Clone>::clone ](conn: &SourceConn) -> (copy: SourceConn)
    ensures
        copy == *conn,
;

/// What the driver makes of a connection descriptor: the connection, or
/// nothing where the descriptor is no URL.
pub uninterp spec fn parsed_descriptor(dsn: Seq<char>) -> Option<SourceConn>;

/// The text of the URL that a connection holds.
pub uninterp spec fn connection_url(conn: SourceConn) -> Seq<char>;

/// `SourceConn::try_from` on a string slice: parses the descriptor as a URL
/// and tells the kind of source by its scheme. It depends on the descriptor
/// alone, and fails where the descriptor is no URL.
#[verifier::external_body]
fn parse_descriptor(dsn: &str) -> (parsed: Result<SourceConn, ConnectorXError>)
    ensures
        match parsed {
            Ok(conn) => parsed_descriptor(dsn@) == Some(conn),
            Err(_) => parsed_descriptor(dsn@) is None,
        },
{
    SourceConn::try_from(dsn)
}

/// `Url::to_string` on the field `conn` of a connection: the URL as text.
#[verifier::external_body]
fn url_text(conn: &SourceConn) -> (text: String)
    ensures
        text@ == connection_url(*conn),
{
    conn.conn.to_string()
}

/// The driver's form of a query: the text as the caller wrote it, or a text
/// that is wrapped in a subquery already.
#[verifier::external_type_specification]
#[verifier::reject_recursive_types(Q)]
pub struct ExCXQuery<Q>(CXQuery<Q>);

/// Whether `query` is the text `sql` as the caller wrote it.
pub open spec fn is_naked_query(query: CXQuery<String>, sql: Seq<char>) -> bool {
    match query {
        CXQuery::Naked(text) => text@ == sql,
        CXQuery::Wrapped(_) => false,
    }
}

/// `CXQuery::from` on a string slice: the text as a query that the caller
/// wrote, not wrapped.
#[verifier::external_body]
fn naked_query(sql: &str) -> (query: CXQuery<String>)
    ensures
        is_naked_query(query, sql@),
{
    CXQuery::from(sql)
}

/// What the driver is asked to open a session for: the arguments of its
/// `get_arrow`, each under the name that it has there.
pub struct SessionRequest {
    pub source_conn: SourceConn,
    pub origin_query: Option<String>,
    pub queries: Vec<CXQuery<String>>,
    pub pre_execution_queries: Option<Vec<String>>,
}

/// What the host engine may ask of any executor, whatever driver backs it.
pub trait SQLExecutor {
    /// The stream that an execution hands back.
    type Stream;

    /// The error that an execution fails with: the host engine's own.
    type Error;

    /// A stable name for the kind of executor.
    fn name(&self) -> &str;

    /// Where or how the executor runs its queries, if that can be told.
    fn compute_context(&self) -> Option<String>;

    /// Starts the query and hands back the stream of its batches, ready to
    /// be pulled. It may block for as long as the first batch takes.
    fn execute(&self, query: &str) -> Result<Self::Stream, Self::Error>;
}

/// The name of every executor that the driver backs.
pub open spec fn executor_name() -> Seq<char> {
    "connector_x_executor"@
}

/// The executor that the driver backs.
pub struct CXExecutor {
    context: String,
    conn: SourceConn,
}

impl CXExecutor {
    /// The compute context: a text that tells where the executor runs its
    /// queries. It starts as the descriptor and changes by `context` only.
    pub closed spec fn context_text(&self) -> Seq<char> {
        self.context@
    }

    /// The connection that executions copy. It never changes.
    pub closed spec fn connection(&self) -> SourceConn {
        self.conn
    }

    /// Makes an executor from a connection descriptor. Where the driver
    /// cannot parse the descriptor there is no executor but the external
    /// error of a connection failure; else the executor holds the parsed
    /// connection, and the descriptor is its compute context.
    pub fn new(dsn: String) -> (made: Result<Self, ExternalError>)
        ensures
            match parsed_descriptor(dsn@) {
                Some(conn) => {
                    &&& made matches Ok(executor)
                    &&& executor.connection() == conn
                    &&& executor.context_text() == dsn@
                },
                None => made matches Err(error) && has_origin_and_detail(error, Origin::Driver),
            },
    {
        let parsed = parse_descriptor(dsn.as_str());
        Self::from_parsed(dsn, parsed)
    }

    /// Makes an executor from a descriptor and from what the driver made of
    /// it. A connection gives the executor that holds it, with the descriptor
    /// as its compute context; a failure gives the external error of a
    /// connection failure.
    pub fn from_parsed(dsn: String, parsed: Result<SourceConn, ConnectorXError>) -> (made: Result<
        Self,
        ExternalError,
    >)
        ensures
            match parsed {
                Ok(conn) => {
                    &&& made matches Ok(executor)
                    &&& executor.connection() == conn
                    &&& executor.context_text() == dsn@
                },
                Err(_) => made matches Err(error) && has_origin_and_detail(error, Origin::Driver),
            },
    {
        match parsed {
            Ok(conn) => Ok(CXExecutor { context: dsn, conn }),
            Err(err) => Err(cx_error_to_df(err)),
        }
    }

    /// Makes an executor from a connection. The text of the connection's URL
    /// is its compute context.
    pub fn new_with_conn(conn: SourceConn) -> (executor: Self)
        ensures
            executor.connection() == conn,
            executor.context_text() == connection_url(conn),
    {
        CXExecutor { context: url_text(&conn), conn }
    }

    /// Sets the compute context. The connection is not touched.
    pub fn context(&mut self, context: String)
        ensures
            final(self).context_text() == context@,
            final(self).connection() == old(self).connection(),
    {
        self.context = context;
    }

    /// The executor's name.
    pub fn name(&self) -> (name: &'static str)
        ensures
            name@ == executor_name(),
    {
        "connector_x_executor"
    }

    /// The compute context, which an executor of this kind always has.
    pub fn compute_context(&self) -> (context: Option<String>)
        ensures
            context matches Some(text) && text@ == self.context_text(),
    {
        Some(self.context.clone())
    }

    /// What to ask the driver for when `sql` is to be run: a session on a
    /// copy of the connection, for this one query as it stands, with nothing
    /// run before it. The executor stays as it is, so executions that run
    /// side by side share nothing.
    pub fn session_request(&self, sql: &str) -> (request: SessionRequest)
        ensures
            request.source_conn == self.connection(),
            request.origin_query is None,
            request.queries@.len() == 1,
            is_naked_query(request.queries@[0], sql@),
            request.pre_execution_queries is None,
    {
        let mut queries: Vec<CXQuery<String>> = Vec::new();
        queries.push(naked_query(sql));
        SessionRequest {
            source_conn: self.conn.clone(),
            origin_query: None,
            queries,
            pre_execution_queries: None,
        }
    }

    /// Goes on with an execution once the driver has answered the request of
    /// `session_request`. Where that failed there is no stream but
    /// the external error of a session that could not be opened. Else the
    /// first batch is fetched at once: a failed fetch gives the external
    /// error of a failed fetch; no batch gives a stream that has ended and
    /// whose schema has no fields; a batch gives a stream that is seeded with
    /// it and whose schema is the one that the session reports, with
    /// lowercase names. Which of the three the fetch gives is the driver's to
    /// decide.
    pub fn execute(&self, opened: Result<ArrowDestination, ConnectorXOutError>) -> (started: Result<
        ArrowDestinationStream,
        ExternalError,
    >)
        ensures
            match opened {
                Ok(session) => match started {
                    Ok(stream) => {
                        ||| stream.phase() == Phase::Finished && stream.fields().len() == 0
                        ||| {
                            &&& stream.phase() == Phase::Seeded
                            &&& is_lowered(reported_fields(session), stream.fields())
                            &&& has_lowercase_names(stream.fields())
                        }
                    },
                    Err(error) => has_origin_and_detail(error, Origin::DriverFetch),
                },
                Err(_) => started matches Err(error) && has_origin_and_detail(error, Origin::DriverSession),
            },
    {
        match opened {
            Ok(session) => ArrowDestinationStream::start(session),
            Err(err) => Err(cx_out_error_to_df(err)),
        }
    }
}

} // verus!
