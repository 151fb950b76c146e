//! The stream of record batches that one query execution hands to the host
//! engine.
//!
//! A stream is pulled one item at a time. It first yields the batch that was
//! fetched when the query was started, then relays what the driver's session
//! gives, fetch by fetch, and ends when the session has no more batches or a
//! fetch fails. After its end it yields nothing and asks nothing of the
//! driver.

use crate::error::{cx_dst_error_to_df, has_origin_and_detail, ExternalError, Origin};
use crate::schema::{
    empty_schema, has_lowercase_names, is_lowered, schema_to_lowercase, Field, Schema,
};
use connectorx::constants::RECORD_BATCH_SIZE;
use connectorx::destinations::arrow::{ArrowDestination, ArrowDestinationError};
use datafusion::arrow::record_batch::RecordBatch;
use vstd::prelude::*;

verus! {

/// The driver's transfer session for one query: it holds the batches that the
/// query produced and the schema that the source reported for them.
#[verifier::external_type_specification]
#[verifier::external_body]
pub struct ExArrowDestination(ArrowDestination);

/// A batch of rows as the columnar library holds it. The library carries
/// batches through and never looks inside one.
#[verifier::external_body]
pub struct Batch {
    pub inner: RecordBatch,
}

/// The fields of the schema that a session reports, in their order.
pub uninterp spec fn reported_fields(session: ArrowDestination) -> Seq<Field>;

/// `ArrowDestination::record_batch`: takes one batch out of the session, if
/// it holds one. The batches lie behind a lock that the session shares with
/// its writers, so nothing is claimed of what comes back. The schema that the
/// session reports is not touched.
#[verifier::external_body]
fn fetch(session: &mut ArrowDestination) -> (fetched: Result<Option<Batch>, ArrowDestinationError>)
    ensures
        reported_fields(*final(session)) == reported_fields(*old(session)),
{
    match session.record_batch() {
        Ok(Some(inner)) => Ok(Some(Batch { inner })),
        Ok(None) => Ok(None),
        Err(err) => Err(err),
    }
}

/// `ArrowDestination::arrow_schema`, field by field through `Field::name`,
/// `Field::data_type` and `Field::is_nullable`: the schema that the session
/// reports, with the fields in their order.
#[verifier::external_body]
fn reported_schema(session: &ArrowDestination) -> (schema: Schema)
    ensures
        schema.fields@ == reported_fields(*session),
{
    let reported = session.arrow_schema();
    let mut fields = Vec::new();
    for field in reported.fields().iter() {
        fields.push(
            Field {
                name: field.name().clone(),
                data_type: field.data_type().clone(),
                nullable: field.is_nullable(),
            },
        );
    }
    Schema { fields }
}

/// The constant `RECORD_BATCH_SIZE` of the driver: the number of rows that it
/// puts into one batch, 64 times 1024.
#[verifier::external_body]
fn driver_batch_size() -> (size: usize)
    ensures
        size == 65536,
{
    RECORD_BATCH_SIZE
}

/// Where a stream stands.
#[derive(Clone, Copy, Debug, PartialEq, Eq, Structural)]
pub enum Phase {
    /// The first batch has not been pulled yet.
    Seeded,
    /// The first batch is out; pulls go to the session.
    Draining,
    /// The stream has ended, by exhaustion or by an error.
    Finished,
}

/// What one pull gives, without its payload.
#[derive(Clone, Copy, Debug, PartialEq, Eq, Structural)]
pub enum Signal {
    /// A batch.
    Batch,
    /// An error.
    Error,
    /// The end of the stream.
    End,
}

/// What a stream yields on one pull.
pub type Item = Option<Result<Batch, ExternalError>>;

/// The signal of an item.
pub open spec fn signal_of(item: Item) -> Signal {
    match item {
        Some(Ok(_)) => Signal::Batch,
        Some(Err(_)) => Signal::Error,
        None => Signal::End,
    }
}

/// Whether a stream in the given phase may answer a pull with the given
/// signal. Before the first pull the answer is the seeded batch; after the
/// end it is the end again; in between the session decides.
pub open spec fn admits(phase: Phase, signal: Signal) -> bool {
    match phase {
        Phase::Seeded => signal == Signal::Batch,
        Phase::Draining => true,
        Phase::Finished => signal == Signal::End,
    }
}

/// The phase of a stream after it has answered a pull with the given signal.
pub open spec fn phase_after(signal: Signal) -> Phase {
    match signal {
        Signal::Batch => Phase::Draining,
        Signal::Error => Phase::Finished,
        Signal::End => Phase::Finished,
    }
}

/// Whether a stream in the given phase may answer successive pulls with the
/// given signals.
pub open spec fn admits_trace(phase: Phase, trace: Seq<Signal>) -> bool
    decreases trace.len(),
{
    trace.len() == 0 || (admits(phase, trace[0]) && admits_trace(
        phase_after(trace[0]),
        trace.drop_first(),
    ))
}

/// The pair that every size hint is: the driver's batch size as the lower
/// and as the upper bound.
pub open spec fn fixed_size_hint() -> (usize, Option<usize>) {
    (65536usize, Some(65536usize))
}

/// Whether `item` is what a stream yields for what a fetch gave: a batch is
/// handed on, no batch is the end of the stream, and a failure is the
/// external error of a failed fetch.
pub open spec fn relays(fetched: Result<Option<Batch>, ArrowDestinationError>, item: Item) -> bool {
    match fetched {
        Ok(Some(batch)) => item == Some(Ok::<Batch, ExternalError>(batch)),
        Ok(None) => item is None,
        Err(_) => item matches Some(Err(error)) && has_origin_and_detail(error, Origin::DriverFetch),
    }
}

/// What the stream still draws on.
enum Source {
    Seeded(Batch, ArrowDestination),
    Draining(ArrowDestination),
    Finished,
}

/// The stream of the batches of one query execution. It owns the session.
pub struct ArrowDestinationStream {
    schema: Schema,
    source: Source,
}

impl ArrowDestinationStream {
    /// Where the stream stands.
    pub closed spec fn phase(&self) -> Phase {
        match self.source {
            Source::Seeded(_, _) => Phase::Seeded,
            Source::Draining(_) => Phase::Draining,
            Source::Finished => Phase::Finished,
        }
    }

    /// The batch that the first pull will yield, while it has not been pulled.
    pub closed spec fn seed(&self) -> Option<Batch> {
        match self.source {
            Source::Seeded(batch, _) => Some(batch),
            _ => None,
        }
    }

    /// The session that pulls go to, until the stream has ended.
    pub closed spec fn session(&self) -> Option<ArrowDestination> {
        match self.source {
            Source::Seeded(_, session) => Some(session),
            Source::Draining(session) => Some(session),
            Source::Finished => None,
        }
    }

    /// The fields of the stream's schema.
    pub closed spec fn fields(&self) -> Seq<Field> {
        self.schema.fields@
    }

    /// A stream holds its session until it has ended and no longer: the end
    /// releases what the driver held for the query.
    pub proof fn lemma_session_until_finished(self)
        ensures
            self.session() is None <==> self.phase() == Phase::Finished,
            self.seed() is Some <==> self.phase() == Phase::Seeded,
    {
    }

    /// The stream of a query that gave no batch: it has ended already, and
    /// its schema has no fields, whatever the source would have reported.
    pub fn exhausted() -> (stream: Self)
        ensures
            stream.phase() == Phase::Finished,
            stream.fields().len() == 0,
    {
        ArrowDestinationStream { schema: empty_schema(), source: Source::Finished }
    }

    /// The stream that yields `first` and then what `session` gives. Its
    /// schema is the one that the session reports, with lowercase names.
    pub fn seeded(first: Batch, session: ArrowDestination) -> (stream: Self)
        ensures
            stream.phase() == Phase::Seeded,
            stream.seed() == Some(first),
            stream.session() == Some(session),
            is_lowered(reported_fields(session), stream.fields()),
            has_lowercase_names(stream.fields()),
    {
        let reported = reported_schema(&session);
        let schema = schema_to_lowercase(&reported);
        ArrowDestinationStream { schema, source: Source::Seeded(first, session) }
    }

    /// The stream of a query whose first fetch from `session` gave `first`.
    /// A failed fetch gives no stream but the external error of a failed
    /// fetch; no batch gives the exhausted stream; a batch gives the stream
    /// seeded with it.
    pub fn from_first_fetch(
        first: Result<Option<Batch>, ArrowDestinationError>,
        session: ArrowDestination,
    ) -> (started: Result<Self, ExternalError>)
        ensures
            match first {
                Ok(Some(batch)) => {
                    &&& started matches Ok(stream)
                    &&& stream.phase() == Phase::Seeded
                    &&& stream.seed() == Some(batch)
                    &&& stream.session() == Some(session)
                    &&& is_lowered(reported_fields(session), stream.fields())
                    &&& has_lowercase_names(stream.fields())
                },
                Ok(None) => {
                    &&& started matches Ok(stream)
                    &&& stream.phase() == Phase::Finished
                    &&& stream.fields().len() == 0
                },
                Err(_) => started matches Err(error) && has_origin_and_detail(error, Origin::DriverFetch),
            },
    {
        match first {
            Ok(Some(batch)) => Ok(Self::seeded(batch, session)),
            Ok(None) => Ok(Self::exhausted()),
            Err(err) => Err(cx_dst_error_to_df(err)),
        }
    }

    /// The stream of a query on a session that was just opened: fetches once
    /// and goes on as `from_first_fetch` does. What the fetch gives is the
    /// driver's to decide, so this much holds whatever it gave: a stream that
    /// comes back is the exhausted one or is seeded and has the session's
    /// schema with lowercase names, and an error that comes back is that of a
    /// failed fetch.
    pub fn start(session: ArrowDestination) -> (started: Result<Self, ExternalError>)
        ensures
            match started {
                Ok(stream) => {
                    ||| stream.phase() == Phase::Finished && stream.fields().len() == 0
                    ||| {
                        &&& stream.phase() == Phase::Seeded
                        &&& is_lowered(reported_fields(session), stream.fields())
                        &&& has_lowercase_names(stream.fields())
                    }
                },
                Err(error) => has_origin_and_detail(error, Origin::DriverFetch),
            },
    {
        let mut session = session;
        let first = fetch(&mut session);
        Self::from_first_fetch(first, session)
    }

    /// The stream's schema.
    pub fn schema(&self) -> (schema: &Schema)
        ensures
            schema.fields@ == self.fields(),
    {
        &self.schema
    }

    /// Where the stream stands.
    pub fn current_phase(&self) -> (phase: Phase)
        ensures
            phase == self.phase(),
    {
        match &self.source {
            Source::Seeded(_, _) => Phase::Seeded,
            Source::Draining(_) => Phase::Draining,
            Source::Finished => Phase::Finished,
        }
    }

    /// Answers a pull of a draining stream for which the session's fetch gave
    /// `fetched`: the stream yields what `relays` says, keeps its session if
    /// that is a batch, and has ended if it is not.
    pub fn accept(&mut self, fetched: Result<Option<Batch>, ArrowDestinationError>) -> (item: Item)
        requires
            old(self).phase() == Phase::Draining,
        ensures
            relays(fetched, item),
            final(self).phase() == phase_after(signal_of(item)),
            final(self).fields() == old(self).fields(),
            final(self).session() == if item matches Some(Ok(_)) {
                old(self).session()
            } else {
                None
            },
    {
        match fetched {
            Ok(Some(batch)) => Some(Ok(batch)),
            Ok(None) => {
                self.source = Source::Finished;
                None
            },
            Err(err) => {
                self.source = Source::Finished;
                Some(Err(cx_dst_error_to_df(err)))
            },
        }
    }

    /// Pulls the next item. A seeded stream yields its seed without asking
    /// the session. A draining stream fetches from the session once and
    /// answers as `accept` does for what that gave. A finished stream yields
    /// the end again and asks nothing. The schema stays.
    pub fn poll_next(&mut self) -> (item: Item)
        ensures
            admits(old(self).phase(), signal_of(item)),
            final(self).phase() == phase_after(signal_of(item)),
            final(self).fields() == old(self).fields(),
            old(self).phase() == Phase::Seeded ==> {
                &&& item == Some(Ok::<Batch, ExternalError>(old(self).seed().unwrap()))
                &&& final(self).session() == old(self).session()
            },
            item matches Some(Err(error)) ==> has_origin_and_detail(error, Origin::DriverFetch),
    {
        let mut source = Source::Finished;
        core::mem::swap(&mut self.source, &mut source);
        match source {
            Source::Seeded(first, session) => {
                self.source = Source::Draining(session);
                Some(Ok(first))
            },
            Source::Draining(session) => {
                let mut session = session;
                let fetched = fetch(&mut session);
                self.source = Source::Draining(session);
                self.accept(fetched)
            },
            Source::Finished => None,
        }
    }

    /// The bounds on what is left: the driver's batch size, twice, whatever
    /// is left in truth.
    pub fn size_hint(&self) -> (hint: (usize, Option<usize>))
        ensures
            hint == fixed_size_hint(),
    {
        let size = driver_batch_size();
        (size, Some(size))
    }
}

/// Once a stream has answered a pull with the end or with an error, it
/// answers every later pull with the end: no batch comes after.
pub proof fn lemma_no_batch_after_end(phase: Phase, trace: Seq<Signal>, i: int, j: int)
    requires
        admits_trace(phase, trace),
        0 <= i < j < trace.len(),
        trace[i] != Signal::Batch,
    ensures
        trace[j] == Signal::End,
    decreases trace.len(),
{
    let rest = trace.drop_first();
    if i == 0 {
        lemma_finished_stays_finished(rest, j - 1);
    } else {
        lemma_no_batch_after_end(phase_after(trace[0]), rest, i - 1, j - 1);
    }
}

/// A finished stream answers every pull with the end.
pub proof fn lemma_finished_stays_finished(trace: Seq<Signal>, j: int)
    requires
        admits_trace(Phase::Finished, trace),
        0 <= j < trace.len(),
    ensures
        trace[j] == Signal::End,
    decreases trace.len(),
{
    if j > 0 {
        lemma_finished_stays_finished(trace.drop_first(), j - 1);
    }
}

} // verus!
