//! Folds the driver's error domains into the single external error that the
//! host engine observes.
//!
//! The host engine sees one kind of error only, which carries a message. The
//! message starts with a fixed text that tells where the failure arose, and
//! goes on with the debug rendering of the driver's own error.

use connectorx::destinations::arrow::ArrowDestinationError;
use connectorx::errors::{ConnectorXError, ConnectorXOutError};
use tokio::task::JoinError;
use vstd::prelude::*;
use vstd::string::*;

verus! {

/// The driver's error for a connection that could not be built or used.
#[verifier::external_type_specification]
#[verifier::external_body]
pub struct ExConnectorXError(ConnectorXError);

/// The driver's error for a transfer session that could not be opened.
#[verifier::external_type_specification]
#[verifier::external_body]
pub struct ExConnectorXOutError(ConnectorXOutError);

/// The driver's error for a fetch from an open session.
#[verifier::external_type_specification]
#[verifier::external_body]
pub struct ExArrowDestinationError(ArrowDestinationError);

/// The runtime's error for a task that did not run to its end.
#[verifier::external_type_specification]
#[verifier::external_body]
pub struct ExJoinError(JoinError);

/// Where a failure arose.
#[derive(Clone, Copy, Debug, PartialEq, Eq, Structural)]
pub enum Origin {
    /// The driver could not build a connection from its descriptor.
    Driver,
    /// A fetch from an open session failed.
    DriverFetch,
    /// The transfer session itself could not be opened.
    DriverSession,
    /// A task that ran the driver did not run to its end.
    Task,
}

/// The one error that the host engine observes: a message and nothing else.
/// Callers cannot tell the origins apart but by the message's text.
#[derive(Debug)]
pub struct ExternalError {
    pub message: String,
}

/// The text that a message of the given origin starts with. For the driver's
/// three origins it is the origin's tag, a colon and a space. No prefix is
/// the start of another.
pub open spec fn origin_prefix(origin: Origin) -> Seq<char> {
    match origin {
        Origin::Driver => "driver: "@,
        Origin::DriverFetch => "driver-fetch: "@,
        Origin::DriverSession => "driver-session: "@,
        Origin::Task => "task failed: "@,
    }
}

/// The message of a failure of the given origin whose driver-side rendering
/// is `detail`.
pub open spec fn unified_message(origin: Origin, detail: Seq<char>) -> Seq<char> {
    origin_prefix(origin) + detail
}

/// Whether `error` is the unified form of a failure of the given origin: its
/// message starts with the origin's prefix. By `lemma_origin_is_unique` this
/// holds of one origin at most.
pub open spec fn has_origin(error: ExternalError, origin: Origin) -> bool {
    origin_prefix(origin).is_prefix_of(error.message@)
}

/// Whether `error` is the unified form of a failure of the given origin that
/// carries a detail: something follows the origin's prefix.
pub open spec fn has_origin_and_detail(error: ExternalError, origin: Origin) -> bool {
    has_origin(error, origin) && error.message@.len() > origin_prefix(origin).len()
}

/// The message of an error tells its origin: no message starts with the
/// prefixes of two origins.
pub proof fn lemma_origin_is_unique(error: ExternalError, first: Origin, second: Origin)
    requires
        has_origin(error, first),
        has_origin(error, second),
    ensures
        first == second,
{
    reveal_strlit("driver: ");
    reveal_strlit("driver-fetch: ");
    reveal_strlit("driver-session: ");
    reveal_strlit("task failed: ");
    let message = error.message@;
    let one = origin_prefix(first);
    let two = origin_prefix(second);
    assert(one =~= message.subrange(0, one.len() as int));
    assert(two =~= message.subrange(0, two.len() as int));
    assert(message[0] == one[0] && message[0] == two[0]);
    assert(one.len() >= 6 && two.len() >= 6);
    if first != Origin::Task && second != Origin::Task {
        assert(message[6] == one[6] && message[6] == two[6]);
        assert(message[7] == one[7] && message[7] == two[7]);
    }
}

/// The prefix of an origin as text.
pub fn prefix_text(origin: Origin) -> (text: &'static str)
    ensures
        text@ == origin_prefix(origin),
{
    match origin {
        Origin::Driver => "driver: ",
        Origin::DriverFetch => "driver-fetch: ",
        Origin::DriverSession => "driver-session: ",
        Origin::Task => "task failed: ",
    }
}

/// Builds the external error for a failure of the given origin. The detail is
/// kept whole, behind the origin's prefix.
pub fn unify(origin: Origin, detail: &str) -> (error: ExternalError)
    ensures
        error.message@ == unified_message(origin, detail@),
        has_origin(error, origin),
{
    let mut message = String::from_str(prefix_text(origin));
    message.append(detail);
    ExternalError { message }
}

/// What the `Debug` impl of the runtime's `JoinError` writes for an error:
/// whether the task was cancelled or panicked, with the task's id and, for a
/// panic whose payload is a text, that text.
pub uninterp spec fn join_error_rendering(err: JoinError) -> Seq<char>;

/// The `{:?}` rendering of a `ConnectorXError`, as `format!` gives it. The
/// `Debug` impl is derived and starts with the name of the variant, so the
/// text is not empty. No more is claimed: the text may hold a backtrace and
/// the operating system's words for an error, which depend on the process
/// and the machine.
#[verifier::external_body]
fn debug_of_cx_error(err: &ConnectorXError) -> (text: String)
    ensures
        text@.len() > 0,
{
    format!("{err:?}")
}

/// The `{:?}` rendering of an `ArrowDestinationError`, as `format!` gives it.
/// The `Debug` impl is derived and starts with the name of the variant, so
/// the text is not empty. No more is claimed, as for `ConnectorXError`.
#[verifier::external_body]
fn debug_of_cx_dst_error(err: &ArrowDestinationError) -> (text: String)
    ensures
        text@.len() > 0,
{
    format!("{err:?}")
}

/// The `{:?}` rendering of a `ConnectorXOutError`, as `format!` gives it.
/// The `Debug` impl is derived and starts with the name of the variant, so
/// the text is not empty. No more is claimed, as for `ConnectorXError`.
#[verifier::external_body]
fn debug_of_cx_out_error(err: &ConnectorXOutError) -> (text: String)
    ensures
        text@.len() > 0,
{
    format!("{err:?}")
}

/// The `{:?}` rendering of a `JoinError`, as `format!` gives it. It depends
/// on the error alone and starts with the type's name, so it is not empty.
#[verifier::external_body]
fn debug_of_join_error(err: &JoinError) -> (text: String)
    ensures
        text@ == join_error_rendering(*err),
        text@.len() > 0,
{
    format!("{err:?}")
}

/// Maps a connection failure to the external error: the prefix of `Driver`,
/// then the error's debug rendering, which is not empty.
pub fn cx_error_to_df(err: ConnectorXError) -> (error: ExternalError)
    ensures
        has_origin_and_detail(error, Origin::Driver),
{
    let detail = debug_of_cx_error(&err);
    unify(Origin::Driver, detail.as_str())
}

/// Maps a failed fetch to the external error: the prefix of `DriverFetch`,
/// then the error's debug rendering, which is not empty.
pub fn cx_dst_error_to_df(err: ArrowDestinationError) -> (error: ExternalError)
    ensures
        has_origin_and_detail(error, Origin::DriverFetch),
{
    let detail = debug_of_cx_dst_error(&err);
    unify(Origin::DriverFetch, detail.as_str())
}

/// Maps a session that could not be opened to the external error: the prefix
/// of `DriverSession`, then the error's debug rendering, which is not empty.
pub fn cx_out_error_to_df(err: ConnectorXOutError) -> (error: ExternalError)
    ensures
        has_origin_and_detail(error, Origin::DriverSession),
{
    let detail = debug_of_cx_out_error(&err);
    unify(Origin::DriverSession, detail.as_str())
}

/// Maps a task that did not run to its end to the external error: the prefix
/// of `Task`, then the error's debug rendering.
pub fn join_error_to_df(err: JoinError) -> (error: ExternalError)
    ensures
        error.message@ == unified_message(Origin::Task, join_error_rendering(err)),
        has_origin_and_detail(error, Origin::Task),
{
    let detail = debug_of_join_error(&err);
    unify(Origin::Task, detail.as_str())
}

} // verus!
