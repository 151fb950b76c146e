use connectorx::destinations::arrow::ArrowDestinationError;
use connectorx::errors::{ConnectorXError, ConnectorXOutError};
use sql_executor::error::{
    cx_dst_error_to_df, cx_error_to_df, cx_out_error_to_df, join_error_to_df, prefix_text, unify,
    Origin,
};

#[test]
fn prefix_of_each_origin() {
    assert_eq!(prefix_text(Origin::Driver), "driver: ");
    assert_eq!(prefix_text(Origin::DriverFetch), "driver-fetch: ");
    assert_eq!(prefix_text(Origin::DriverSession), "driver-session: ");
    assert_eq!(prefix_text(Origin::Task), "task failed: ");
}

#[test]
fn unify_puts_the_prefix_before_the_detail() {
    assert_eq!(unify(Origin::Driver, "boom").message, "driver: boom");
    assert_eq!(
        unify(Origin::DriverFetch, "boom").message,
        "driver-fetch: boom"
    );
    assert_eq!(
        unify(Origin::DriverSession, "boom").message,
        "driver-session: boom"
    );
    assert_eq!(unify(Origin::Task, "boom").message, "task failed: boom");
}

#[test]
fn unify_keeps_an_empty_detail() {
    assert_eq!(unify(Origin::Driver, "").message, "driver: ");
}

#[test]
fn unify_keeps_every_character_of_the_detail() {
    let detail = "Other(\"quoted\" \\ tab\there\nline É 数)";
    let error = unify(Origin::DriverFetch, detail);
    assert_eq!(
        error.message,
        format!("driver-fetch: {}", detail)
    );
}

#[test]
fn connection_failure_keeps_its_debug_form() {
    let error = cx_error_to_df(ConnectorXError::CountError());
    assert_eq!(error.message, "driver: CountError");
}

#[test]
fn connection_failure_with_fields_keeps_its_debug_form() {
    let err = ConnectorXError::NoConversionRule("a".to_string(), "b".to_string());
    let expected = format!("driver: {:?}", err);
    assert_eq!(expected, "driver: NoConversionRule(\"a\", \"b\")");
    assert_eq!(cx_error_to_df(err).message, expected);
}

#[test]
fn failed_fetch_keeps_its_debug_form() {
    let err = ArrowDestinationError::ConnectorXError(ConnectorXError::CountError());
    let error = cx_dst_error_to_df(err);
    assert_eq!(
        error.message,
        "driver-fetch: ConnectorXError(CountError)"
    );
}

#[test]
fn failed_session_keeps_its_debug_form() {
    let err = ConnectorXOutError::SourceNotSupport("Unknown".to_string());
    let error = cx_out_error_to_df(err);
    assert_eq!(
        error.message,
        "driver-session: SourceNotSupport(\"Unknown\")"
    );
}

#[test]
fn failed_task_keeps_its_debug_form() {
    let runtime = tokio::runtime::Builder::new_current_thread()
        .build()
        .unwrap();
    let handle = runtime.spawn(std::future::pending::<()>());
    handle.abort();
    let err = runtime.block_on(handle).unwrap_err();
    let expected = format!("task failed: {:?}", err);
    assert!(expected.starts_with("task failed: JoinError::Cancelled("));
    assert_eq!(join_error_to_df(err).message, expected);
}

#[test]
fn no_prefix_is_the_start_of_another() {
    let origins = [
        Origin::Driver,
        Origin::DriverFetch,
        Origin::DriverSession,
        Origin::Task,
    ];
    for (i, one) in origins.iter().enumerate() {
        for (j, other) in origins.iter().enumerate() {
            if i != j {
                assert!(!prefix_text(*one).starts_with(prefix_text(*other)));
            }
        }
    }
}

#[test]
fn message_tells_a_failed_fetch_from_a_failed_session() {
    let fetch =
        cx_dst_error_to_df(ArrowDestinationError::ConnectorXError(ConnectorXError::CountError()));
    let session = cx_out_error_to_df(ConnectorXOutError::ConnectorXInternalError(
        ConnectorXError::CountError(),
    ));
    assert_eq!(fetch.message, "driver-fetch: ConnectorXError(CountError)");
    assert_eq!(
        session.message,
        "driver-session: ConnectorXInternalError(CountError)"
    );
    assert!(!fetch.message.starts_with(prefix_text(Origin::DriverSession)));
    assert!(!session.message.starts_with(prefix_text(Origin::DriverFetch)));
    assert!(!fetch.message.starts_with(prefix_text(Origin::Driver)));
    assert!(!session.message.starts_with(prefix_text(Origin::Driver)));
}

#[test]
fn mapped_errors_carry_a_detail_behind_the_prefix() {
    let driver = cx_error_to_df(ConnectorXError::CountError());
    assert!(driver.message.len() > prefix_text(Origin::Driver).len());
    let fetch =
        cx_dst_error_to_df(ArrowDestinationError::ConnectorXError(ConnectorXError::CountError()));
    assert!(fetch.message.len() > prefix_text(Origin::DriverFetch).len());
    let session = cx_out_error_to_df(ConnectorXOutError::SourceNotSupport(String::new()));
    assert!(session.message.len() > prefix_text(Origin::DriverSession).len());
    assert_eq!(session.message, "driver-session: SourceNotSupport(\"\")");
}
