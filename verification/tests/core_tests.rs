use mass_events::client::{add_process_url, get_process_url, list_queues_url, reply_status, ProcessRunnerClientError};
use mass_events::server::listen_address;
use mass_events::statements::split_statements;
use mass_events::transaction::{BatchAction, BatchTransaction, ScopedAction, ScopedEvent, ScopedTransaction};
use mass_events::worker::{next_worker_action, Configuration, WorkerAction};

#[test]
fn scripts_split_at_every_semicolon() {
    assert_eq!(split_statements("CREATE TABLE a (x int);INSERT INTO a VALUES (1);"),
        vec!["CREATE TABLE a (x int)".to_string(), "INSERT INTO a VALUES (1)".to_string(), "".to_string()]);
    assert_eq!(split_statements(""), vec!["".to_string()]);
    assert_eq!(split_statements("select 1"), vec!["select 1".to_string()]);
    assert_eq!(split_statements(";;"), vec!["".to_string(), "".to_string(), "".to_string()]);
    assert_eq!(split_statements("é;ü"), vec!["é".to_string(), "ü".to_string()]);
}

#[test]
fn a_script_runs_every_statement_then_commits() {
    let (tx, action) = BatchTransaction::<&str>::start("a;b");
    assert!(matches!(action, BatchAction::Begin));
    assert_eq!(tx.statements, vec!["a".to_string(), "b".to_string()]);
    let (tx, action) = tx.step(Ok(()));
    assert!(matches!(action, BatchAction::Execute(0)));
    let (tx, action) = tx.step(Ok(()));
    assert!(matches!(action, BatchAction::Execute(1)));
    let (tx, action) = tx.step(Ok(()));
    assert!(matches!(action, BatchAction::Commit));
    let (_, action) = tx.step(Ok(()));
    assert!(matches!(action, BatchAction::Finish(Ok(()))));
}

#[test]
fn a_failed_statement_rolls_the_script_back() {
    let (tx, _) = BatchTransaction::<&str>::start("a;b;c");
    let (tx, _) = tx.step(Ok(()));
    let (tx, action) = tx.step(Err("syntax"));
    assert!(matches!(action, BatchAction::Rollback));
    let (_, action) = tx.step(Ok(()));
    assert!(matches!(action, BatchAction::Finish(Err("syntax"))));
}

#[test]
fn a_failed_rollback_is_reported_in_place_of_the_statement_error() {
    let (tx, _) = BatchTransaction::<&str>::start("a");
    let (tx, _) = tx.step(Ok(()));
    let (tx, _) = tx.step(Err("syntax"));
    let (_, action) = tx.step(Err("connection lost"));
    assert!(matches!(action, BatchAction::Finish(Err("connection lost"))));
}

#[test]
fn a_script_that_cannot_begin_runs_nothing() {
    let (tx, _) = BatchTransaction::<&str>::start("a;b");
    let (_, action) = tx.step(Err("pool"));
    assert!(matches!(action, BatchAction::Finish(Err("pool"))));
}

#[test]
fn a_failed_script_commit_is_reported() {
    let (tx, _) = BatchTransaction::<&str>::start("a");
    let (tx, _) = tx.step(Ok(()));
    let (tx, action) = tx.step(Ok(()));
    assert!(matches!(action, BatchAction::Commit));
    let (_, action) = tx.step(Err("commit"));
    assert!(matches!(action, BatchAction::Finish(Err("commit"))));
}

#[test]
fn a_scoped_body_that_succeeds_is_committed() {
    let (tx, action) = ScopedTransaction::<u32, &str>::start();
    assert!(matches!(action, ScopedAction::Begin));
    let (tx, action) = tx.step(ScopedEvent::Begun(Ok(())));
    assert!(matches!(action, ScopedAction::RunBody));
    let (tx, action) = tx.step(ScopedEvent::BodyReturned(Ok(42)));
    assert!(matches!(action, ScopedAction::Commit));
    let (_, action) = tx.step(ScopedEvent::Closed(Ok(())));
    assert!(matches!(action, ScopedAction::Finish(Ok(42))));
}

#[test]
fn a_scoped_body_that_fails_is_rolled_back() {
    let (tx, _) = ScopedTransaction::<u32, &str>::start();
    let (tx, _) = tx.step(ScopedEvent::Begun(Ok(())));
    let (tx, action) = tx.step(ScopedEvent::BodyReturned(Err("body")));
    assert!(matches!(action, ScopedAction::Rollback));
    let (_, action) = tx.step(ScopedEvent::Closed(Ok(())));
    assert!(matches!(action, ScopedAction::Finish(Err("body"))));
}

#[test]
fn a_scoped_transaction_reports_failures_to_begin_and_to_commit() {
    let (tx, _) = ScopedTransaction::<u32, &str>::start();
    let (_, action) = tx.step(ScopedEvent::Begun(Err("pool")));
    assert!(matches!(action, ScopedAction::Finish(Err("pool"))));
    let (tx, _) = ScopedTransaction::<u32, &str>::start();
    let (tx, _) = tx.step(ScopedEvent::Begun(Ok(())));
    let (tx, _) = tx.step(ScopedEvent::BodyReturned(Ok(1)));
    let (_, action) = tx.step(ScopedEvent::Closed(Err("commit")));
    assert!(matches!(action, ScopedAction::Finish(Err("commit"))));
}

#[test]
fn client_addresses() {
    assert_eq!(get_process_url("http://localhost:8456"), "http://localhost:8456/process/get_process");
    assert_eq!(add_process_url("http://h"), "http://h/process/add_process");
    assert_eq!(list_queues_url("http://h"), "http://h/queues/list-queues");
}

#[test]
fn client_reads_statuses() {
    assert!(matches!(reply_status::<()>(200), Ok(())));
    assert!(matches!(reply_status::<()>(404), Err(ProcessRunnerClientError::ReturnStatusError(404))));
    assert!(matches!(reply_status::<()>(500), Err(ProcessRunnerClientError::ReturnStatusError(500))));
    assert!(matches!(reply_status::<()>(201), Err(ProcessRunnerClientError::ReturnStatusError(201))));
}

#[test]
fn worker_configuration_prints_one_line() {
    let configuration = Configuration { mass_events_process_runner_base_url: "http://localhost:8456".to_string() };
    assert_eq!(configuration.describe(), "mass_events_process_runner_base_url: http://localhost:8456\n");
}

#[test]
fn worker_decisions() {
    assert!(matches!(next_worker_action(true, true), WorkerAction::Report));
    assert!(matches!(next_worker_action(true, false), WorkerAction::Wait(7)));
    assert!(matches!(next_worker_action(false, false), WorkerAction::PollAgain));
    assert!(matches!(next_worker_action(false, true), WorkerAction::PollAgain));
}

#[test]
fn services_bind_localhost_as_the_loopback_address() {
    assert_eq!(listen_address("localhost", 8456), "127.0.0.1:8456");
    assert_eq!(listen_address("0.0.0.0", 80), "0.0.0.0:80");
    assert_eq!(listen_address("::1", 0), "::1:0");
    assert_eq!(listen_address("LOCALHOST", 65535), "LOCALHOST:65535");
    assert_eq!(listen_address("h", 10), "h:10");
}
