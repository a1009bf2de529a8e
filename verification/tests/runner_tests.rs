use mass_events::http_status::{BAD_REQUEST, CONFLICT, INTERNAL_SERVER_ERROR, NOT_FOUND};
use mass_events::runner::controller::{
    add_process_response, get_process_response, list_queues_response, DeleteQueueAction,
    DeleteQueueEvent, DeleteQueueFlow, QueueRequestAction, QueueRequestEvent, QueueRequestFlow,
};
use mass_events::runner::models::{AddProcessToQueueRequest, Process, Queue, QueueRequest};
use mass_events::runner::service::{
    queue_check, AddProcessAction, AddProcessEvent, AddProcessFlow, GetProcessAction,
    GetProcessEvent, GetProcessFlow, ProcessError,
};
use mass_events::runner::sql::{
    info_table_name, insert_process_statement, lock_info_statement, next_process_statement,
    queue_table_name, read_position_statement, store_position_statement,
};
use mass_events::runner::templates::{CreateQueueTemplate, DeleteQueueTemplate};
use mass_events::statements::split_statements;

fn request(name: &str) -> QueueRequest {
    QueueRequest::new(name.to_string())
}

fn process(position: i64, context: &str) -> Process {
    Process { id: 7, context: context.to_string(), position }
}

#[test]
fn queue_names_of_letters_digits_and_underscores_are_valid() {
    assert!(request("orders").is_valid());
    assert!(request("orders_2024").is_valid());
    assert!(request("_").is_valid());
    assert!(request("").is_valid());
}

#[test]
fn queue_names_with_other_characters_are_invalid() {
    assert!(!request("bad-name").is_valid());
    assert!(!request("a;drop").is_valid());
    assert!(!request("two words").is_valid());
    assert!(!request("q.x").is_valid());
}

#[test]
fn queue_names_that_could_break_sql_are_invalid() {
    assert!(request("Queue_1").is_valid());
    assert!(!request("my-queue").is_valid());
    assert!(!request("q;DROP TABLE x").is_valid());
    assert!(!request("q'x").is_valid());
    assert!(!request("q\"x").is_valid());
    assert!(!request("q(x)").is_valid());
}

#[test]
fn queue_names_take_unicode_letters_and_digits() {
    assert!(request("crème_brûlée").is_valid());
    assert!(request("队列٣").is_valid());
    assert!(!request("naïve!").is_valid());
}

#[test]
fn sql_texts_name_the_queue_tables() {
    assert_eq!(info_table_name("jobs"), "queues.jobs_info");
    assert_eq!(queue_table_name("jobs"), "queues.jobs_queue");
    assert_eq!(lock_info_statement("jobs"), "LOCK TABLE queues.jobs_info");
    assert_eq!(read_position_statement("jobs"), "select value from queues.jobs_info where key = 'position'");
    assert_eq!(
        next_process_statement("jobs"),
        "Select * from queues.jobs_queue WHERE position > $1 order by position LIMIT 1"
    );
    assert_eq!(
        store_position_statement("jobs"),
        "UPDATE queues.jobs_info SET value= $1 WHERE key = 'position'"
    );
    assert_eq!(
        insert_process_statement("jobs"),
        "INSERT INTO queues.jobs_queue(id, context) VALUES ($1, $2);"
    );
}

#[test]
fn different_queues_use_different_tables() {
    assert_ne!(info_table_name("a_b"), info_table_name("a"));
    assert_ne!(queue_table_name("x"), queue_table_name("y"));
}

#[test]
fn templates_keep_the_queue_name() {
    assert_eq!(CreateQueueTemplate::new("jobs").queue_name, "jobs");
    assert_eq!(DeleteQueueTemplate::new("old").queue_name, "old");
}

#[test]
fn queue_scripts_are_their_statements_joined() {
    let create = CreateQueueTemplate::new("jobs").render();
    assert_eq!(
        create,
        "CREATE TABLE queues.jobs_queue (id uuid PRIMARY KEY, context jsonb NOT NULL, position bigserial NOT NULL);\
CREATE TABLE queues.jobs_info (key text PRIMARY KEY, value jsonb NOT NULL);\
INSERT INTO queues.jobs_info (key, value) VALUES ('position', '0');\
INSERT INTO public.queues (name) VALUES ('jobs')"
    );
    assert_eq!(split_statements(&create).len(), 4);
    let delete = DeleteQueueTemplate::new("jobs").render();
    assert_eq!(
        delete,
        "DROP TABLE queues.jobs_queue;DROP TABLE queues.jobs_info;DELETE FROM public.queues WHERE name = 'jobs'"
    );
    assert_eq!(split_statements(&delete), vec![
        "DROP TABLE queues.jobs_queue".to_string(),
        "DROP TABLE queues.jobs_info".to_string(),
        "DELETE FROM public.queues WHERE name = 'jobs'".to_string(),
    ]);
}

#[test]
fn models_keep_their_fields() {
    let add = AddProcessToQueueRequest::new("jobs".to_string(), "{\"a\":1}".to_string());
    assert_eq!(add.queue, "jobs");
    assert_eq!(add.process, "{\"a\":1}");
    let queue = Queue { name: "jobs".to_string() };
    assert_eq!(queue.name, "jobs");
}

#[test]
fn queue_check_outcomes() {
    assert!(matches!(queue_check::<&str>(Ok(true)), Ok(())));
    assert!(matches!(queue_check::<&str>(Ok(false)), Err(ProcessError::QueueNotFound)));
    assert!(matches!(queue_check::<&str>(Err("db down")), Err(ProcessError::SQLError("db down"))));
}

#[test]
fn adding_a_process_to_an_existing_queue_inserts_it() {
    let (flow, action) = AddProcessFlow::start::<&str>("jobs", 77, "{\"n\":1}".to_string());
    assert!(matches!(action, AddProcessAction::CheckQueue));
    let (flow, action) = flow.step::<&str>(AddProcessEvent::QueueChecked(Ok(true)));
    match action {
        AddProcessAction::Insert(sql, id, context) => {
            assert_eq!(sql, "INSERT INTO queues.jobs_queue(id, context) VALUES ($1, $2);");
            assert_eq!(id, 77);
            assert_eq!(context, "{\"n\":1}");
        }
        _ => panic!("expected an insert"),
    }
    let (_, action) = flow.step::<&str>(AddProcessEvent::Inserted(Ok(())));
    assert!(matches!(action, AddProcessAction::Finish(Ok(()))));
}

#[test]
fn adding_a_process_to_a_missing_queue_is_refused() {
    let (flow, _) = AddProcessFlow::start::<&str>("ghost", 1, "{}".to_string());
    let (_, action) = flow.step::<&str>(AddProcessEvent::QueueChecked(Ok(false)));
    assert!(matches!(action, AddProcessAction::Finish(Err(ProcessError::QueueNotFound))));
}

#[test]
fn adding_a_process_reports_a_failed_insert() {
    let (flow, _) = AddProcessFlow::start::<&str>("jobs", 2, "{}".to_string());
    let (flow, _) = flow.step::<&str>(AddProcessEvent::QueueChecked(Ok(true)));
    let (_, action) = flow.step::<&str>(AddProcessEvent::Inserted(Err("unique")));
    assert!(matches!(action, AddProcessAction::Finish(Err(ProcessError::SQLError("unique")))));
}

#[test]
fn getting_a_process_advances_the_position_and_commits() {
    let (flow, action) = GetProcessFlow::<&str>::start("jobs");
    assert!(matches!(action, GetProcessAction::CheckQueue));
    let (flow, action) = flow.step(GetProcessEvent::QueueChecked(Ok(true)));
    assert!(matches!(action, GetProcessAction::Begin));
    let (flow, action) = flow.step(GetProcessEvent::Begun(Ok(())));
    match action {
        GetProcessAction::Lock(sql) => assert_eq!(sql, "LOCK TABLE queues.jobs_info"),
        _ => panic!("expected the lock"),
    }
    let (flow, action) = flow.step(GetProcessEvent::Locked(Ok(())));
    assert!(matches!(action, GetProcessAction::ReadPosition(_)));
    let (flow, action) = flow.step(GetProcessEvent::PositionRead(Ok(4)));
    match action {
        GetProcessAction::FetchNext(sql, 4) => {
            assert_eq!(sql, "Select * from queues.jobs_queue WHERE position > $1 order by position LIMIT 1")
        }
        _ => panic!("expected a fetch after position 4"),
    }
    let (flow, action) = flow.step(GetProcessEvent::NextFetched(Ok(Some(process(5, "{\"job\":5}")))));
    match action {
        GetProcessAction::StorePosition(sql, 5) => {
            assert_eq!(sql, "UPDATE queues.jobs_info SET value= $1 WHERE key = 'position'")
        }
        _ => panic!("expected position 5 to be stored"),
    }
    let (flow, action) = flow.step(GetProcessEvent::PositionStored(Ok(())));
    assert!(matches!(action, GetProcessAction::Commit));
    let (_, action) = flow.step(GetProcessEvent::Closed(Ok(())));
    match action {
        GetProcessAction::Finish(Ok(Some(p))) => {
            assert_eq!(p.position, 5);
            assert_eq!(p.context, "{\"job\":5}");
        }
        _ => panic!("expected the process"),
    }
}

#[test]
fn getting_from_an_empty_queue_commits_without_storing() {
    let (flow, _) = GetProcessFlow::<&str>::start("jobs");
    let (flow, _) = flow.step(GetProcessEvent::QueueChecked(Ok(true)));
    let (flow, _) = flow.step(GetProcessEvent::Begun(Ok(())));
    let (flow, _) = flow.step(GetProcessEvent::Locked(Ok(())));
    let (flow, _) = flow.step(GetProcessEvent::PositionRead(Ok(9)));
    let (flow, action) = flow.step(GetProcessEvent::NextFetched(Ok(None)));
    assert!(matches!(action, GetProcessAction::Commit));
    let (_, action) = flow.step(GetProcessEvent::Closed(Ok(())));
    assert!(matches!(action, GetProcessAction::Finish(Ok(None))));
}

#[test]
fn getting_from_a_missing_queue_starts_no_transaction() {
    let (flow, _) = GetProcessFlow::<&str>::start("ghost");
    let (_, action) = flow.step(GetProcessEvent::QueueChecked(Ok(false)));
    assert!(matches!(action, GetProcessAction::Finish(Err(ProcessError::QueueNotFound))));
}

#[test]
fn a_failure_inside_the_transaction_rolls_back() {
    let (flow, _) = GetProcessFlow::<&str>::start("jobs");
    let (flow, _) = flow.step(GetProcessEvent::QueueChecked(Ok(true)));
    let (flow, _) = flow.step(GetProcessEvent::Begun(Ok(())));
    let (flow, _) = flow.step(GetProcessEvent::Locked(Ok(())));
    let (flow, _) = flow.step(GetProcessEvent::PositionRead(Ok(1)));
    let (flow, _) = flow.step(GetProcessEvent::NextFetched(Ok(Some(process(2, "{}")))));
    let (flow, action) = flow.step(GetProcessEvent::PositionStored(Err("deadlock")));
    assert!(matches!(action, GetProcessAction::Rollback));
    let (_, action) = flow.step(GetProcessEvent::Closed(Ok(())));
    assert!(matches!(action, GetProcessAction::Finish(Err(ProcessError::SQLError("deadlock")))));
}

#[test]
fn a_failed_commit_is_reported() {
    let (flow, _) = GetProcessFlow::<&str>::start("jobs");
    let (flow, _) = flow.step(GetProcessEvent::QueueChecked(Ok(true)));
    let (flow, _) = flow.step(GetProcessEvent::Begun(Ok(())));
    let (flow, _) = flow.step(GetProcessEvent::Locked(Ok(())));
    let (flow, _) = flow.step(GetProcessEvent::PositionRead(Ok(1)));
    let (flow, _) = flow.step(GetProcessEvent::NextFetched(Ok(None)));
    let (_, action) = flow.step(GetProcessEvent::Closed(Err("commit")));
    assert!(matches!(action, GetProcessAction::Finish(Err(ProcessError::SQLError("commit")))));
}

#[test]
fn a_failed_begin_is_reported() {
    let (flow, _) = GetProcessFlow::<&str>::start("jobs");
    let (flow, _) = flow.step(GetProcessEvent::QueueChecked(Ok(true)));
    let (_, action) = flow.step(GetProcessEvent::Begun(Err("pool")));
    assert!(matches!(action, GetProcessAction::Finish(Err(ProcessError::SQLError("pool")))));
}

#[test]
fn add_process_answers() {
    assert_eq!(add_process_response::<&str>(Ok(())), Ok(()));
    assert_eq!(add_process_response::<&str>(Err(ProcessError::QueueNotFound)), Err(NOT_FOUND));
    assert_eq!(add_process_response(Err(ProcessError::SQLError("x"))), Err(INTERNAL_SERVER_ERROR));
}

#[test]
fn get_process_answers() {
    assert_eq!(get_process_response::<&str>(Ok(Some(process(3, "{\"k\":true}")))), Ok("{\"k\":true}".to_string()));
    assert_eq!(get_process_response::<&str>(Ok(None)), Ok("{}".to_string()));
    assert_eq!(get_process_response::<&str>(Err(ProcessError::QueueNotFound)), Err(NOT_FOUND));
    assert_eq!(get_process_response(Err(ProcessError::SQLError(()))), Err(INTERNAL_SERVER_ERROR));
}

#[test]
fn list_queues_answers() {
    let listed = list_queues_response::<()>(Ok(vec![Queue { name: "a".to_string() }])).unwrap();
    assert_eq!(listed.len(), 1);
    assert_eq!(listed[0].name, "a");
    assert!(matches!(list_queues_response(Err(())), Err(INTERNAL_SERVER_ERROR)));
}

#[test]
fn creating_a_queue_with_a_bad_name_is_a_bad_request() {
    let (_, action) = QueueRequestFlow::start(&request("no way"));
    assert!(matches!(action, QueueRequestAction::Finish(Err(BAD_REQUEST))));
}

#[test]
fn creating_an_existing_queue_is_a_conflict() {
    let (flow, action) = QueueRequestFlow::start(&request("jobs"));
    assert!(matches!(action, QueueRequestAction::CheckQueue));
    let (_, action) = flow.step::<()>(QueueRequestEvent::QueueChecked(Ok(true)));
    assert!(matches!(action, QueueRequestAction::Finish(Err(CONFLICT))));
}

#[test]
fn creating_a_new_queue_creates_it() {
    let (flow, _) = QueueRequestFlow::start(&request("jobs"));
    let (flow, action) = flow.step::<()>(QueueRequestEvent::QueueChecked(Ok(false)));
    assert!(matches!(action, QueueRequestAction::CreateQueue));
    let (_, action) = flow.step::<()>(QueueRequestEvent::Created(Ok(())));
    assert!(matches!(action, QueueRequestAction::Finish(Ok(()))));
}

#[test]
fn queue_request_database_failures_are_internal_errors() {
    let (flow, _) = QueueRequestFlow::start(&request("jobs"));
    let (_, action) = flow.step(QueueRequestEvent::QueueChecked(Err(())));
    assert!(matches!(action, QueueRequestAction::Finish(Err(INTERNAL_SERVER_ERROR))));
    let (flow, _) = QueueRequestFlow::start(&request("jobs"));
    let (flow, _) = flow.step::<()>(QueueRequestEvent::QueueChecked(Ok(false)));
    let (_, action) = flow.step(QueueRequestEvent::Created(Err(())));
    assert!(matches!(action, QueueRequestAction::Finish(Err(INTERNAL_SERVER_ERROR))));
}

#[test]
fn deleting_a_queue_with_a_bad_name_is_a_bad_request() {
    let (_, action) = DeleteQueueFlow::start(&request("x;y"));
    assert!(matches!(action, DeleteQueueAction::Finish(Err(BAD_REQUEST))));
}

#[test]
fn deleting_an_existing_queue_deletes_it() {
    let (flow, action) = DeleteQueueFlow::start(&request("jobs"));
    assert!(matches!(action, DeleteQueueAction::CheckQueue));
    let (flow, action) = flow.step::<()>(DeleteQueueEvent::QueueChecked(Ok(true)));
    assert!(matches!(action, DeleteQueueAction::DeleteQueue));
    let (_, action) = flow.step::<()>(DeleteQueueEvent::Deleted(Ok(())));
    assert!(matches!(action, DeleteQueueAction::Finish(Ok(()))));
}

#[test]
fn deleting_a_missing_queue_is_not_found_and_creates_nothing() {
    let (flow, _) = DeleteQueueFlow::start(&request("ghost"));
    let (_, action) = flow.step::<()>(DeleteQueueEvent::QueueChecked(Ok(false)));
    assert!(matches!(action, DeleteQueueAction::Finish(Err(NOT_FOUND))));
}

#[test]
fn delete_database_failures_are_internal_errors() {
    let (flow, _) = DeleteQueueFlow::start(&request("jobs"));
    let (_, action) = flow.step(DeleteQueueEvent::QueueChecked(Err(())));
    assert!(matches!(action, DeleteQueueAction::Finish(Err(INTERNAL_SERVER_ERROR))));
    let (flow, _) = DeleteQueueFlow::start(&request("jobs"));
    let (flow, _) = flow.step::<()>(DeleteQueueEvent::QueueChecked(Ok(true)));
    let (_, action) = flow.step(DeleteQueueEvent::Deleted(Err(())));
    assert!(matches!(action, DeleteQueueAction::Finish(Err(INTERNAL_SERVER_ERROR))));
}
