use mass_events::http_status::{BAD_REQUEST, INTERNAL_SERVER_ERROR, NOT_FOUND};
use mass_events::scheduler::controller::{create_schedule_response, list_schedules_response, next_task_response};
use mass_events::scheduler::entities::{
    CreateScheduleRequest, NextScheduleResponse, Schedule, UtcTime, UTC_MAX_SECS, UTC_MIN_SECS,
};
use mass_events::scheduler::job_index::JobIndex;
use mass_events::scheduler::service::{
    check_cron_line, earliest_tick, next_schedule_target, next_task_answer, CreateScheduleAction,
    CreateScheduleFlow, JobTick, NextTaskAction, NextTaskFlow, SchedulerError,
};

fn schedule(id: u128) -> Schedule {
    Schedule {
        id,
        cron_line: "0 30 9 * * * *".to_string(),
        command: "echo hi".to_string(),
        created_at: UtcTime { secs: 1_700_000_000, nanos: 5 },
        modified_at: UtcTime { secs: 1_700_000_100, nanos: 0 },
    }
}

fn create_request(cron_line: &str) -> CreateScheduleRequest {
    CreateScheduleRequest { cron_line: cron_line.to_string(), command: "echo hi".to_string() }
}

#[test]
fn next_schedule_response_carries_the_schedule_and_its_tick() {
    let response = NextScheduleResponse::with(schedule(3), 1431648000);
    assert_eq!(response.id, 3);
    assert_eq!(response.command, "echo hi");
    assert_eq!(response.cron_line, "0 30 9 * * * *");
    assert_eq!(response.created_at.secs, 1_700_000_000);
    assert_eq!(response.created_at.nanos, 5);
    assert_eq!(response.modified_at.secs, 1_700_000_100);
    assert_eq!(response.next.secs, 1431648000);
    assert_eq!(response.next.nanos, 0);
}

#[test]
fn ticks_that_chrono_cannot_represent_are_refused() {
    assert!(NextScheduleResponse::try_with(schedule(1), 1 << 62).is_none());
    let ok = NextScheduleResponse::try_with(schedule(1), 0).unwrap();
    assert_eq!(ok.next.secs, 0);
    // the tick is read as a signed number: u64::MAX is one second before the epoch
    let before_epoch = NextScheduleResponse::try_with(schedule(1), u64::MAX).unwrap();
    assert_eq!(before_epoch.next.secs, -1);
}

#[test]
fn cron_lines_are_checked() {
    assert!(check_cron_line::<()>(&create_request("0 30 9 * * * *")).is_ok());
    assert!(check_cron_line::<()>(&create_request("*/5 * * * * *")).is_ok());
    assert!(matches!(check_cron_line::<()>(&create_request("not a cron line")), Err(SchedulerError::CronError(_))));
    assert!(matches!(check_cron_line::<()>(&create_request("")), Err(SchedulerError::CronError(_))));
}

#[test]
fn only_parsing_cron_lines_reach_the_database() {
    let (flow, action) = CreateScheduleFlow::start::<()>(&create_request("0 0 * * * * *"));
    match action {
        CreateScheduleAction::Insert(sql, cron_line, command) => {
            assert_eq!(sql, "INSERT INTO public.schedules(cron_line, command) VALUES ($1, $2) returning *;");
            assert_eq!(cron_line, "0 0 * * * * *");
            assert_eq!(command, "echo hi");
        }
        _ => panic!("expected the insert"),
    }
    let stored = flow.inserted::<()>(Ok(schedule(9)));
    match stored {
        CreateScheduleAction::Finish(Ok(s)) => assert_eq!(s.id, 9),
        _ => panic!("expected the stored schedule"),
    }
    let (_, action) = CreateScheduleFlow::start::<()>(&create_request("every minute"));
    assert!(matches!(action, CreateScheduleAction::Finish(Err(SchedulerError::CronError(_)))));
}

#[test]
fn a_failed_insert_is_an_sql_error() {
    let (flow, _) = CreateScheduleFlow::start::<&str>(&create_request("0 0 * * * * *"));
    assert!(matches!(flow.inserted(Err("dup")), CreateScheduleAction::Finish(Err(SchedulerError::SQLError("dup")))));
}

#[test]
fn job_index_finds_both_ways() {
    let mut index = JobIndex::new();
    assert_eq!(index.schedule_of_job(1), None);
    index.register(10, 20);
    index.register(11, 21);
    assert_eq!(index.schedule_of_job(10), Some(20));
    assert_eq!(index.job_of_schedule(21), Some(11));
    assert_eq!(index.schedule_of_job(20), None);
    assert_eq!(index.job_of_schedule(10), None);
}

#[test]
fn registering_all_schedules_keeps_both_maps() {
    let mut index = JobIndex::new();
    index.register_all(&vec![(1, 100), (2, 200), (3, 300)]);
    assert_eq!(index.schedule_of_job(2), Some(200));
    assert_eq!(index.job_of_schedule(300), Some(3));
    assert_eq!(index.job_of_schedule(100), Some(1));
    assert_eq!(index.schedule_of_job(4), None);
}

#[test]
fn the_earliest_tick_picks_the_next_schedule() {
    let mut index = JobIndex::new();
    index.register(1, 100);
    index.register(2, 200);
    index.register(3, 300);
    let ticks = vec![
        JobTick { id: Some(2), next_tick: 50 },
        JobTick { id: Some(1), next_tick: 10 },
        JobTick { id: Some(3), next_tick: 30 },
    ];
    assert_eq!(earliest_tick(&ticks), Some(1));
    assert_eq!(next_schedule_target(&ticks, &index), Some((100, 10)));
    assert_eq!(next_schedule_target(&Vec::new(), &index), None);
    assert_eq!(earliest_tick(&Vec::new()), None);
}

#[test]
fn on_equal_ticks_the_first_listed_wins() {
    let ticks = vec![
        JobTick { id: Some(5), next_tick: 40 },
        JobTick { id: Some(6), next_tick: 20 },
        JobTick { id: Some(7), next_tick: 20 },
    ];
    assert_eq!(earliest_tick(&ticks), Some(1));
}

#[test]
fn finding_the_next_task() {
    let mut index = JobIndex::new();
    index.register(1, 100);
    index.register(2, 200);
    let ticks = vec![JobTick { id: Some(2), next_tick: 90 }, JobTick { id: Some(1), next_tick: 60 }];
    let (flow, action) = NextTaskFlow::start::<()>(&ticks, &index);
    assert!(matches!(action, NextTaskAction::FetchSchedule(100)));
    match flow.fetched::<()>(Ok(Some(schedule(100)))) {
        NextTaskAction::Finish(Ok(Some(response))) => {
            assert_eq!(response.id, 100);
            assert_eq!(response.next.secs, 60);
        }
        _ => panic!("expected the schedule"),
    }
    let (flow, _) = NextTaskFlow::start::<&str>(&ticks, &index);
    assert!(matches!(flow.fetched::<&str>(Err("db")), NextTaskAction::Finish(Err("db"))));
    let (flow, _) = NextTaskFlow::start::<()>(&ticks, &index);
    assert!(matches!(flow.fetched::<()>(Ok(None)), NextTaskAction::Finish(Ok(None))));
    let (_, action) = NextTaskFlow::start::<()>(&Vec::new(), &index);
    assert!(matches!(action, NextTaskAction::Finish(Ok(None))));
    let far = vec![JobTick { id: Some(1), next_tick: 1 << 62 }];
    let (flow, _) = NextTaskFlow::start::<()>(&far, &index);
    assert!(matches!(flow.fetched::<()>(Ok(Some(schedule(100)))), NextTaskAction::GiveUp(t) if t == 1 << 62));
}

#[test]
fn chrono_represents_exactly_its_calendar() {
    assert!(NextScheduleResponse::try_with(schedule(1), UTC_MAX_SECS as u64).is_some());
    assert!(NextScheduleResponse::try_with(schedule(1), UTC_MAX_SECS as u64 + 1).is_none());
    assert!(NextScheduleResponse::try_with(schedule(1), UTC_MIN_SECS as u64).is_some());
    assert!(NextScheduleResponse::try_with(schedule(1), (UTC_MIN_SECS - 1) as u64).is_none());
}

#[test]
fn next_task_answers() {
    assert!(matches!(next_task_answer(None, 5), Ok(None)));
    match next_task_answer(Some(schedule(4)), 60) {
        Ok(Some(response)) => {
            assert_eq!(response.id, 4);
            assert_eq!(response.next.secs, 60);
        }
        _ => panic!("expected the schedule"),
    }
    assert!(matches!(next_task_answer(Some(schedule(4)), 1 << 62), Err(t) if t == 1 << 62));
}

#[test]
fn scheduler_handler_answers() {
    assert_eq!(create_schedule_response::<()>(Ok(schedule(1))).unwrap().id, 1);
    assert!(matches!(create_schedule_response(Err(SchedulerError::SQLError(()))), Err(INTERNAL_SERVER_ERROR)));
    let cron_error = match check_cron_line::<()>(&create_request("bad")) {
        Err(err) => err,
        Ok(()) => panic!("expected a cron error"),
    };
    assert!(matches!(create_schedule_response::<()>(Err(cron_error)), Err(BAD_REQUEST)));
    assert_eq!(list_schedules_response::<()>(Ok(vec![schedule(1), schedule(2)])).unwrap().len(), 2);
    assert!(matches!(list_schedules_response::<()>(Err(())), Err(INTERNAL_SERVER_ERROR)));
    let next = NextScheduleResponse::with(schedule(8), 1);
    assert_eq!(next_task_response::<()>(Ok(Some(next))).unwrap().id, 8);
    assert!(matches!(next_task_response::<()>(Ok(None)), Err(NOT_FOUND)));
    assert!(matches!(next_task_response::<()>(Err(())), Err(INTERNAL_SERVER_ERROR)));
}
