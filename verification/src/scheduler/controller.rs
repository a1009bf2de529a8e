//! What the scheduler's HTTP handlers answer, given what the service returned.
use vstd::prelude::*;
use crate::http_status::{BAD_REQUEST, INTERNAL_SERVER_ERROR, NOT_FOUND};
use crate::scheduler::entities::{NextScheduleResponse, Schedule};
use crate::scheduler::service::SchedulerError;

verus! {

/// The answer to `POST /scheduler/new`: the stored schedule; a cron line that
/// does not parse is a bad request; a database failure is an internal error.
pub fn create_schedule_response<E>(outcome: Result<Schedule, SchedulerError<E>>) -> (r: Result<Schedule, u16>)
    ensures
        match outcome {
            Ok(schedule) => r == Ok::<Schedule, u16>(schedule),
            Err(SchedulerError::SQLError(_)) => r == Err::<Schedule, u16>(INTERNAL_SERVER_ERROR),
            Err(SchedulerError::CronError(_)) => r == Err::<Schedule, u16>(BAD_REQUEST),
        },
{
    match outcome {
        Ok(schedule) => Ok(schedule),
        Err(SchedulerError::SQLError(_)) => Err(INTERNAL_SERVER_ERROR),
        Err(SchedulerError::CronError(_)) => Err(BAD_REQUEST),
    }
}

/// The answer to `GET /scheduler/list`: the schedules, or an internal error.
pub fn list_schedules_response<E>(outcome: Result<Vec<Schedule>, E>) -> (r: Result<Vec<Schedule>, u16>)
    ensures
        match outcome {
            Ok(schedules) => r == Ok::<Vec<Schedule>, u16>(schedules),
            Err(_) => r == Err::<Vec<Schedule>, u16>(INTERNAL_SERVER_ERROR),
        },
{
    match outcome {
        Ok(schedules) => Ok(schedules),
        Err(_) => Err(INTERNAL_SERVER_ERROR),
    }
}

/// The answer to `GET /scheduler/next`: the schedule that fires next; not found
/// when none does; an internal error when the database failed.
pub fn next_task_response<E>(outcome: Result<Option<NextScheduleResponse>, E>) -> (r: Result<NextScheduleResponse, u16>)
    ensures
        match outcome {
            Ok(Some(next)) => r == Ok::<NextScheduleResponse, u16>(next),
            Ok(None) => r == Err::<NextScheduleResponse, u16>(NOT_FOUND),
            Err(_) => r == Err::<NextScheduleResponse, u16>(INTERNAL_SERVER_ERROR),
        },
{
    match outcome {
        Ok(Some(next)) => Ok(next),
        Ok(None) => Err(NOT_FOUND),
        Err(_) => Err(INTERNAL_SERVER_ERROR),
    }
}

} // verus!
