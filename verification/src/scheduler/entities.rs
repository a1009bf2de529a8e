use vstd::prelude::*;
use chrono::{DateTime, Utc};

verus! {

/// The first and the last second that chrono represents: midnight of January 1
/// of the year -262143 and 23:59:59 of December 31 of the year 262142.
pub const UTC_MIN_SECS: i64 = -8334601228800;
pub const UTC_MAX_SECS: i64 = 8210266876799;

/// Whether chrono can represent the instant `secs` seconds after the Unix epoch.
pub open spec fn utc_timestamp_representable(secs: i64) -> bool {
    UTC_MIN_SECS <= secs <= UTC_MAX_SECS
}

/// Calls `chrono::DateTime::<Utc>::from_timestamp(secs, 0)` and tells whether
/// it gave an instant (`Some`) or refused (`None`).  Claimed, as chrono's
/// source shows (`from_timestamp` succeeds exactly when the day of `secs` falls
/// in the years `MIN_YEAR..=MAX_YEAR`, -262143..=262142): it succeeds exactly
/// for `UTC_MIN_SECS <= secs <= UTC_MAX_SECS`.
#[verifier::external_body]
fn utc_from_timestamp_succeeds(secs: i64) -> (r: bool)
    ensures
        r == utc_timestamp_representable(secs),
{
    match DateTime::<Utc>::from_timestamp(secs, 0) {
        Some(_) => true,
        None => false,
    }
}

/// An instant in UTC: whole seconds since the Unix epoch and the nanoseconds
/// after them.
#[derive(Clone, Copy)]
pub struct UtcTime {
    pub secs: i64,
    pub nanos: u32,
}

/// A stored schedule: a command to run whenever the cron line fires.
pub struct Schedule {
    pub id: u128,
    pub cron_line: String,
    pub command: String,
    pub created_at: UtcTime,
    pub modified_at: UtcTime,
}

/// A schedule together with the instant it fires next.
pub struct NextScheduleResponse {
    pub id: u128,
    pub cron_line: String,
    pub command: String,
    pub created_at: UtcTime,
    pub modified_at: UtcTime,
    pub next: UtcTime,
}

/// A request to store a new schedule.
pub struct CreateScheduleRequest {
    pub cron_line: String,
    pub command: String,
}

impl NextScheduleResponse {
    /// The schedule, firing next at the tick `next_tick` (seconds since the
    /// epoch, read as a signed number).
    pub fn with(schedule: Schedule, next_tick: u64) -> (r: Self)
        requires
            utc_timestamp_representable(next_tick as i64),
        ensures
            r.id == schedule.id,
            r.cron_line == schedule.cron_line,
            r.command == schedule.command,
            r.created_at == schedule.created_at,
            r.modified_at == schedule.modified_at,
            r.next == (UtcTime { secs: next_tick as i64, nanos: 0 }),
    {
        NextScheduleResponse {
            id: schedule.id,
            cron_line: schedule.cron_line,
            command: schedule.command,
            created_at: schedule.created_at,
            modified_at: schedule.modified_at,
            next: UtcTime { secs: next_tick as i64, nanos: 0 },
        }
    }

    /// Like `with`, after asking chrono whether the tick is an instant it can
    /// represent; `None` when it is not.
    pub fn try_with(schedule: Schedule, next_tick: u64) -> (r: Option<Self>)
        ensures
            r is Some <==> utc_timestamp_representable(next_tick as i64),
            r matches Some(response) ==> {
                &&& response.id == schedule.id
                &&& response.cron_line == schedule.cron_line
                &&& response.command == schedule.command
                &&& response.created_at == schedule.created_at
                &&& response.modified_at == schedule.modified_at
                &&& response.next == (UtcTime { secs: next_tick as i64, nanos: 0 })
            },
    {
        let secs = next_tick as i64;
        if utc_from_timestamp_succeeds(secs) {
            Some(Self::with(schedule, next_tick))
        } else {
            None
        }
    }
}

} // verus!
