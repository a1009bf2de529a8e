//! The decisions of the scheduler service: which schedules may be stored, and
//! which stored schedule fires next.
use vstd::prelude::*;
use crate::scheduler::entities::{
    utc_timestamp_representable, CreateScheduleRequest, NextScheduleResponse, Schedule, UtcTime,
};
use crate::scheduler::job_index::JobIndex;
use crate::scheduler::cron_line::{cron_expression_parses, parse_cron_expression};

verus! {

/// Why the scheduler service refused a request.
pub enum SchedulerError<E> {
    /// The database failed with this error.
    SQLError(E),
    /// The cron line does not parse.
    CronError(cron::error::Error),
}

/// Checks the cron line of a request to store a schedule.
pub fn check_cron_line<E>(request: &CreateScheduleRequest) -> (r: Result<(), SchedulerError<E>>)
    ensures
        r is Ok <==> cron_expression_parses(request.cron_line@),
        r matches Err(err) ==> err is CronError,
{
    match parse_cron_expression(request.cron_line.as_str()) {
        Ok(_) => Ok(()),
        Err(err) => Err(SchedulerError::CronError(err)),
    }
}

/// The statement that stores a schedule: its cron line bound as `$1`, its
/// command as `$2`; it returns the stored row.
pub open spec fn insert_schedule_sql() -> Seq<char> {
    "INSERT INTO public.schedules(cron_line, command) VALUES ($1, $2) returning *;"@
}

/// What storing a new schedule asks of the database next.
pub enum CreateScheduleAction<E> {
    /// Run this statement with this cron line bound as `$1` and this command as `$2`.
    Insert(String, String, String),
    Finish(Result<Schedule, SchedulerError<E>>),
}

/// Storing a new schedule: the cron line is checked first, and only a line that
/// parses reaches the database, together with the request's command.
pub struct CreateScheduleFlow {
    inserting: bool,
}

impl CreateScheduleFlow {
    /// Whether the flow waits for the insert.
    pub closed spec fn inserting(&self) -> bool {
        self.inserting
    }

    /// Checks the request's cron line; asks for the insert of the request's cron
    /// line and command only when the line parses.
    pub fn start<E>(request: &CreateScheduleRequest) -> (r: (Self, CreateScheduleAction<E>))
        ensures
            cron_expression_parses(request.cron_line@) ==> r.0.inserting()
                && (r.1 matches CreateScheduleAction::Insert(sql, cron_line, command)
                    && sql@ == insert_schedule_sql() && cron_line@ == request.cron_line@
                    && command@ == request.command@),
            r.1 matches CreateScheduleAction::Insert(sql, _, _)
                ==> sql@ == "INSERT INTO public.schedules(cron_line, command) VALUES ($1, $2) returning *;"@,
            !cron_expression_parses(request.cron_line@) ==> !r.0.inserting()
                && (r.1 matches CreateScheduleAction::Finish(Err(err)) && err is CronError),
    {
        match check_cron_line(request) {
            Ok(()) => (
                CreateScheduleFlow { inserting: true },
                CreateScheduleAction::Insert(
                    String::from_str("INSERT INTO public.schedules(cron_line, command) VALUES ($1, $2) returning *;"),
                    request.cron_line.clone(),
                    request.command.clone(),
                ),
            ),
            Err(err) => (CreateScheduleFlow { inserting: false }, CreateScheduleAction::Finish(Err(err))),
        }
    }

    /// Learns what the insert returned: the stored schedule, or a database failure.
    pub fn inserted<E>(self, outcome: Result<Schedule, E>) -> (r: CreateScheduleAction<E>)
        requires
            self.inserting(),
        ensures
            match outcome {
                Ok(schedule) => r == CreateScheduleAction::<E>::Finish(Ok(schedule)),
                Err(e) => r == CreateScheduleAction::<E>::Finish(Err(SchedulerError::SQLError(e))),
            },
    {
        match outcome {
            Ok(schedule) => CreateScheduleAction::Finish(Ok(schedule)),
            Err(e) => CreateScheduleAction::Finish(Err(SchedulerError::SQLError(e))),
        }
    }
}

/// A job of the scheduler with the tick at which it fires next.
pub struct JobTick {
    pub id: Option<u128>,
    pub next_tick: u64,
}

/// Where the earliest next tick stands in the scheduler's list: the first
/// entry among those with the least `next_tick`.
pub open spec fn earliest_index(ticks: Seq<JobTick>) -> int
    decreases ticks.len(),
{
    if ticks.len() <= 1 {
        0
    } else {
        let best = earliest_index(ticks.drop_last());
        if ticks.last().next_tick < ticks[best].next_tick { ticks.len() - 1 } else { best }
    }
}

/// The earliest entry fires no later than any other entry, and strictly
/// earlier than every entry listed before it.
pub proof fn lemma_earliest_is_least(ticks: Seq<JobTick>)
    requires
        ticks.len() > 0,
    ensures
        0 <= earliest_index(ticks) < ticks.len(),
        forall|j: int| 0 <= j < ticks.len() ==> ticks[earliest_index(ticks)].next_tick <= #[trigger] ticks[j].next_tick,
        forall|j: int| 0 <= j < earliest_index(ticks) ==> ticks[earliest_index(ticks)].next_tick < #[trigger] ticks[j].next_tick,
    decreases ticks.len(),
{
    if ticks.len() > 1 {
        let prefix = ticks.drop_last();
        lemma_earliest_is_least(prefix);
        assert forall|j: int| 0 <= j < prefix.len() implies prefix[j] == #[trigger] ticks[j] by {}
    }
}

/// The stored schedule that fires next: the schedule of the job whose next tick
/// is the earliest in the scheduler's list, with that tick; `None` when no job
/// is listed.
pub open spec fn next_target(ticks: Seq<JobTick>, index: JobIndex) -> Option<(u128, u64)> {
    if ticks.len() == 0 {
        None
    } else {
        let earliest = ticks[earliest_index(ticks)];
        Some((index.job_db_map@[earliest.id->Some_0], earliest.next_tick))
    }
}

/// The next task is the one that fires first: when jobs are listed, the tick
/// answered is no later than any listed tick, and it is the tick of a listed
/// job whose schedule is the one answered; with no job listed there is none.
pub proof fn lemma_next_target_fires_first(ticks: Seq<JobTick>, index: JobIndex)
    requires
        earliest_job_known(ticks, index),
    ensures
        ticks.len() == 0 <==> next_target(ticks, index) is None,
        next_target(ticks, index) matches Some((db, tick)) ==> {
            &&& forall|j: int| 0 <= j < ticks.len() ==> tick <= #[trigger] ticks[j].next_tick
            &&& exists|j: int| 0 <= j < ticks.len() && (#[trigger] ticks[j]).next_tick == tick
                && ticks[j].id is Some && index.job_db_map@.contains_key(ticks[j].id->Some_0)
                && index.job_db_map@[ticks[j].id->Some_0] == db
        },
{
    if ticks.len() > 0 {
        lemma_earliest_is_least(ticks);
        let e = earliest_index(ticks);
        assert(ticks[e].next_tick == ticks[e].next_tick);
    }
}

/// Whether the job of the earliest tick can be followed to its schedule: it
/// carries an id, and the bookkeeping knows that id.
pub open spec fn earliest_job_known(ticks: Seq<JobTick>, index: JobIndex) -> bool {
    ticks.len() > 0 ==> {
        let earliest = ticks[earliest_index(ticks)];
        earliest.id is Some && index.job_db_map@.contains_key(earliest.id->Some_0)
    }
}

/// Finds, in the scheduler's list of next ticks, the entry that fires first
/// (the first of them on a tie); `None` for an empty list.
pub fn earliest_tick(ticks: &Vec<JobTick>) -> (r: Option<usize>)
    ensures
        ticks.len() == 0 ==> r is None,
        ticks.len() > 0 ==> r == Some(earliest_index(ticks@) as usize),
{
    if ticks.len() == 0 {
        return None;
    }
    let mut best: usize = 0;
    let mut i: usize = 1;
    assert(ticks@.take(1).len() == 1);
    while i < ticks.len()
        invariant
            1 <= i <= ticks.len(),
            best as int == earliest_index(ticks@.take(i as int)),
            best < i,
        decreases ticks.len() - i,
    {
        let ghost prefix = ticks@.take(i as int + 1);
        assert(prefix.drop_last() =~= ticks@.take(i as int));
        assert(prefix[best as int] == ticks@[best as int]);
        if ticks[i].next_tick < ticks[best].next_tick {
            best = i;
        }
        i = i + 1;
    }
    assert(ticks@.take(ticks.len() as int) =~= ticks@);
    Some(best)
}

/// Picks the stored schedule that fires next: the one whose job has the
/// earliest next tick in the scheduler's list, looked up in the job
/// bookkeeping, with that tick.  The earliest job must carry an id known to the
/// bookkeeping.
pub fn next_schedule_target(ticks: &Vec<JobTick>, index: &JobIndex) -> (r: Option<(u128, u64)>)
    requires
        earliest_job_known(ticks@, *index),
    ensures
        r == next_target(ticks@, *index),
        r is None <==> ticks.len() == 0,
        r matches Some((db, tick)) ==> {
            &&& forall|j: int| 0 <= j < ticks.len() ==> tick <= #[trigger] ticks@[j].next_tick
            &&& exists|j: int| 0 <= j < ticks.len() && (#[trigger] ticks@[j]).next_tick == tick
                && ticks@[j].id is Some && index.job_db_map@.contains_key(ticks@[j].id->Some_0)
                && index.job_db_map@[ticks@[j].id->Some_0] == db
        },
{
    proof {
        lemma_next_target_fires_first(ticks@, *index);
    }
    match earliest_tick(ticks) {
        None => None,
        Some(at) => {
            proof {
                lemma_earliest_is_least(ticks@);
            }
            let earliest = &ticks[at];
            let job = match earliest.id {
                Some(job) => job,
                None => 0,
            };
            match index.schedule_of_job(job) {
                Some(db_id) => Some((db_id, earliest.next_tick)),
                None => None,
            }
        },
    }
}

/// What the service answers for the next task, given the schedule looked up for
/// the target (if any): nothing when the schedule is gone, else the schedule
/// with its next tick; `Err(next_tick)` when chrono cannot represent the tick as
/// an instant (the service gives up there).
pub fn next_task_answer(schedule: Option<Schedule>, next_tick: u64) -> (r: Result<Option<NextScheduleResponse>, u64>)
    ensures
        schedule is None ==> r == Ok::<Option<NextScheduleResponse>, u64>(None),
        schedule is Some && !utc_timestamp_representable(next_tick as i64) ==> r == Err::<Option<NextScheduleResponse>, u64>(next_tick),
        schedule matches Some(s) ==> utc_timestamp_representable(next_tick as i64) ==> (r matches Ok(Some(response))
            && response.id == s.id && response.cron_line == s.cron_line && response.command == s.command
            && response.created_at == s.created_at && response.modified_at == s.modified_at
            && response.next == (UtcTime { secs: next_tick as i64, nanos: 0 })),
{
    match schedule {
        Some(schedule) => match NextScheduleResponse::try_with(schedule, next_tick) {
            Some(response) => Ok(Some(response)),
            None => Err(next_tick),
        },
        None => Ok(None),
    }
}

/// What finding the next task asks next.
pub enum NextTaskAction<E> {
    /// Look up the stored schedule of this id.
    FetchSchedule(u128),
    /// Answer with this.
    Finish(Result<Option<NextScheduleResponse>, E>),
    /// The tick of the next job is no instant chrono represents: give up.
    GiveUp(u64),
}

/// Finding the schedule that fires next: the earliest tick of the scheduler
/// picks a job, the bookkeeping its schedule, the database the schedule's row.
pub struct NextTaskFlow {
    tick: u64,
}

impl NextTaskFlow {
    /// The tick of the job picked.
    pub closed spec fn tick(&self) -> u64 {
        self.tick
    }

    /// Picks the job with the earliest tick; with no job listed there is no next
    /// task, else its schedule is looked up.
    pub fn start<E>(ticks: &Vec<JobTick>, index: &JobIndex) -> (r: (Self, NextTaskAction<E>))
        requires
            earliest_job_known(ticks@, *index),
        ensures
            match next_target(ticks@, *index) {
                None => r.1 == NextTaskAction::<E>::Finish(Ok(None)),
                Some((db_id, tick)) => r.1 == NextTaskAction::<E>::FetchSchedule(db_id) && r.0.tick() == tick,
            },
    {
        match next_schedule_target(ticks, index) {
            None => (NextTaskFlow { tick: 0 }, NextTaskAction::Finish(Ok(None))),
            Some((db_id, tick)) => (NextTaskFlow { tick }, NextTaskAction::FetchSchedule(db_id)),
        }
    }

    /// Learns what the lookup of the schedule returned: a database failure is
    /// passed on; a missing row means there is no next task; else the schedule
    /// is answered with its tick.
    pub fn fetched<E>(self, outcome: Result<Option<Schedule>, E>) -> (r: NextTaskAction<E>)
        ensures
            match outcome {
                Err(e) => r == NextTaskAction::<E>::Finish(Err(e)),
                Ok(None) => r == NextTaskAction::<E>::Finish(Ok(None)),
                Ok(Some(s)) => if utc_timestamp_representable(self.tick() as i64) {
                    r matches NextTaskAction::Finish(Ok(Some(response)))
                        && response.id == s.id && response.cron_line == s.cron_line
                        && response.command == s.command && response.created_at == s.created_at
                        && response.modified_at == s.modified_at
                        && response.next == (UtcTime { secs: self.tick() as i64, nanos: 0 })
                } else {
                    r == NextTaskAction::<E>::GiveUp(self.tick())
                },
            },
    {
        match outcome {
            Err(e) => NextTaskAction::Finish(Err(e)),
            Ok(schedule) => match next_task_answer(schedule, self.tick) {
                Ok(answer) => NextTaskAction::Finish(Ok(answer)),
                Err(tick) => NextTaskAction::GiveUp(tick),
            },
        }
    }
}

} // verus!
