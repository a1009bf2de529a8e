//! The decisions of the process service: whether a queue exists, how a process
//! is added, and how the next process is handed out.
use vstd::prelude::*;
use crate::runner::models::Process;
use crate::runner::sql::{
    lemma_statement_texts,
    insert_process_sql, insert_process_statement, lock_info_sql, lock_info_statement,
    next_process_sql, next_process_statement, read_position_sql, read_position_statement,
    store_position_sql, store_position_statement,
};

verus! {

/// Why the process service refused a request.
pub enum ProcessError<E> {
    /// The named queue does not exist.
    QueueNotFound,
    /// The database failed with this error.
    SQLError(E),
}

/// What the service concludes from asking whether a queue exists.
pub open spec fn queue_check_result<E>(answer: Result<bool, E>) -> Result<(), ProcessError<E>> {
    match answer {
        Ok(true) => Ok(()),
        Ok(false) => Err(ProcessError::QueueNotFound),
        Err(e) => Err(ProcessError::SQLError(e)),
    }
}

/// Only an existing queue lets a request go on: the answer "exists" goes on,
/// "does not exist" is `QueueNotFound`, and a database failure is passed on as
/// `SQLError` with its error.
pub proof fn lemma_only_existing_queues_go_on<E>(e: E)
    ensures
        queue_check_result::<E>(Ok(true)) == Ok::<(), ProcessError<E>>(()),
        queue_check_result::<E>(Ok(false)) == Err::<(), ProcessError<E>>(ProcessError::QueueNotFound),
        queue_check_result::<E>(Err(e)) == Err::<(), ProcessError<E>>(ProcessError::SQLError(e)),
{
}

/// Turns the database's answer to "does this queue exist?" into what the service
/// concludes: go on, the queue is unknown, or the database failed.
pub fn queue_check<E>(answer: Result<bool, E>) -> (r: Result<(), ProcessError<E>>)
    ensures
        r == queue_check_result(answer),
{
    match answer {
        Ok(has_queue) => if has_queue {
            Ok(())
        } else {
            Err(ProcessError::QueueNotFound)
        },
        Err(err) => Err(ProcessError::SQLError(err)),
    }
}

/// What adding a process asks of the database next.
pub enum AddProcessAction<E> {
    /// Ask whether the queue exists.
    CheckQueue,
    /// Run this statement with this id bound as `$1` and this JSON context (as
    /// text) bound as `$2`.
    Insert(String, u128, String),
    Finish(Result<(), ProcessError<E>>),
}

/// What came of the last action of adding a process.
pub enum AddProcessEvent<E> {
    QueueChecked(Result<bool, E>),
    Inserted(Result<(), E>),
}

pub enum AddProcessPhase {
    CheckingQueue,
    Inserting,
    Finished,
}

/// Adding a process to a queue: the queue, the fresh id and the context of the
/// new process, and where the request stands.
pub struct AddProcessFlow {
    queue: String,
    id: u128,
    context: String,
    phase: AddProcessPhase,
}

impl AddProcessFlow {
    pub closed spec fn queue(&self) -> Seq<char> {
        self.queue@
    }

    pub closed spec fn id(&self) -> u128 {
        self.id
    }

    pub closed spec fn context(&self) -> Seq<char> {
        self.context@
    }

    pub closed spec fn phase(&self) -> AddProcessPhase {
        self.phase
    }

    /// Starts adding the process with this fresh `id` and JSON `context` (as
    /// text) to `queue`: first ask whether the queue exists.
    pub fn start<E>(queue: &str, id: u128, context: String) -> (r: (Self, AddProcessAction<E>))
        ensures
            r.0.queue() == queue@,
            r.0.id() == id,
            r.0.context() == context@,
            r.0.phase() is CheckingQueue,
            r.1 is CheckQueue,
    {
        (
            AddProcessFlow { queue: String::from_str(queue), id, context, phase: AddProcessPhase::CheckingQueue },
            AddProcessAction::CheckQueue,
        )
    }

    /// Learns what came of the last action and says what to do next: insert the
    /// process, with its id and its context, only into a queue that exists;
    /// report a refusal or a database failure as it came.
    pub fn step<E>(self, event: AddProcessEvent<E>) -> (r: (Self, AddProcessAction<E>))
        requires
            self.phase() is CheckingQueue ==> event is QueueChecked,
            self.phase() is Inserting ==> event is Inserted,
            !(self.phase() is Finished),
        ensures
            r.0.queue() == self.queue(),
            r.0.id() == self.id(),
            r.0.context() == self.context(),
            match (self.phase(), event) {
                (AddProcessPhase::CheckingQueue, AddProcessEvent::QueueChecked(answer)) =>
                    if queue_check_result(answer) is Ok {
                        r.0.phase() is Inserting && (r.1 matches AddProcessAction::Insert(sql, id, context)
                            && sql@ == insert_process_sql(self.queue()) && id == self.id()
                            && context@ == self.context())
                    } else {
                        r.0.phase() is Finished && r.1 == AddProcessAction::Finish(queue_check_result(answer))
                    },
                (AddProcessPhase::Inserting, AddProcessEvent::Inserted(Ok(_))) =>
                    r.0.phase() is Finished && r.1 == AddProcessAction::<E>::Finish(Ok(())),
                (AddProcessPhase::Inserting, AddProcessEvent::Inserted(Err(e))) =>
                    r.0.phase() is Finished && r.1 == AddProcessAction::<E>::Finish(Err(ProcessError::SQLError(e))),
                _ => false,
            },
    {
        let AddProcessFlow { queue, id, context, phase } = self;
        match (phase, event) {
            (AddProcessPhase::CheckingQueue, AddProcessEvent::QueueChecked(answer)) => {
                match queue_check(answer) {
                    Ok(()) => {
                        let sql = insert_process_statement(queue.as_str());
                        let bound = context.clone();
                        (
                            AddProcessFlow { queue, id, context, phase: AddProcessPhase::Inserting },
                            AddProcessAction::Insert(sql, id, bound),
                        )
                    },
                    Err(err) => (
                        AddProcessFlow { queue, id, context, phase: AddProcessPhase::Finished },
                        AddProcessAction::Finish(Err(err)),
                    ),
                }
            },
            (AddProcessPhase::Inserting, AddProcessEvent::Inserted(Ok(_))) =>
                (AddProcessFlow { queue, id, context, phase: AddProcessPhase::Finished }, AddProcessAction::Finish(Ok(()))),
            (_, AddProcessEvent::Inserted(Err(e))) => (
                AddProcessFlow { queue, id, context, phase: AddProcessPhase::Finished },
                AddProcessAction::Finish(Err(ProcessError::SQLError(e))),
            ),
            (phase, AddProcessEvent::Inserted(Ok(_))) => (AddProcessFlow { queue, id, context, phase }, AddProcessAction::Finish(Ok(()))),
            (phase, AddProcessEvent::QueueChecked(_)) => (AddProcessFlow { queue, id, context, phase }, AddProcessAction::Finish(Ok(()))),
        }
    }
}

/// What handing out the next process of a queue asks of the database next.
pub enum GetProcessAction<E> {
    /// Ask whether the queue exists.
    CheckQueue,
    /// Open a transaction.
    Begin,
    /// Run this statement, which locks the queue's bookkeeping.
    Lock(String),
    /// Fetch the stored position (a JSON number) with this statement.
    ReadPosition(String),
    /// Fetch the first process after the position with this statement, the position bound as `$1`.
    FetchNext(String, i64),
    /// Store this position (as a JSON number, bound as `$1`) with this statement.
    StorePosition(String, i64),
    Commit,
    Rollback,
    /// Hand this result to the caller.
    Finish(Result<Option<Process>, ProcessError<E>>),
}

/// What came of the last action of handing out a process.
pub enum GetProcessEvent<E> {
    QueueChecked(Result<bool, E>),
    Begun(Result<(), E>),
    Locked(Result<(), E>),
    PositionRead(Result<i64, E>),
    NextFetched(Result<Option<Process>, E>),
    PositionStored(Result<(), E>),
    /// The commit or the rollback returned.
    Closed(Result<(), E>),
}

/// Where handing out a process stands.
pub enum GetProcessPhase<E> {
    CheckingQueue,
    Beginning,
    Locking,
    ReadingPosition,
    FetchingNext,
    /// This process was found; its position is being stored.
    StoringPosition(Process),
    /// The transaction's work is done with this result; the commit runs.
    Committing(Option<Process>),
    /// A step inside the transaction failed with this error; the rollback runs.
    RollingBack(E),
    Finished,
}

/// Whether `event` answers the action that `phase` waits for.
pub open spec fn get_process_expects<E>(phase: GetProcessPhase<E>, event: GetProcessEvent<E>) -> bool {
    match phase {
        GetProcessPhase::CheckingQueue => event is QueueChecked,
        GetProcessPhase::Beginning => event is Begun,
        GetProcessPhase::Locking => event is Locked,
        GetProcessPhase::ReadingPosition => event is PositionRead,
        GetProcessPhase::FetchingNext => event is NextFetched,
        GetProcessPhase::StoringPosition(_) => event is PositionStored,
        GetProcessPhase::Committing(_) => event is Closed,
        GetProcessPhase::RollingBack(_) => event is Closed,
        GetProcessPhase::Finished => false,
    }
}

/// One step of handing out the next process of `queue`: from `phase`, on
/// `event`, the flow moves to `next` and asks for `action`.  The queue is
/// checked first; then, in one transaction, the bookkeeping is locked, the
/// stored position read, the first process after it fetched and, when there is
/// one, its position stored; the transaction commits when every step succeeded
/// and rolls back at the first failure.
pub open spec fn get_process_transition<E>(
    queue: Seq<char>,
    phase: GetProcessPhase<E>,
    event: GetProcessEvent<E>,
    next: GetProcessPhase<E>,
    action: GetProcessAction<E>,
) -> bool {
    match (phase, event) {
        (GetProcessPhase::CheckingQueue, GetProcessEvent::QueueChecked(answer)) =>
            match queue_check_result(answer) {
                Ok(_) => next is Beginning && action is Begin,
                Err(e) => next is Finished && action == GetProcessAction::Finish(Err(e)),
            },
        (GetProcessPhase::Beginning, GetProcessEvent::Begun(Ok(_))) =>
            next is Locking && (action matches GetProcessAction::Lock(sql) && sql@ == lock_info_sql(queue)),
        (GetProcessPhase::Beginning, GetProcessEvent::Begun(Err(e))) =>
            next is Finished && action == GetProcessAction::<E>::Finish(Err(ProcessError::SQLError(e))),
        (GetProcessPhase::Locking, GetProcessEvent::Locked(Ok(_))) =>
            next is ReadingPosition && (action matches GetProcessAction::ReadPosition(sql)
                && sql@ == read_position_sql(queue)),
        (GetProcessPhase::ReadingPosition, GetProcessEvent::PositionRead(Ok(position))) =>
            next is FetchingNext && (action matches GetProcessAction::FetchNext(sql, bound)
                && sql@ == next_process_sql(queue) && bound == position),
        (GetProcessPhase::FetchingNext, GetProcessEvent::NextFetched(Ok(Some(process)))) =>
            next == GetProcessPhase::<E>::StoringPosition(process) && (action matches GetProcessAction::StorePosition(sql, stored)
                && sql@ == store_position_sql(queue) && stored == process.position),
        (GetProcessPhase::FetchingNext, GetProcessEvent::NextFetched(Ok(None))) =>
            next == GetProcessPhase::<E>::Committing(None) && action is Commit,
        (GetProcessPhase::StoringPosition(process), GetProcessEvent::PositionStored(Ok(_))) =>
            next == GetProcessPhase::<E>::Committing(Some(process)) && action is Commit,
        (GetProcessPhase::Locking, GetProcessEvent::Locked(Err(e))) =>
            next == GetProcessPhase::RollingBack(e) && action is Rollback,
        (GetProcessPhase::ReadingPosition, GetProcessEvent::PositionRead(Err(e))) =>
            next == GetProcessPhase::RollingBack(e) && action is Rollback,
        (GetProcessPhase::FetchingNext, GetProcessEvent::NextFetched(Err(e))) =>
            next == GetProcessPhase::RollingBack(e) && action is Rollback,
        (GetProcessPhase::StoringPosition(_), GetProcessEvent::PositionStored(Err(e))) =>
            next == GetProcessPhase::RollingBack(e) && action is Rollback,
        (GetProcessPhase::Committing(result), GetProcessEvent::Closed(Ok(_))) =>
            next is Finished && action == GetProcessAction::<E>::Finish(Ok(result)),
        (GetProcessPhase::Committing(_), GetProcessEvent::Closed(Err(c))) =>
            next is Finished && action == GetProcessAction::<E>::Finish(Err(ProcessError::SQLError(c))),
        (GetProcessPhase::RollingBack(e), GetProcessEvent::Closed(Ok(_))) =>
            next is Finished && action == GetProcessAction::<E>::Finish(Err(ProcessError::SQLError(e))),
        (GetProcessPhase::RollingBack(_), GetProcessEvent::Closed(Err(c))) =>
            next is Finished && action == GetProcessAction::<E>::Finish(Err(ProcessError::SQLError(c))),
        _ => false,
    }
}

/// Handing out the next process of a queue.  Besides the queue and the phase it
/// remembers, as ghost state, whether a transaction was asked for, which
/// position was read, and which position was stored with success.
pub struct GetProcessFlow<E> {
    queue: String,
    phase: GetProcessPhase<E>,
    began: Ghost<bool>,
    read: Ghost<Option<i64>>,
    stored: Ghost<Option<i64>>,
}

impl<E> GetProcessFlow<E> {
    /// The queue the flow hands a process out of.
    pub closed spec fn queue(&self) -> Seq<char> {
        self.queue@
    }

    /// Where the flow stands.
    pub closed spec fn phase(&self) -> GetProcessPhase<E> {
        self.phase
    }

    /// Whether a transaction was asked for.
    pub closed spec fn began(&self) -> bool {
        self.began@
    }

    /// The stored position that was read, once it was.
    pub closed spec fn read_position(&self) -> Option<i64> {
        self.read@
    }

    /// The position written with success, once it was.
    pub closed spec fn stored_position(&self) -> Option<i64> {
        self.stored@
    }

    /// How the phase and the remembered facts fit together.
    #[verifier::type_invariant]
    spec fn wf(&self) -> bool {
        match self.phase {
            GetProcessPhase::CheckingQueue => !self.began@ && self.read@ is None && self.stored@ is None,
            GetProcessPhase::Beginning => self.began@ && self.read@ is None && self.stored@ is None,
            GetProcessPhase::Locking => self.began@ && self.read@ is None && self.stored@ is None,
            GetProcessPhase::ReadingPosition => self.began@ && self.read@ is None && self.stored@ is None,
            GetProcessPhase::FetchingNext => self.began@ && self.read@ is Some && self.stored@ is None,
            GetProcessPhase::StoringPosition(_) => self.began@ && self.read@ is Some && self.stored@ is None,
            GetProcessPhase::Committing(result) => self.began@ && self.read@ is Some && match result {
                Some(process) => self.stored@ == Some(process.position),
                None => self.stored@ is None,
            },
            GetProcessPhase::RollingBack(_) => self.began@,
            GetProcessPhase::Finished => true,
        }
    }

    /// Starts handing out the next process of `queue`: first ask whether it exists.
    pub fn start(queue: &str) -> (r: (Self, GetProcessAction<E>))
        ensures
            r.0.queue() == queue@,
            r.0.phase() is CheckingQueue,
            !r.0.began(),
            r.1 is CheckQueue,
    {
        (
            GetProcessFlow {
                queue: String::from_str(queue),
                phase: GetProcessPhase::CheckingQueue,
                began: Ghost(false),
                read: Ghost(None),
                stored: Ghost(None),
            },
            GetProcessAction::CheckQueue,
        )
    }

    /// Learns what came of the last action and says what to do next.
    ///
    /// Besides the transition itself: a process is handed out only once its
    /// position was stored and the transaction committed; when none is found
    /// nothing is stored; the process fetched is the first after the position
    /// read; an unknown queue is refused before any transaction.
    pub fn step(self, event: GetProcessEvent<E>) -> (r: (Self, GetProcessAction<E>))
        requires
            get_process_expects(self.phase(), event),
        ensures
            r.0.queue() == self.queue(),
            get_process_transition(self.queue(), self.phase(), event, r.0.phase(), r.1),
            r.1 matches GetProcessAction::Lock(sql) ==> sql@ == lock_info_sql(self.queue()),
            r.1 matches GetProcessAction::ReadPosition(sql) ==> sql@ == read_position_sql(self.queue()),
            r.1 matches GetProcessAction::FetchNext(sql, _) ==> sql@ == next_process_sql(self.queue()),
            r.1 matches GetProcessAction::StorePosition(sql, _) ==> sql@ == store_position_sql(self.queue()),
            r.1 matches GetProcessAction::FetchNext(_, position) ==> r.0.read_position() == Some(position),
            r.1 matches GetProcessAction::Finish(Ok(Some(process))) ==> r.0.stored_position() == Some(process.position),
            r.1 matches GetProcessAction::Finish(Ok(None)) ==> r.0.stored_position() is None && r.0.read_position() is Some,
            r.1 matches GetProcessAction::Finish(Err(ProcessError::QueueNotFound)) ==> !r.0.began(),
    {
        proof {
            use_type_invariant(&self);
        }
        let queue = self.queue;
        let began = self.began;
        let read = self.read;
        let stored = self.stored;
        match (self.phase, event) {
            (GetProcessPhase::CheckingQueue, GetProcessEvent::QueueChecked(answer)) => match queue_check(answer) {
                Ok(()) => (
                    GetProcessFlow { queue, phase: GetProcessPhase::Beginning, began: Ghost(true), read, stored },
                    GetProcessAction::Begin,
                ),
                Err(err) => (
                    GetProcessFlow { queue, phase: GetProcessPhase::Finished, began, read, stored },
                    GetProcessAction::Finish(Err(err)),
                ),
            },
            (GetProcessPhase::Beginning, GetProcessEvent::Begun(Ok(_))) => {
                let sql = lock_info_statement(queue.as_str());
                (GetProcessFlow { queue, phase: GetProcessPhase::Locking, began, read, stored }, GetProcessAction::Lock(sql))
            },
            (GetProcessPhase::Beginning, GetProcessEvent::Begun(Err(e))) => (
                GetProcessFlow { queue, phase: GetProcessPhase::Finished, began, read, stored },
                GetProcessAction::Finish(Err(ProcessError::SQLError(e))),
            ),
            (GetProcessPhase::Locking, GetProcessEvent::Locked(Ok(_))) => {
                let sql = read_position_statement(queue.as_str());
                (
                    GetProcessFlow { queue, phase: GetProcessPhase::ReadingPosition, began, read, stored },
                    GetProcessAction::ReadPosition(sql),
                )
            },
            (GetProcessPhase::ReadingPosition, GetProcessEvent::PositionRead(Ok(position))) => {
                let sql = next_process_statement(queue.as_str());
                (
                    GetProcessFlow { queue, phase: GetProcessPhase::FetchingNext, began, read: Ghost(Some(position)), stored },
                    GetProcessAction::FetchNext(sql, position),
                )
            },
            (GetProcessPhase::FetchingNext, GetProcessEvent::NextFetched(Ok(Some(process)))) => {
                let sql = store_position_statement(queue.as_str());
                let position = process.position;
                (
                    GetProcessFlow { queue, phase: GetProcessPhase::StoringPosition(process), began, read, stored },
                    GetProcessAction::StorePosition(sql, position),
                )
            },
            (GetProcessPhase::FetchingNext, GetProcessEvent::NextFetched(Ok(None))) => (
                GetProcessFlow { queue, phase: GetProcessPhase::Committing(None), began, read, stored },
                GetProcessAction::Commit,
            ),
            (GetProcessPhase::StoringPosition(process), GetProcessEvent::PositionStored(Ok(_))) => {
                let ghost position = process.position;
                (
                    GetProcessFlow {
                        queue,
                        phase: GetProcessPhase::Committing(Some(process)),
                        began,
                        read,
                        stored: Ghost(Some(position)),
                    },
                    GetProcessAction::Commit,
                )
            },
            (GetProcessPhase::Locking, GetProcessEvent::Locked(Err(e)))
            | (GetProcessPhase::ReadingPosition, GetProcessEvent::PositionRead(Err(e)))
            | (GetProcessPhase::FetchingNext, GetProcessEvent::NextFetched(Err(e)))
            | (GetProcessPhase::StoringPosition(_), GetProcessEvent::PositionStored(Err(e))) => (
                GetProcessFlow { queue, phase: GetProcessPhase::RollingBack(e), began, read, stored },
                GetProcessAction::Rollback,
            ),
            (GetProcessPhase::Committing(result), GetProcessEvent::Closed(Ok(_))) => (
                GetProcessFlow { queue, phase: GetProcessPhase::Finished, began, read, stored },
                GetProcessAction::Finish(Ok(result)),
            ),
            (GetProcessPhase::RollingBack(e), GetProcessEvent::Closed(Ok(_))) => (
                GetProcessFlow { queue, phase: GetProcessPhase::Finished, began, read, stored },
                GetProcessAction::Finish(Err(ProcessError::SQLError(e))),
            ),
            (_, GetProcessEvent::Closed(Err(c))) => (
                GetProcessFlow { queue, phase: GetProcessPhase::Finished, began, read, stored },
                GetProcessAction::Finish(Err(ProcessError::SQLError(c))),
            ),
            (phase, _) => (GetProcessFlow { queue, phase, began, read, stored }, GetProcessAction::Rollback),
        }
    }
}

/// What each step of handing out a process sends, whatever the database
/// answers: the lock, the position read and the position store address the
/// queue's bookkeeping table `queues.<queue>_info`, the fetch its process
/// table `queues.<queue>_queue`; the fetch is bound to the position just read;
/// the position stored is that of the process just fetched; a process is
/// handed out only by a successful commit that follows storing its position.
pub proof fn lemma_get_process_step_statements<E>(
    queue: Seq<char>,
    phase: GetProcessPhase<E>,
    event: GetProcessEvent<E>,
    next: GetProcessPhase<E>,
    action: GetProcessAction<E>,
)
    requires
        get_process_transition(queue, phase, event, next, action),
    ensures
        action matches GetProcessAction::Lock(sql) ==> sql@ == "LOCK TABLE queues."@ + queue + "_info"@
            && phase is Beginning && (event matches GetProcessEvent::Begun(Ok(_))),
        action matches GetProcessAction::ReadPosition(sql) ==> sql@
            == "select value from queues."@ + queue + "_info where key = 'position'"@ && phase is Locking,
        action matches GetProcessAction::FetchNext(sql, after) ==> sql@
            == "Select * from queues."@ + queue + "_queue WHERE position > $1 order by position LIMIT 1"@
            && event == GetProcessEvent::<E>::PositionRead(Ok(after)),
        action matches GetProcessAction::StorePosition(sql, position) ==> sql@
            == "UPDATE queues."@ + queue + "_info SET value= $1 WHERE key = 'position'"@
            && (event matches GetProcessEvent::NextFetched(Ok(Some(process))) && process.position == position),
        action matches GetProcessAction::Finish(Ok(Some(process))) ==> phase == GetProcessPhase::<E>::Committing(Some(process))
            && (event matches GetProcessEvent::Closed(Ok(_))),
        action matches GetProcessAction::Finish(Ok(None)) ==> phase == GetProcessPhase::<E>::Committing(None)
            && (event matches GetProcessEvent::Closed(Ok(_))),
        action matches GetProcessAction::Finish(Err(ProcessError::QueueNotFound)) ==> event == GetProcessEvent::<E>::QueueChecked(Ok(false)),
        event matches GetProcessEvent::QueueChecked(Ok(false)) ==> action == GetProcessAction::<E>::Finish(Err(ProcessError::QueueNotFound)),
        phase is Locking || phase is ReadingPosition || phase is FetchingNext || phase is StoringPosition ==> (
            match event {
                GetProcessEvent::Locked(Err(e)) => action is Rollback && next == GetProcessPhase::RollingBack(e),
                GetProcessEvent::PositionRead(Err(e)) => action is Rollback && next == GetProcessPhase::RollingBack(e),
                GetProcessEvent::NextFetched(Err(e)) => action is Rollback && next == GetProcessPhase::RollingBack(e),
                GetProcessEvent::PositionStored(Err(e)) => action is Rollback && next == GetProcessPhase::RollingBack(e),
                _ => !(action is Rollback) && !(action is Finish),
            }
        ),
{
    lemma_statement_texts(queue);
}

} // verus!
