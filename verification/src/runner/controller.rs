//! What the process-runner's HTTP handlers answer, given what the services
//! returned.
use vstd::prelude::*;
use crate::http_status::{BAD_REQUEST, CONFLICT, INTERNAL_SERVER_ERROR, NOT_FOUND};
use crate::runner::models::{valid_queue_name, Process, Queue, QueueRequest};
use crate::runner::service::ProcessError;

verus! {

/// The status that answers a refusal of the process service: an unknown queue
/// is not found; a database failure is an internal error.
pub open spec fn process_error_status<E>(err: ProcessError<E>) -> u16 {
    match err {
        ProcessError::QueueNotFound => NOT_FOUND,
        ProcessError::SQLError(_) => INTERNAL_SERVER_ERROR,
    }
}

fn error_status<E>(err: ProcessError<E>) -> (r: u16)
    ensures
        r == process_error_status(err),
{
    match err {
        ProcessError::QueueNotFound => NOT_FOUND,
        ProcessError::SQLError(_) => INTERNAL_SERVER_ERROR,
    }
}

/// The answer to `POST /process/add_process`: empty on success, else the status
/// of the refusal.
pub fn add_process_response<E>(outcome: Result<(), ProcessError<E>>) -> (r: Result<(), u16>)
    ensures
        match outcome {
            Ok(_) => r is Ok,
            Err(err) => r == Err::<(), u16>(process_error_status(err)),
        },
        outcome matches Err(ProcessError::QueueNotFound) ==> r == Err::<(), u16>(404),
        outcome matches Err(ProcessError::SQLError(_)) ==> r == Err::<(), u16>(500),
{
    match outcome {
        Ok(()) => Ok(()),
        Err(err) => Err(error_status(err)),
    }
}

/// The JSON body that stands for "no process waiting": an empty object.
pub open spec fn empty_json_object() -> Seq<char> {
    "{}"@
}

/// The answer to `POST /process/get_process`: the JSON context of the process
/// handed out, an empty JSON object when the queue had none waiting, else the
/// status of the refusal.
pub fn get_process_response<E>(outcome: Result<Option<Process>, ProcessError<E>>) -> (r: Result<String, u16>)
    ensures
        match outcome {
            Ok(Some(process)) => r matches Ok(body) && body@ == process.context@,
            Ok(None) => r matches Ok(body) && body@ == empty_json_object(),
            Err(err) => r == Err::<String, u16>(process_error_status(err)),
        },
        outcome matches Ok(None) ==> (r matches Ok(body) && body@ == "{}"@),
        outcome matches Err(ProcessError::QueueNotFound) ==> r == Err::<String, u16>(404),
        outcome matches Err(ProcessError::SQLError(_)) ==> r == Err::<String, u16>(500),
{
    match outcome {
        Ok(Some(process)) => Ok(process.context),
        Ok(None) => Ok(String::from_str("{}")),
        Err(err) => Err(error_status(err)),
    }
}

/// The answer to `GET /queues/list-queues`: the queues, or an internal error.
pub fn list_queues_response<E>(outcome: Result<Vec<Queue>, E>) -> (r: Result<Vec<Queue>, u16>)
    ensures
        match outcome {
            Ok(queues) => r == Ok::<Vec<Queue>, u16>(queues),
            Err(_) => r == Err::<Vec<Queue>, u16>(INTERNAL_SERVER_ERROR),
        },
{
    match outcome {
        Ok(queues) => Ok(queues),
        Err(_) => Err(INTERNAL_SERVER_ERROR),
    }
}

/// What handling a request to create a queue asks next.
pub enum QueueRequestAction {
    /// Ask whether the queue exists.
    CheckQueue,
    /// Create the queue.
    CreateQueue,
    /// Answer with this: empty on success, else a status.
    Finish(Result<(), u16>),
}

/// What came of the last action of handling a request to create a queue.
pub enum QueueRequestEvent<E> {
    QueueChecked(Result<bool, E>),
    Created(Result<(), E>),
}

pub enum QueueRequestPhase {
    CheckingQueue,
    Creating,
    Finished,
}

/// Handling `POST /queues/create-queue`: a bad name is refused before the
/// database is asked anything, an existing queue is a conflict, and only a new,
/// well-named queue is created.
pub struct QueueRequestFlow {
    phase: QueueRequestPhase,
    name: Ghost<Seq<char>>,
}

impl QueueRequestFlow {
    /// Where the flow stands.
    pub closed spec fn phase(&self) -> QueueRequestPhase {
        self.phase
    }

    /// The queue name of the request.
    pub closed spec fn name(&self) -> Seq<char> {
        self.name@
    }

    /// A flow still at work handles a well-formed name.
    #[verifier::type_invariant]
    spec fn wf(&self) -> bool {
        !(self.phase is Finished) ==> valid_queue_name(self.name@)
    }

    /// Starts on a request: refuses a bad name at once, else asks whether the
    /// queue exists.
    pub fn start(request: &QueueRequest) -> (r: (Self, QueueRequestAction))
        ensures
            r.0.name() == request.queue@,
            valid_queue_name(request.queue@) ==> r.0.phase() is CheckingQueue && r.1 is CheckQueue,
            !valid_queue_name(request.queue@) ==> r.0.phase() is Finished
                && r.1 == QueueRequestAction::Finish(Err(BAD_REQUEST)),
    {
        if !request.is_valid() {
            return (
                QueueRequestFlow { phase: QueueRequestPhase::Finished, name: Ghost(request.queue@) },
                QueueRequestAction::Finish(Err(BAD_REQUEST)),
            );
        }
        (QueueRequestFlow { phase: QueueRequestPhase::CheckingQueue, name: Ghost(request.queue@) }, QueueRequestAction::CheckQueue)
    }

    /// Learns what came of the last action and says what to do next.
    pub fn step<E>(self, event: QueueRequestEvent<E>) -> (r: (Self, QueueRequestAction))
        requires
            self.phase() is CheckingQueue ==> event is QueueChecked,
            self.phase() is Creating ==> event is Created,
            !(self.phase() is Finished),
        ensures
            r.0.name() == self.name(),
            r.0.phase() is Finished <==> !(r.1 is CreateQueue),
            r.1 is CreateQueue ==> valid_queue_name(self.name()) && self.phase() is CheckingQueue,
            match event {
                QueueRequestEvent::QueueChecked(Ok(true)) => r.1 == QueueRequestAction::Finish(Err(CONFLICT)),
                QueueRequestEvent::QueueChecked(Ok(false)) => r.0.phase() is Creating && r.1 is CreateQueue,
                QueueRequestEvent::QueueChecked(Err(_)) => r.1 == QueueRequestAction::Finish(Err(INTERNAL_SERVER_ERROR)),
                QueueRequestEvent::Created(Ok(_)) => r.1 == QueueRequestAction::Finish(Ok(())),
                QueueRequestEvent::Created(Err(_)) => r.1 == QueueRequestAction::Finish(Err(INTERNAL_SERVER_ERROR)),
            },
    {
        proof {
            use_type_invariant(&self);
        }
        let name = self.name;
        match event {
            QueueRequestEvent::QueueChecked(Ok(does_exist)) => if does_exist {
                (QueueRequestFlow { phase: QueueRequestPhase::Finished, name }, QueueRequestAction::Finish(Err(CONFLICT)))
            } else {
                (QueueRequestFlow { phase: QueueRequestPhase::Creating, name }, QueueRequestAction::CreateQueue)
            },
            QueueRequestEvent::QueueChecked(Err(_)) =>
                (QueueRequestFlow { phase: QueueRequestPhase::Finished, name }, QueueRequestAction::Finish(Err(INTERNAL_SERVER_ERROR))),
            QueueRequestEvent::Created(Ok(())) =>
                (QueueRequestFlow { phase: QueueRequestPhase::Finished, name }, QueueRequestAction::Finish(Ok(()))),
            QueueRequestEvent::Created(Err(_)) =>
                (QueueRequestFlow { phase: QueueRequestPhase::Finished, name }, QueueRequestAction::Finish(Err(INTERNAL_SERVER_ERROR))),
        }
    }
}

/// What handling a request to delete a queue asks next.
pub enum DeleteQueueAction {
    /// Ask whether the queue exists.
    CheckQueue,
    /// Delete the queue.
    DeleteQueue,
    /// Answer with this: empty on success, else a status.
    Finish(Result<(), u16>),
}

/// What came of the last action of handling a request to delete a queue.
pub enum DeleteQueueEvent<E> {
    QueueChecked(Result<bool, E>),
    Deleted(Result<(), E>),
}

pub enum DeleteQueuePhase {
    CheckingQueue,
    Deleting,
    Finished,
}

/// Handling `DELETE /queues/delete-queue`: a bad name is refused before the
/// database is asked anything, a missing queue is not found, and only an
/// existing, well-named queue is deleted.  Deleting never creates a queue.
pub struct DeleteQueueFlow {
    phase: DeleteQueuePhase,
    name: Ghost<Seq<char>>,
}

impl DeleteQueueFlow {
    /// Where the flow stands.
    pub closed spec fn phase(&self) -> DeleteQueuePhase {
        self.phase
    }

    /// The queue name of the request.
    pub closed spec fn name(&self) -> Seq<char> {
        self.name@
    }

    /// A flow still at work handles a well-formed name.
    #[verifier::type_invariant]
    spec fn wf(&self) -> bool {
        !(self.phase is Finished) ==> valid_queue_name(self.name@)
    }

    /// Starts on a request: refuses a bad name at once, else asks whether the
    /// queue exists.
    pub fn start(request: &QueueRequest) -> (r: (Self, DeleteQueueAction))
        ensures
            r.0.name() == request.queue@,
            valid_queue_name(request.queue@) ==> r.0.phase() is CheckingQueue && r.1 is CheckQueue,
            !valid_queue_name(request.queue@) ==> r.0.phase() is Finished
                && r.1 == DeleteQueueAction::Finish(Err(BAD_REQUEST)),
    {
        if !request.is_valid() {
            return (
                DeleteQueueFlow { phase: DeleteQueuePhase::Finished, name: Ghost(request.queue@) },
                DeleteQueueAction::Finish(Err(BAD_REQUEST)),
            );
        }
        (DeleteQueueFlow { phase: DeleteQueuePhase::CheckingQueue, name: Ghost(request.queue@) }, DeleteQueueAction::CheckQueue)
    }

    /// Learns what came of the last action and says what to do next.
    pub fn step<E>(self, event: DeleteQueueEvent<E>) -> (r: (Self, DeleteQueueAction))
        requires
            self.phase() is CheckingQueue ==> event is QueueChecked,
            self.phase() is Deleting ==> event is Deleted,
            !(self.phase() is Finished),
        ensures
            r.0.name() == self.name(),
            r.0.phase() is Finished <==> !(r.1 is DeleteQueue),
            r.1 is DeleteQueue ==> valid_queue_name(self.name()) && self.phase() is CheckingQueue,
            match event {
                DeleteQueueEvent::QueueChecked(Ok(true)) => r.0.phase() is Deleting && r.1 is DeleteQueue,
                DeleteQueueEvent::QueueChecked(Ok(false)) => r.1 == DeleteQueueAction::Finish(Err(NOT_FOUND)),
                DeleteQueueEvent::QueueChecked(Err(_)) => r.1 == DeleteQueueAction::Finish(Err(INTERNAL_SERVER_ERROR)),
                DeleteQueueEvent::Deleted(Ok(_)) => r.1 == DeleteQueueAction::Finish(Ok(())),
                DeleteQueueEvent::Deleted(Err(_)) => r.1 == DeleteQueueAction::Finish(Err(INTERNAL_SERVER_ERROR)),
            },
    {
        proof {
            use_type_invariant(&self);
        }
        let name = self.name;
        match event {
            DeleteQueueEvent::QueueChecked(Ok(does_exist)) => if does_exist {
                (DeleteQueueFlow { phase: DeleteQueuePhase::Deleting, name }, DeleteQueueAction::DeleteQueue)
            } else {
                (DeleteQueueFlow { phase: DeleteQueuePhase::Finished, name }, DeleteQueueAction::Finish(Err(NOT_FOUND)))
            },
            DeleteQueueEvent::QueueChecked(Err(_)) =>
                (DeleteQueueFlow { phase: DeleteQueuePhase::Finished, name }, DeleteQueueAction::Finish(Err(INTERNAL_SERVER_ERROR))),
            DeleteQueueEvent::Deleted(Ok(())) =>
                (DeleteQueueFlow { phase: DeleteQueuePhase::Finished, name }, DeleteQueueAction::Finish(Ok(()))),
            DeleteQueueEvent::Deleted(Err(_)) =>
                (DeleteQueueFlow { phase: DeleteQueuePhase::Finished, name }, DeleteQueueAction::Finish(Err(INTERNAL_SERVER_ERROR))),
        }
    }
}

} // verus!
