//! The HTTP client of the process-runner: the addresses it calls and how it
//! reads the status of a reply.
use vstd::prelude::*;
use crate::http_status::OK;

verus! {

/// Why a call to the process-runner failed.
pub enum ProcessRunnerClientError<E> {
    /// The request could not be sent, or the reply could not be read.
    SendingError(E),
    /// The runner answered with this status instead of 200.
    ReturnStatusError(u16),
}

pub open spec fn get_process_path() -> Seq<char> {
    "/process/get_process"@
}

pub open spec fn add_process_path() -> Seq<char> {
    "/process/add_process"@
}

pub open spec fn list_queues_path() -> Seq<char> {
    "/queues/list-queues"@
}

/// The address of the route that hands out the next process of a queue.
pub fn get_process_url(base: &str) -> (r: String)
    ensures
        r@ == base@ + get_process_path(),
        r@ == base@ + "/process/get_process"@,
{
    let mut url = String::from_str(base);
    url.append("/process/get_process");
    url
}

/// The address of the route that adds a process to a queue.
pub fn add_process_url(base: &str) -> (r: String)
    ensures
        r@ == base@ + add_process_path(),
        r@ == base@ + "/process/add_process"@,
{
    let mut url = String::from_str(base);
    url.append("/process/add_process");
    url
}

/// The address of the route that lists the queues.
pub fn list_queues_url(base: &str) -> (r: String)
    ensures
        r@ == base@ + list_queues_path(),
        r@ == base@ + "/queues/list-queues"@,
{
    let mut url = String::from_str(base);
    url.append("/queues/list-queues");
    url
}

/// How the client reads the status of a reply: 200 lets it go on to read the
/// body; any other status is the error.
pub fn reply_status<E>(status: u16) -> (r: Result<(), ProcessRunnerClientError<E>>)
    ensures
        status == OK ==> r is Ok,
        status != OK ==> r == Err::<(), ProcessRunnerClientError<E>>(ProcessRunnerClientError::ReturnStatusError(status)),
{
    if status == OK {
        Ok(())
    } else {
        Err(ProcessRunnerClientError::ReturnStatusError(status))
    }
}

} // verus!
