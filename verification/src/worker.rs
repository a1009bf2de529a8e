//! The worker, which polls the process-runner for work.
use vstd::prelude::*;

verus! {

/// The worker's settings.
pub struct Configuration {
    /// Where the process-runner listens.
    pub mass_events_process_runner_base_url: String,
}

pub open spec fn configuration_text(url: Seq<char>) -> Seq<char> {
    "mass_events_process_runner_base_url: "@ + url + "\n"@
}

impl Configuration {
    /// The settings as the worker prints them: one line per setting.
    pub fn describe(&self) -> (r: String)
        ensures
            r@ == configuration_text(self.mass_events_process_runner_base_url@),
            r@ == "mass_events_process_runner_base_url: "@ + self.mass_events_process_runner_base_url@ + "\n"@,
    {
        let mut text = String::from_str("mass_events_process_runner_base_url: ");
        text.append(self.mass_events_process_runner_base_url.as_str());
        text.append("\n");
        text
    }
}

/// How long the worker waits after the runner had nothing for it, in seconds.
pub const IDLE_WAIT_SECS: u64 = 7;

/// What the worker does after a reply of the runner.
pub enum WorkerAction {
    /// The reply holds a command: report it, then poll again.
    Report,
    /// The runner had nothing: wait this many seconds, then poll again.
    Wait(u64),
    /// The reply is not a JSON object: poll again at once.
    PollAgain,
}

/// The worker's decision on a reply: a JSON object with a `command` key is
/// reported; any other object means there is no work, so the worker waits; a
/// reply that is not an object is ignored.
pub fn next_worker_action(is_object: bool, has_command: bool) -> (r: WorkerAction)
    ensures
        is_object && has_command ==> r is Report,
        is_object && !has_command ==> r == WorkerAction::Wait(IDLE_WAIT_SECS),
        !is_object ==> r is PollAgain,
{
    if is_object {
        if has_command {
            WorkerAction::Report
        } else {
            WorkerAction::Wait(IDLE_WAIT_SECS)
        }
    } else {
        WorkerAction::PollAgain
    }
}

} // verus!
