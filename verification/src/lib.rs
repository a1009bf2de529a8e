//! A verified core for the mass-events services: a process-runner that keeps
//! named FIFO queues of JSON processes, its HTTP client, a cron scheduler and a
//! worker.  The network, database and runtime plumbing lives outside this crate;
//! everything that decides lives here.
pub mod client;
pub mod http_status;
pub mod runner;
pub mod scheduler;
pub mod server;
pub mod statements;
pub mod transaction;
pub mod worker;
