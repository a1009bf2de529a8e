//! The cron scheduler service: stored schedules, the bookkeeping between
//! scheduler jobs and stored schedules, and the decisions of its service and
//! HTTP handlers.
pub mod cron_line;
pub mod entities;
pub mod job_index;
pub mod service;
pub mod controller;
pub mod open_api;
