//! The process-runner service: queue and process models, SQL texts, and the
//! decisions of its services and HTTP handlers.
pub mod models;
pub mod sql;
pub mod service;
pub mod queue_model;
pub mod templates;
pub mod open_api;
pub mod controller;
