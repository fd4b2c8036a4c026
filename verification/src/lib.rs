//! Supervised job runner: builds the argument vector for an external
//! processing pipeline, decodes its line-oriented progress output, models the
//! job lifecycle as a verified state machine, and supports cooperative
//! cancellation of an in-flight job.

pub mod args;
pub mod cancel;
pub mod progress;
pub mod resolve;
pub mod settings;
pub mod supervisor;
