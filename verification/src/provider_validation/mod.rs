//! Validation of stores: scripts of requests and tests, and what runs them.
pub mod atomicity;
pub mod bulk_deletion;
pub mod cancellation;
pub mod custom_status;
pub mod deletion;
pub mod error_handling;
pub mod instance_creation;
pub mod instance_locking;
pub mod lock_expiration;
pub mod long_polling;
pub mod management;
pub mod multi_execution;
pub mod poison_message;
pub mod prune;
pub mod reply;
pub mod runner;
pub mod script;
pub mod steps;
