//! Durable execution: the deterministic core of an orchestration framework.
//!
//! An orchestration schedules activities, timers, events and sub-orchestrations
//! through an [`OrchestrationContext`]. What it schedules becomes a list of
//! actions, and what comes of them is delivered back into the context, where
//! futures find it. So a turn is a function of what was delivered, and replaying
//! the same deliveries takes the same way.
//!
//! - [`context`], [`orchestration`], [`mailbox`], [`numbering`] and [`laws`]: the
//!   context of a turn.
//! - [`future`], [`combinators`], [`retry`] and [`workflow`]: work that is waited for.
//! - [`client`]: the messages and the waits of a control plane.
//! - [`provider_validation`]: what a store must do, as scripts and the machine that
//!   runs them.
//! - [`stress`], [`workload`] and [`suite`]: stress tests.
//! - [`examples`]: example orchestrations.
pub mod action;
pub mod activity;
pub mod assoc;
pub mod cancellation_laws;
pub mod client;
pub mod combinators;
pub mod context;
pub mod either;
pub mod error;
pub mod event;
pub mod examples;
pub mod future;
pub mod ids;
pub mod json;
pub mod laws;
pub mod mailbox;
pub mod numbering;
pub mod orchestration;
pub mod provider;
pub mod provider_validation;
pub mod retry;
pub mod schedule_laws;
pub mod stress;
pub mod suite;
pub mod text;
pub mod time;
pub mod trace;
pub mod workflow;
pub mod workload;

pub use action::Action;
pub use activity::ActivityContext;
pub use client::{Client, ClientError};
pub use either::{Either2, Either3};
pub use error::ErrorDetails;
pub use event::{Event, EventKind};
pub use future::{ContinueAsNewFuture, DurableFuture};
pub use orchestration::OrchestrationContext;
pub use provider::{
    DeleteInstanceResult, InstanceFilter, OrchestrationStatus, ProviderError, PruneOptions,
    PruneResult, WorkItem,
};
pub use retry::{BackoffStrategy, RetryPolicy};
