//! Task lifecycle and recurring-task scheduling.
//!
//! Tasks, projects and recurring-task definitions live in in-memory stores
//! keyed by identifier ([`store`]). The managers state, over the contents
//! of those stores, how a task is created, edited and deleted, how
//! completing it toggles its state and cascades to its open subtasks, how a
//! recurring task spawns its next occurrence, and how a task is promoted
//! into a project ([`task_manager`], [`recurring_task_manager`],
//! [`project`]). The date arithmetic behind recurrence lives in
//! [`calendar`].

pub mod calendar;
pub mod configuration;
pub mod error;
pub mod ids;
pub mod project;
pub mod recurring_task;
pub mod recurring_task_manager;
pub mod statistics;
pub mod store;
pub mod task;
pub mod task_manager;
pub mod task_repository;
