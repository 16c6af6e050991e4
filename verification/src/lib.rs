//! Core of a terminal tool for reading diffs: the request/result protocol of the diff
//! worker, the single-pass extraction of hunks and file statistics, the
//! highlighting transform that produces render-ready lines, and the decision
//! functions behind the worker loop and the event scheduler.
//!
//! Everything here works on plain owned values. Reading a repository, drawing
//! to a terminal and waiting on channels or timers are left to the caller.
//!
//! - [`git`] holds the diff pipeline: from a request to a plan of what to
//!   compare, from the events of a diff traversal to hunks and file
//!   summaries, and from hunks to drawn lines with their offsets.
//! - [`event`] and [`scheduler`] hold what goes over the event bus and what
//!   the main loop does on each wake-up.
//! - [`app`] and [`ui`] hold the state of the interface and what keys and
//!   mouse events do to it.
//! - [`records`] holds the records that are stored of a session.

pub mod app;
pub mod event;
pub mod git;
pub mod records;
pub mod scheduler;
pub mod ui;
