//! A small cooperative async runtime with verified scheduling tables.
//!
//! The [`executor::Executor`] keeps the task table and the waker cache, the
//! [`reactor::Reactor`] keeps the table of descriptors that tasks wait on, and the
//! contracts of both say exactly how every operation changes those tables.

pub mod entry;

pub mod prelude;

pub mod task;

pub mod waker;

pub mod handle;

pub mod executor;

pub mod interest;

pub mod reactor;

pub mod runtime;

pub mod io;
