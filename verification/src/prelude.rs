//! The names that most users of the runtime need.

pub use crate::executor::Executor;
pub use crate::handle::JoinHandle;
pub use crate::runtime::RuntimeBuilder;
pub use crate::task::Task;
