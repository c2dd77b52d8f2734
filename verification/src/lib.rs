//! Follows the system calls of a process and reports which files it opened, read and wrote.
//!
//! The library holds every decision of the tracer: what a stop of the tracee means, what is
//! asked of the operating system next, which calls are recorded, which file stands behind a
//! descriptor, and how the summary is made up. It performs no input or output itself.

pub mod args;
pub mod arguments;
pub mod descriptors;
pub mod history;
pub mod laws;
pub mod model;
pub mod order;
pub mod protocol;
pub mod run;
pub mod summary;
pub mod syscall_info;
pub mod sysno;
pub mod text;
pub mod tracee;
pub mod tracer;
pub mod transitions;

pub use crate::tracee::run_tracee;
pub use crate::tracer::Tracer;
