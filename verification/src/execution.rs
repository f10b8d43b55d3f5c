//! The chain of hint handlers that stands between the virtual machine and
//! the harness while a contract runs.

pub mod cheatable_syscall_handler;
pub mod contract_execution_syscall_handler;
pub mod resources;
pub mod syscalls;
