//! Reproduces a hang of `io_uring_enter` on a pseudo terminal.
//!
//! The library decides what is to be done: how the rings are laid out in
//! memory, which entries are queued and in which order they are published,
//! which processor a thread is pinned to, when the watchdog gives up, and what
//! every line of the report says. It performs no system call of its own.
pub mod abi;
pub mod affinity;
pub mod attempt;
pub mod campaign;
pub mod cli;
pub mod layout;
pub mod machine;
pub mod procfs;
pub mod pty;
pub mod report;
pub mod ring;
pub mod setup;
pub mod text;
pub mod watchdog;
