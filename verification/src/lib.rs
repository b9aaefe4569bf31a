//! Lifecycle orchestration for lightweight virtual machines ("bubbles").
//!
//! A bubble is a named directory holding a disk, a kernel and an initrd. To run
//! one, three processes are started in a fixed sequence (a socket forwarder, a
//! user-mode network backend and the hypervisor) and later torn down in a fixed
//! order. This crate holds the decisions of that sequence, the derived paths and
//! command lines, and the control protocol spoken with the guest. Running the
//! processes is left to the caller.

pub mod text;
pub mod paths;
pub mod protocol;
pub mod poller;
pub mod orchestrator;
pub mod commands;
pub mod traces;
pub mod widgets;
pub mod vms;
pub mod images;
pub mod nixstores;
pub mod application;
