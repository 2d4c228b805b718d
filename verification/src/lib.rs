//! Verified core of a personal cloud-connectivity tool: a VM registry with
//! address selection, a parser for the tunnel tool's status text, exact
//! command construction for every external tool, and the mount/unmount and
//! connect/disconnect coordination logic, each stated as a contract and
//! proved. Process invocation itself stays outside the library: every
//! external step is handed out as data and its outcome handed back.

pub mod cli;
pub mod cmd;
pub mod config;
pub mod connect;
pub mod mount;
pub mod paths;
pub mod setup;
pub mod ssh;
pub mod text;
pub mod vms;
pub mod vpn;
