//! The verified core of a realm management monitor: the firmware that sits
//! between an untrusted host and the realms, the confidential virtual
//! machines that it isolates.
//!
//! - [`rmi`]: the opcodes and the command channel that the host drives over
//!   a privileged call, the errors reported to the host, and the parameter
//!   block that seeds a new execution context.
//! - [`realm`]: the virtual CPUs of the realms, their life cycle and their
//!   binding to physical CPUs, the realm descriptor and the registry of
//!   realm identifiers.
//! - [`boot`]: what happens when a physical CPU enters the monitor.
//!
//! Every function states what it returns and changes, and is proved to do
//! so. State that all physical CPUs share is passed in by the caller, who
//! holds the lock on it.

pub mod boot;
pub mod communication;
pub mod granule;
pub mod realm;
pub mod rmi;
