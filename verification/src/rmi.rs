//! The realm management interface: opcodes, the command channel, the errors
//! reported to the host, and the parameters of an execution context.

pub mod channel;
pub mod code;
pub mod error;
pub mod rec;
