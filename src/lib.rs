//! A TCP port scanner whose decisions are verified: range validation,
//! target resolution outcome, the per-port probe plan and the report of open
//! ports. The network work itself is performed by the caller.

pub mod probe;
pub mod scanner;
