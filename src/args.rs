//! What the relay was asked to do, as read from its command line.

use vstd::prelude::*;

verus! {

/// How much the relay logs.
#[derive(Debug, Clone, Copy, PartialEq, Eq, Structural)]
pub enum LogLevel {
    Trace,
    Debug,
    Info,
    Warn,
    Error,
}

/// The relay's task: relay the serial device to the network endpoint, or
/// list the serial devices present.
#[derive(Debug, Clone)]
pub enum Operation {
    Run { port: String, baud: u32, ws_host: String, ws_port: u16 },
    DeviceList,
}

#[derive(Debug, Clone)]
pub struct ParsedArgs {
    pub operation: Operation,
    pub log_level: LogLevel,
}

} // verus!
