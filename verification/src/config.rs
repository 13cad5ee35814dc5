//! The process configuration the core acts on: the sampling interval, the
//! history capacity, and which consumer tasks run. Bind addresses and
//! argument parsing stay at the process edge; the core performs no
//! validation beyond accepting these values as given.

use vstd::prelude::*;

verus! {

/// Which local consumer tasks run.
#[derive(Clone, Copy, PartialEq, Eq, Structural, Debug)]
pub enum Mode {
    Console,
    Web,
    Both,
}

/// The process's role on the RPC surface.
#[derive(Clone, Copy, PartialEq, Eq, Structural, Debug)]
pub enum RpcMode {
    Disabled,
    Server,
    Client,
}

/// The configuration values the core reads.
#[derive(Clone, Copy)]
pub struct Config {
    /// Polling interval in milliseconds.
    pub interval_ms: u64,
    /// Output mode (console/web/both).
    pub mode: Mode,
    /// RPC role (disabled/server/client).
    pub rpc: RpcMode,
    /// History depth: the number of snapshots kept in memory.
    pub history: usize,
}

impl Config {
    /// Whether the web gateway task runs.
    pub fn web_enabled(&self) -> (r: bool)
        ensures
            r == (self.mode is Web || self.mode is Both),
    {
        matches!(self.mode, Mode::Web | Mode::Both)
    }

    /// Whether the console renderer task runs.
    pub fn console_enabled(&self) -> (r: bool)
        ensures
            r == (self.mode is Console || self.mode is Both),
    {
        matches!(self.mode, Mode::Console | Mode::Both)
    }
}

} // verus!
