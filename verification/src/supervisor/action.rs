//! What the supervisor asks of the program around it, and what that program reports back.

use crate::pinger::SocketAddress;
use crate::state::DeadReason;
use crate::win::guid::Guid;
use crate::wlan::event::Loop;
use vstd::prelude::*;

verus! {

/// Something for the program around the library to do.
#[derive(Debug, Clone, Copy, PartialEq, Eq, Structural)]
pub enum Action {
    /// Start the loop as a task.
    Spawn(Loop),
    /// Abort the task of the loop.
    Abort(Loop),
    /// Disconnect the adapter; a failure is logged and goes no further.
    Disconnect(Guid),
    /// Scan on the adapter and wait until the scan has ended.
    Scan(Guid),
    /// Read the networks in range of the adapter, and hand the report to `networks_listed`.
    ListNetworks(Guid),
    /// Run a round of choosing a network, and hand its outcome to `network_chosen`
    /// together with `revive`.
    Choose { revive: bool },
    /// Show the user that the host is dead, and why.
    Report(DeadReason),
}

/// What has just happened in the loop that pings.
#[derive(Debug, Clone, PartialEq, Eq)]
pub enum PingerEvent {
    /// The loop has started.
    Started,
    /// The scan asked for has ended.
    Scanned { refresh: bool },
    /// The round of choosing asked for has ended, with a network joined or not.
    Chosen { joined: bool, refresh: bool },
    /// The resolver has answered for each configured host name in order.
    Resolved(Vec<Option<Vec<SocketAddress>>>),
    /// The run of pings has stopped on too many failures.
    Monitored,
}

/// What the loop that pings is to do next.
#[derive(Debug, Clone, Copy, PartialEq, Eq, Structural)]
pub enum PingerRequest {
    /// Scan on the adapter, then report `Scanned` with the same `refresh`.
    Scan { on: Guid, refresh: bool },
    /// Run a round of choosing a network, then report `Chosen` with the same `refresh`.
    Choose { refresh: bool },
    /// Resolve the configured host names, then report `Resolved`.
    Resolve,
    /// Begin a run of pings and keep it going until it stops, then report `Monitored`.
    Monitor,
    /// End the loop.
    Close,
}

/// What has just happened in the loop that waits for a network.
#[derive(Debug, Clone, Copy, PartialEq, Eq, Structural)]
pub enum WaiterEvent {
    /// The loop has started, or its pause is over.
    Tick,
    /// The scan asked for has ended.
    Scanned,
    /// The round of choosing asked for has ended, with a network joined or not.
    Chosen { joined: bool },
}

/// What the loop that waits for a network is to do next.
#[derive(Debug, Clone, Copy, PartialEq, Eq, Structural)]
pub enum WaiterRequest {
    /// Scan on the adapter, then report `Scanned`.
    Scan { on: Guid },
    /// Run a round of choosing a network, then report `Chosen`.
    Choose,
    /// Pause for `after_ms` milliseconds, then report `Tick`.
    Wait { after_ms: u64 },
    /// End the loop.
    Close,
}

} // verus!
