//! The decisions of the WiFi upkeep loop: which radio operation follows which
//! outcome. The operations themselves are done by the caller.

use vstd::prelude::*;

verus! {

/// Pause before the next connection attempt, in milliseconds.
pub const RETRY_MS: u64 = 2000;

/// What just happened on the radio side.
#[derive(Debug, Clone, Copy, PartialEq, Eq, Structural)]
pub enum WifiEvent {
    /// The upkeep task started.
    Started,
    /// A scan for access points finished.
    Scanned,
    /// Connecting to the station succeeded.
    Connected,
    /// Connecting to the station failed.
    ConnectFailed,
    /// The network stack got its IP configuration.
    ConfigUp,
    /// The connection was lost.
    Disconnected,
    /// The pause before retrying is over.
    Waited,
}

/// What the radio side should do next.
#[derive(Debug, Clone, Copy, PartialEq, Eq, Structural)]
pub enum WifiAction {
    /// Scan for access points.
    Scan,
    /// Connect to the configured station.
    Connect,
    /// Wait until the network stack is configured.
    WaitForConfig,
    /// Wait until the connection is lost.
    WaitForDisconnect,
    /// Pause for this many milliseconds.
    Pause(u64),
}

/// The upkeep cycle: scan, connect, wait for the IP configuration, stay until
/// disconnected, pause, and start over; a failed connection also pauses and
/// starts over.
pub open spec fn next_wifi_action(event: WifiEvent) -> WifiAction {
    match event {
        WifiEvent::Started => WifiAction::Scan,
        WifiEvent::Scanned => WifiAction::Connect,
        WifiEvent::Connected => WifiAction::WaitForConfig,
        WifiEvent::ConfigUp => WifiAction::WaitForDisconnect,
        WifiEvent::Disconnected => WifiAction::Pause(RETRY_MS),
        WifiEvent::ConnectFailed => WifiAction::Pause(RETRY_MS),
        WifiEvent::Waited => WifiAction::Scan,
    }
}

/// The action that follows `event`.
pub fn wifi_step(event: WifiEvent) -> (a: WifiAction)
    ensures
        a == next_wifi_action(event),
{
    match event {
        WifiEvent::Started => WifiAction::Scan,
        WifiEvent::Scanned => WifiAction::Connect,
        WifiEvent::Connected => WifiAction::WaitForConfig,
        WifiEvent::ConfigUp => WifiAction::WaitForDisconnect,
        WifiEvent::Disconnected => WifiAction::Pause(RETRY_MS),
        WifiEvent::ConnectFailed => WifiAction::Pause(RETRY_MS),
        WifiEvent::Waited => WifiAction::Scan,
    }
}

/// The task never gives up: a lost or failed connection is followed by a pause of
/// `RETRY_MS`, and the end of that pause by a new scan.
pub proof fn lemma_wifi_retries()
    ensures
        next_wifi_action(WifiEvent::Disconnected) == WifiAction::Pause(RETRY_MS),
        next_wifi_action(WifiEvent::ConnectFailed) == WifiAction::Pause(RETRY_MS),
        next_wifi_action(WifiEvent::Waited) == WifiAction::Scan,
{
}

} // verus!
