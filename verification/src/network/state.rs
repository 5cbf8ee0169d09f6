//! The local network state machine.
use vstd::prelude::*;

verus! {

/// Main network state machine for the local Granite instance.
#[derive(Clone, Copy, Debug, PartialEq, Eq, Structural)]
pub enum LocalNetworkState {
    /// No network connectivity, no servers, no nothing.
    Offline,
    /// In a hostserver or listenserver setup, with the user as a local
    /// client.
    HostServer,
    /// Standalone dedicated server, running as a headless app.
    Server,
    /// Connecting to a remote server as a client.
    Client,
}

impl Default for LocalNetworkState {
    /// An instance starts offline.
    fn default() -> (s: Self)
        ensures
            s == LocalNetworkState::Offline,
    {
        LocalNetworkState::Offline
    }
}

} // verus!
