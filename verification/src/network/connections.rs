//! Connections to other Granite instances.
use vstd::prelude::*;

verus! {

/// The port Granite listens on and connects to unless told otherwise.
pub const DEFAULT_PORT: u16 = 7142;

/// An IP address, version 4 or 6, as its octets or its sixteen-bit segments.
#[derive(Clone, Copy, Debug, PartialEq, Eq)]
pub enum IpAddress {
    V4([u8; 4]),
    V6([u16; 8]),
}

/// The unspecified IPv6 address, `::`.
pub open spec fn is_unspecified_v6(a: IpAddress) -> bool {
    match a {
        IpAddress::V6(segments) => forall|i: int| 0 <= i < 8 ==> #[trigger] segments@[i] == 0u16,
        IpAddress::V4(_) => false,
    }
}

/// What role the target of this connection plays in the network topology.
#[derive(Clone, Copy, Debug, PartialEq, Eq, Structural)]
pub enum ConnectionTopology {
    /// A connection to a client, who we are sending simulation info to.
    ClientLeaf,
    /// A connection to a central server, who has authority over the entire
    /// network.
    CentralServer,
    /// A connection to a relay server, who interfaces with foreign data
    /// types.
    RelayServer,
    /// A connection to a resource server, who is delegated simulation work.
    ResourceServer,
}

impl Default for ConnectionTopology {
    fn default() -> (t: Self)
        ensures
            t == ConnectionTopology::ClientLeaf,
    {
        ConnectionTopology::ClientLeaf
    }
}

/// The state a connection is in.
#[derive(Clone, Copy, Debug, PartialEq, Eq, Structural)]
pub enum ConnectionStatus {
    /// Just created, and needs configuring.
    Initialized,
    /// No keep-alive has arrived in a little while.
    LostConnection,
    /// Deliberately closed in some way.
    Disconnected,
    /// In the process of establishing itself.
    Connecting,
    /// Established.
    Connected,
}

impl Default for ConnectionStatus {
    fn default() -> (s: Self)
        ensures
            s == ConnectionStatus::Initialized,
    {
        ConnectionStatus::Initialized
    }
}

/// Whether a connection shares only the material project, or the workbench
/// UI too.
#[derive(Clone, Copy, Debug, PartialEq, Eq, Structural)]
pub enum ConnectionLevel {
    /// Sharing data on the project itself, using one's own workbench UI.
    Material,
    /// Sharing the project and the authority's workbench UI, which one can
    /// then use directly.
    Workbench,
}

impl Default for ConnectionLevel {
    fn default() -> (l: Self)
        ensures
            l == ConnectionLevel::Material,
    {
        ConnectionLevel::Material
    }
}

/// Main component for an entity representing some kind of network
/// connection.
#[derive(Clone, Copy, Debug, PartialEq, Eq)]
pub struct Connection {
    /// IP address of the connection.
    pub address: IpAddress,
    /// Port of the connection.
    pub port: u16,
    /// What role the target of this connection plays in the topology.
    pub topology: ConnectionTopology,
    /// The connection status.
    pub status: ConnectionStatus,
    /// Whether the connection shares the material, or the workbench too.
    pub level: ConnectionLevel,
}

impl Default for Connection {
    /// A fresh connection to a central server on the default port, with no
    /// address yet, sharing the material only.
    fn default() -> (c: Self)
        ensures
            is_unspecified_v6(c.address),
            c.port == DEFAULT_PORT,
            c.topology == ConnectionTopology::CentralServer,
            c.status == ConnectionStatus::Initialized,
            c.level == ConnectionLevel::Material,
    {
        let c = Connection {
            address: IpAddress::V6([0u16; 8]),
            port: DEFAULT_PORT,
            topology: ConnectionTopology::CentralServer,
            status: ConnectionStatus::Initialized,
            level: ConnectionLevel::Material,
        };
        c
    }
}

impl Connection {
    /// A new connection with the given parameters.
    pub fn new(
        address: IpAddress,
        port: u16,
        topology: ConnectionTopology,
        status: ConnectionStatus,
        level: ConnectionLevel,
    ) -> (c: Self)
        ensures
            c == (Connection { address, port, topology, status, level }),
    {
        Connection { address, port, topology, status, level }
    }
}

} // verus!
