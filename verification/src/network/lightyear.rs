//! The transport configuration for each local network state.
//!
//! Configurations are described here as plain values; the caller turns them
//! into the transport layer's own configuration types.
use vstd::prelude::*;

use crate::network::avatar::{Avatar, ClientId};
use crate::network::state::LocalNetworkState;

verus! {

/// Simple test port.
pub const TEST_PORT: u16 = 7142;

/// The id of the client that runs in the same app as its host server; the
/// local user's avatar is known by it too.
pub const LOCAL_CLIENT_ID: u64 = 0;

/// How server and client share an app.
#[derive(Clone, Copy, Debug, PartialEq, Eq, Structural)]
pub enum Mode {
    /// Server and client run as separate apps.
    Separate,
    /// The server runs in the same app as a local client.
    HostServer,
}

/// An IPv4 socket address.
#[derive(Clone, Copy, Debug, PartialEq, Eq)]
pub struct SocketAddrV4 {
    pub ip: [u8; 4],
    pub port: u16,
}

/// Server configuration: one netcode listener on a UDP socket.
#[derive(Clone, Copy, Debug, PartialEq, Eq)]
pub struct ServerConfig {
    pub mode: Mode,
    pub protocol_id: u64,
    pub private_key: [u8; 32],
    /// The UDP socket the server listens on.
    pub bind: SocketAddrV4,
}

/// How a client reaches its server.
#[derive(Clone, Copy, Debug, PartialEq, Eq)]
pub enum ClientNet {
    /// The server runs in the same app.
    Local { id: u64 },
    /// Through netcode over UDP, authenticated with a shared key.
    Netcode {
        server_addr: SocketAddrV4,
        client_id: u64,
        private_key: [u8; 32],
        protocol_id: u64,
        /// The UDP socket the client sends from.
        bind: SocketAddrV4,
    },
}

/// Client configuration.
#[derive(Clone, Copy, Debug, PartialEq, Eq)]
pub struct ClientConfig {
    pub mode: Mode,
    pub net: ClientNet,
}

/// A key made of zero bytes only.
pub open spec fn is_zero_key(key: [u8; 32]) -> bool {
    forall|i: int| 0 <= i < 32 ==> #[trigger] key@[i] == 0u8
}

/// `c` is the host server configuration listening on `addr:port`.
pub open spec fn is_hostserver_config(c: ServerConfig, addr: [u8; 4], port: u16) -> bool {
    &&& c.mode == Mode::HostServer
    &&& c.protocol_id == 0
    &&& is_zero_key(c.private_key)
    &&& c.bind == (SocketAddrV4 { ip: addr, port })
}

/// `c` is the configuration of the client running beside its host server.
pub open spec fn is_local_client_config(c: ClientConfig, id: u64) -> bool {
    c == (ClientConfig { mode: Mode::HostServer, net: ClientNet::Local { id } })
}

/// `c` is the configuration of a netcode client of `server_addr:server_port`
/// sending from `client_addr:client_port`.
pub open spec fn is_netcode_client_config(
    c: ClientConfig,
    server_addr: [u8; 4],
    server_port: u16,
    client_id: u64,
    client_addr: [u8; 4],
    client_port: u16,
) -> bool {
    &&& c.mode == Mode::HostServer
    &&& c.net matches ClientNet::Netcode { server_addr: s, client_id: id, private_key: k, protocol_id: p, bind: b }
    &&& s == (SocketAddrV4 { ip: server_addr, port: server_port })
    &&& id == client_id
    &&& is_zero_key(k)
    &&& p == 0
    &&& b == (SocketAddrV4 { ip: client_addr, port: client_port })
}

/// The configuration of a basic host server listening on `addr:port`.
pub fn get_hostserver_config(addr: [u8; 4], port: u16) -> (c: ServerConfig)
    ensures
        is_hostserver_config(c, addr, port),
{
    ServerConfig {
        mode: Mode::HostServer,
        protocol_id: 0,
        private_key: [0u8; 32],
        bind: SocketAddrV4 { ip: addr, port },
    }
}

/// The configuration of the local client of a basic host server.
pub fn get_local_client_config(id: u64) -> (c: ClientConfig)
    ensures
        is_local_client_config(c, id),
{
    ClientConfig { mode: Mode::HostServer, net: ClientNet::Local { id } }
}

/// The configuration of a client that reaches its server through netcode.
pub fn get_netcode_client_config(
    server_addr: [u8; 4],
    server_port: u16,
    client_id: u64,
    client_addr: [u8; 4],
    client_port: u16,
) -> (c: ClientConfig)
    ensures
        is_netcode_client_config(c, server_addr, server_port, client_id, client_addr, client_port),
{
    ClientConfig {
        mode: Mode::HostServer,
        net: ClientNet::Netcode {
            server_addr: SocketAddrV4 { ip: server_addr, port: server_port },
            client_id,
            private_key: [0u8; 32],
            protocol_id: 0,
            bind: SocketAddrV4 { ip: client_addr, port: client_port },
        },
    }
}

/// The addresses, ports and id a network state is set up with.
#[derive(Clone, Copy, Debug, PartialEq, Eq)]
pub struct NetworkEndpoints {
    pub server_addr: [u8; 4],
    pub server_port: u16,
    pub client_id: u64,
    pub client_addr: [u8; 4],
    pub client_port: u16,
}

/// The configurations a change of local network state installs; `None`
/// leaves the current one in place.
#[derive(Clone, Copy, Debug, PartialEq, Eq)]
pub struct ConfigChanges {
    pub server: Option<ServerConfig>,
    pub client: Option<ClientConfig>,
}

/// The server and client configurations to install when the local network
/// state changes.
///
/// Offline changes nothing. A host server gets the host server configuration
/// and the local client configuration; a dedicated server the host server
/// configuration only; a client the netcode client configuration only. What
/// a state does not use is left as it was.
pub fn set_up_lightyear_configs(state: LocalNetworkState, endpoints: NetworkEndpoints) -> (changes: ConfigChanges)
    ensures
        state == LocalNetworkState::Offline ==> changes.server.is_none() && changes.client.is_none(),
        state == LocalNetworkState::HostServer ==> (changes.server matches Some(s)
            && is_hostserver_config(s, endpoints.server_addr, endpoints.server_port))
            && (changes.client matches Some(c) && is_local_client_config(c, LOCAL_CLIENT_ID)),
        state == LocalNetworkState::Server ==> (changes.server matches Some(s)
            && is_hostserver_config(s, endpoints.server_addr, endpoints.server_port))
            && changes.client.is_none(),
        state == LocalNetworkState::Client ==> changes.server.is_none() && (changes.client matches Some(
            c,
        ) && is_netcode_client_config(
            c,
            endpoints.server_addr,
            endpoints.server_port,
            endpoints.client_id,
            endpoints.client_addr,
            endpoints.client_port,
        )),
{
    match state {
        LocalNetworkState::Offline => ConfigChanges { server: None, client: None },
        LocalNetworkState::HostServer => ConfigChanges {
            server: Some(get_hostserver_config(endpoints.server_addr, endpoints.server_port)),
            client: Some(get_local_client_config(LOCAL_CLIENT_ID)),
        },
        LocalNetworkState::Server => ConfigChanges {
            server: Some(get_hostserver_config(endpoints.server_addr, endpoints.server_port)),
            client: None,
        },
        LocalNetworkState::Client => ConfigChanges {
            server: None,
            client: Some(
                get_netcode_client_config(
                    endpoints.server_addr,
                    endpoints.server_port,
                    endpoints.client_id,
                    endpoints.client_addr,
                    endpoints.client_port,
                ),
            ),
        },
    }
}

/// The local user's avatar and the local client of a host server are the
/// same peer: the avatar spawned with the local client id is known by the id
/// of the client that a host server state configures.
pub proof fn lemma_local_avatar_is_local_client(avatar: Avatar, client: ClientConfig)
    requires
        avatar == (Avatar { lightyear_id: ClientId::Local(LOCAL_CLIENT_ID) }),
        is_local_client_config(client, LOCAL_CLIENT_ID),
    ensures
        client.net matches ClientNet::Local { id } && avatar.lightyear_id == ClientId::Local(id),
{
}

} // verus!
