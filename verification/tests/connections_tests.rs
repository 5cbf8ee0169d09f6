use bevy_granite::network::connections::{
    Connection, ConnectionLevel, ConnectionStatus, ConnectionTopology, IpAddress, DEFAULT_PORT,
};
use bevy_granite::network::state::LocalNetworkState;

#[test]
fn default_connection() {
    let c = Connection::default();
    assert_eq!(c.address, IpAddress::V6([0; 8]));
    assert_eq!(c.port, 7142);
    assert_eq!(DEFAULT_PORT, 7142);
    assert_eq!(c.topology, ConnectionTopology::CentralServer);
    assert_eq!(c.status, ConnectionStatus::Initialized);
    assert_eq!(c.level, ConnectionLevel::Material);
}

#[test]
fn new_connection_keeps_parameters() {
    let c = Connection::new(
        IpAddress::V4([10, 0, 0, 7]),
        9000,
        ConnectionTopology::RelayServer,
        ConnectionStatus::Connecting,
        ConnectionLevel::Workbench,
    );
    assert_eq!(c.address, IpAddress::V4([10, 0, 0, 7]));
    assert_eq!(c.port, 9000);
    assert_eq!(c.topology, ConnectionTopology::RelayServer);
    assert_eq!(c.status, ConnectionStatus::Connecting);
    assert_eq!(c.level, ConnectionLevel::Workbench);
}

#[test]
fn enum_defaults() {
    assert_eq!(ConnectionTopology::default(), ConnectionTopology::ClientLeaf);
    assert_eq!(ConnectionStatus::default(), ConnectionStatus::Initialized);
    assert_eq!(ConnectionLevel::default(), ConnectionLevel::Material);
    assert_eq!(LocalNetworkState::default(), LocalNetworkState::Offline);
}
