//! Networking: locus visibility, avatars, connections, the local network
//! state machine and the configuration handed to the transport layer.
pub mod avatar;
pub mod connections;
pub mod lightyear;
pub mod state;
pub mod visibility;
