//! Verified core of the Granite CAD workbench: the decisions that the
//! workbench's systems and observers make, stated over plain values.
//!
//! The ECS wiring that runs these decisions lives outside this crate; every
//! function here is a pure step from the current state of a locus, a
//! connection or the local network mode to what should happen next.
pub mod network;
pub mod workbench;
