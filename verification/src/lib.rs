//! The hub of a Flutter application: the Rust side keeps a viewmodel of
//! serialized items that Dart reads by address, a per-thread record of
//! whether the outgoing channels are wired up, and a small store of
//! sample numbers whose changes are published to the viewmodel.
pub mod api;
pub mod bridge;
pub mod data_model;
pub mod sample_functions;
