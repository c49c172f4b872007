//! A relay between chat clients and one serial-attached device.
//!
//! The library holds the verified core: the message record, the broadcast hub
//! with its bounded history and per-subscription cursors, the decoding of
//! device output into messages, the serial bridge, and the decisions of the
//! publish and subscribe paths.
pub mod message;
pub mod hub;
pub mod text;
pub mod serial;
pub mod relay;
pub mod stream;
