//! A bridge between a local MIDI event source and Bluetooth Low Energy.
//!
//! - `codec`: framing of raw events into BLE-MIDI packets and back.
//! - `queue`: the bounded hand-off from the event source to the bridge.
//! - `gatt`: the service, characteristic and descriptor model, and the
//!   well-known BLE-MIDI identifiers.
//! - `naming`: how an advertised peripheral name is matched.
//! - `central`: the decisions of the central role, one event at a time.
//! - `peripheral`: the decisions of the peripheral role, including the
//!   answer to every inbound read and write request.

pub mod central;
pub mod codec;
pub mod error;
pub mod gatt;
pub mod naming;
pub mod peripheral;
pub mod queue;
