//! A relay between a local publish/subscribe bus and a byte-oriented
//! transport.
//!
//! Messages that one process publishes on its bus cross the transport inside
//! envelopes and come out on the bus of the peer. This crate holds the parts
//! of the relay that decide: the tag of a message type, the envelope codec,
//! the dispatch table and the state machine of the device. The bus and the
//! transport themselves are left to the program that runs the device.
pub mod device;
pub mod envelope;
pub mod msgs;
pub mod trusted;

pub use device::{
    Action, DeviceState, DropReason, Event, RelayDevice, RelayDeviceBuilder, TransportFailure,
};
pub use msgs::{into_relay_data, tag, RelayData, TaggedData};
