//! A Modbus TCP sensor node on a W5500-class Ethernet controller: wire framing
//! of controller transactions, the socket lifecycle, and the Modbus protocol
//! engine with its register map.
use vstd::prelude::*;

pub mod bytes;
pub mod modbus;
pub mod wire;
pub mod socket;
pub mod sequencer;
pub mod stream;
pub mod session;

pub use modbus::{
    MbapHeader, SensorData, build_exception_response, build_response, handle_read_registers,
    handle_request, parse_modbus_request, read_registers, u32_to_registers,
};
