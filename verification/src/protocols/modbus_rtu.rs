//! Types for the serial (RTU) transport binding of the protocol.
//!
//! The RTU framing algorithm — its inter-character-timing length rule and
//! its CRC — is transport-specific and deliberately not implemented here: an
//! integrator targeting the serial transport supplies a `ModbusProtocol`
//! implementation with these types. Only the header shape and the maximum
//! ADU length are fixed.

use vstd::prelude::*;

verus! {

/// The maximum allowable length of a serial-transport ADU
pub const MODBUS_RTU_ADU_MAX_LENGTH: usize = 256;

/// MODBUS RTU transport marker
pub struct ModbusRtu;

/// MODBUS RTU header data: the station address, and the frame's trailing
/// check value
#[derive(Debug, Clone, PartialEq, Eq, Structural)]
pub struct ModbusRtuHeader {
    pub address: u8,
    pub crc: u16,
}

} // verus!
