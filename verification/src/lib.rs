//! Core types for decoding a MODBUS byte stream.
//!
//! The crate splits into three parts:
//! - `bit_pack`: packing and unpacking coil (boolean) values into a compact
//!   LSB-first bitfield;
//! - `protocols`: the per-transport framing contract (`ModbusProtocol`) and
//!   its TCP MODBUS instance;
//! - `recv_buffer`: the stateful framer that reassembles arbitrarily
//!   fragmented input into whole application data units.

use vstd::prelude::*;

pub mod bit_pack;
pub mod protocols;
pub mod recv_buffer;

verus! {

/// The state of a single boolean control point.
#[derive(Clone, Copy, Debug, PartialEq, Eq, Structural)]
pub enum Coil {
    On,
    Off,
}

/// Whether a message travels from master to slave or back.
#[derive(Clone, Copy, Debug, PartialEq, Eq, Structural)]
pub enum Direction {
    Query,
    Response,
}

/// The ways decoding a MODBUS byte stream can fail.
#[derive(Clone, Copy, Debug, PartialEq, Eq, Structural)]
pub enum ModbusError {
    /// Unrecognized function code
    BadFuncCode,

    /// Error checking failed
    ///
    /// This could be a CRC check (for example, for MODBUS RTU), or just a
    /// correct-length check
    BadErrorCheck,

    /// Length is either too long or too short
    ///
    /// MODBUS sets the maximum PDU length at 253 characters.
    BadLength,

    /// There isn't enough data
    NotEnoughData,
}

} // verus!
