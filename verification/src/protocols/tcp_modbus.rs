//! TCP MODBUS binding of the protocol contract.
//!
//! TCP MODBUS has a header known as the MODBUS Application Protocol header
//! (MBAP). It includes a length field that can be used to easily separate
//! Application Data Units (ADUs) from each other. However, the length field
//! includes everything after itself, including the function code (not part
//! of the MBAP) and the unit identifier field (which is part of the MBAP).
//! This means that the MBAP length (7 bytes) and the excluded length
//! (6 bytes) are different values.
//!
//! Immediately after the MBAP, the protocol data unit (PDU) begins, starting
//! with the function code.
//!
//! An ADU is laid out as: a 2-byte transaction id, a 2-byte protocol id, a
//! 2-byte length field, a 1-byte unit id (all big-endian, together the MBAP)
//! and then the PDU. The length field counts the unit id and the PDU, so the
//! total ADU length is the field's value plus the 6 bytes that precede the
//! field's coverage.
//!
//! This has some implications for implementing `ModbusProtocol` for TCP:
//! - `Header` includes all of the items in the MBAP, including the unit id,
//!   but not the function code.
//! - `adu_length` returns the length field + 6, because the length field
//!   already includes the unit id.
//! - `pdu_body` returns PDU data starting at offset 7. If you want the unit
//!   id, you need to get it with `adu_header`.

use vstd::prelude::*;
use vstd::slice::slice_subrange;

use crate::protocols::ModbusProtocol;
use crate::ModbusError;

verus! {

// Length of the MODBUS Application Protocol header
// 2-byte transaction ID, 2-byte protocol ID, 2-byte length, 1-byte unit ID
pub const MBAP_LENGTH: usize = 7;

// Number of ADU bytes excluded from the length field
// This is slightly different from the MBAP length because the 1-byte unit ID
// is included in the MBAP but falls after the length field, and thus is
// excluded from the length field
pub const EXCLUDED_LENGTH: usize = 6;

/// The maximum allowable length of a TCP MODBUS ADU
pub const TCP_ADU_MAX_LENGTH: usize = 260;

/// TCP MODBUS protocol marker; see the module documentation for the wire
/// layout
pub struct TcpModbus;

/// TCP MODBUS header data
#[derive(Debug, Clone, PartialEq, Eq, Structural)]
pub struct TcpModbusHeader {
    pub transaction_id: u16,
    pub protocol_id: u16,
    pub length: u16,
    pub unit_id: u8,
}

/// The value of a big-endian 16-bit field with bytes `hi` and `lo`
pub open spec fn spec_be_u16(hi: u8, lo: u8) -> int {
    hi * 256 + lo
}

/// The stream transport's length rule: a window whose big-endian declared
/// length field holds `l` determines the total ADU length `l + 6` whenever
/// `l + 6` is within the 260-byte maximum, and fails with `BadLength`
/// whenever it is not.
pub proof fn lemma_stream_length_rule(data: Seq<u8>, l: int)
    requires
        data.len() >= 6,
        l == spec_be_u16(data[4], data[5]),
    ensures
        l + 6 <= 260 ==> TcpModbus::spec_adu_length(data) == Ok::<int, ModbusError>(l + 6),
        l + 6 > 260 ==> TcpModbus::spec_adu_length(data) == Err::<int, ModbusError>(
            ModbusError::BadLength,
        ),
{
}

fn be_u16(hi: u8, lo: u8) -> (r: u16)
    ensures
        r == spec_be_u16(hi, lo),
{
    (hi as u16) * 256 + (lo as u16)
}

impl TcpModbus {
    fn transaction_id(data: &[u8]) -> (r: Option<u16>)
        ensures
            data@.len() >= 2 ==> r == Some((spec_be_u16(data@[0], data@[1]) as u16)),
            data@.len() < 2 ==> r is None,
    {
        if data.len() >= 2 {
            Some(be_u16(data[0], data[1]))
        } else {
            None
        }
    }

    fn protocol_id(data: &[u8]) -> (r: Option<u16>)
        ensures
            data@.len() >= 4 ==> r == Some((spec_be_u16(data@[2], data@[3]) as u16)),
            data@.len() < 4 ==> r is None,
    {
        if data.len() >= 4 {
            Some(be_u16(data[2], data[3]))
        } else {
            None
        }
    }

    fn length(data: &[u8]) -> (r: Option<u16>)
        ensures
            data@.len() >= 6 ==> r == Some((spec_be_u16(data@[4], data@[5]) as u16)),
            data@.len() < 6 ==> r is None,
    {
        if data.len() >= 6 {
            Some(be_u16(data[4], data[5]))
        } else {
            None
        }
    }

    fn unit_id(data: &[u8]) -> (r: Option<u8>)
        ensures
            data@.len() >= 7 ==> r == Some(data@[6]),
            data@.len() < 7 ==> r is None,
    {
        if data.len() >= 7 {
            Some(data[6])
        } else {
            None
        }
    }
}

impl ModbusProtocol for TcpModbus {
    type Header = TcpModbusHeader;

    open spec fn spec_max_length() -> int {
        TCP_ADU_MAX_LENGTH as int
    }

    open spec fn spec_adu_length(data: Seq<u8>) -> Result<int, ModbusError> {
        if data.len() < 6 {
            Err(ModbusError::NotEnoughData)
        } else {
            // The ADU length is the value of the length field + the number
            // of bytes excluded from that field
            let adu_length = spec_be_u16(data[4], data[5]) + EXCLUDED_LENGTH;
            if adu_length <= TCP_ADU_MAX_LENGTH {
                Ok(adu_length)
            } else {
                Err(ModbusError::BadLength)
            }
        }
    }

    open spec fn spec_header(data: Seq<u8>) -> Result<TcpModbusHeader, ModbusError> {
        if data.len() < MBAP_LENGTH {
            Err(ModbusError::NotEnoughData)
        } else {
            Ok(TcpModbusHeader {
                transaction_id: spec_be_u16(data[0], data[1]) as u16,
                protocol_id: spec_be_u16(data[2], data[3]) as u16,
                length: spec_be_u16(data[4], data[5]) as u16,
                unit_id: data[6],
            })
        }
    }

    open spec fn spec_check(data: Seq<u8>) -> Result<(), ModbusError> {
        match Self::spec_adu_length(data) {
            Ok(l) => if data.len() >= l {
                Ok(())
            } else {
                Err(ModbusError::NotEnoughData)
            },
            Err(e) => Err(e),
        }
    }

    open spec fn spec_pdu(data: Seq<u8>) -> Result<Seq<u8>, ModbusError> {
        match Self::spec_check(data) {
            Ok(u) => if data.len() >= MBAP_LENGTH {
                Ok(data.skip(MBAP_LENGTH as int))
            } else {
                Err(ModbusError::NotEnoughData)
            },
            Err(e) => Err(e),
        }
    }

    proof fn lemma_length_prefix_stable(pre: Seq<u8>, all: Seq<u8>) {
        assert(pre =~= all.subrange(0, pre.len() as int));
        assert(pre[4] == all[4]);
        assert(pre[5] == all[5]);
    }

    proof fn lemma_length_needs_data(pre: Seq<u8>, all: Seq<u8>) {
    }

    proof fn lemma_length_restrict(data: Seq<u8>, len: int) {
        assert(data.take(len)[4] == data[4]);
        assert(data.take(len)[5] == data[5]);
    }

    fn adu_max_length() -> (r: usize) {
        TCP_ADU_MAX_LENGTH
    }

    fn adu_length(data: &[u8]) -> (r: Result<usize, ModbusError>) {
        let length_field = match Self::length(data) {
            Some(v) => v,
            None => {
                return Err(ModbusError::NotEnoughData);
            },
        };

        // The ADU length is the value of the length field + the number of
        // bytes excluded from that field
        let adu_length = length_field as usize + EXCLUDED_LENGTH;

        // Check if the length is not too long
        if adu_length <= TCP_ADU_MAX_LENGTH {
            Ok(adu_length)
        } else {
            Err(ModbusError::BadLength)
        }
    }

    fn adu_header(data: &[u8]) -> (r: Result<TcpModbusHeader, ModbusError>) {
        let transaction_id = match Self::transaction_id(data) {
            Some(v) => v,
            None => {
                return Err(ModbusError::NotEnoughData);
            },
        };
        let protocol_id = match Self::protocol_id(data) {
            Some(v) => v,
            None => {
                return Err(ModbusError::NotEnoughData);
            },
        };
        let length = match Self::length(data) {
            Some(v) => v,
            None => {
                return Err(ModbusError::NotEnoughData);
            },
        };
        let unit_id = match Self::unit_id(data) {
            Some(v) => v,
            None => {
                return Err(ModbusError::NotEnoughData);
            },
        };

        Ok(TcpModbusHeader { transaction_id, protocol_id, length, unit_id })
    }

    /// TCP MODBUS doesn't have application-layer checksums, so this just
    /// confirms that there's at least enough data to make up a whole ADU
    fn adu_check(data: &[u8]) -> (r: Result<(), ModbusError>) {
        let length = match Self::adu_length(data) {
            Ok(l) => l,
            Err(e) => {
                return Err(e);
            },
        };

        if data.len() >= length {
            Ok(())
        } else {
            Err(ModbusError::NotEnoughData)
        }
    }

    fn pdu_body(data: &[u8]) -> (r: Result<&[u8], ModbusError>) {
        match Self::adu_check(data) {
            Ok(u) => {},
            Err(e) => {
                return Err(e);
            },
        };

        if data.len() >= MBAP_LENGTH {
            Ok(slice_subrange(data, MBAP_LENGTH, data.len()))
        } else {
            Err(ModbusError::NotEnoughData)
        }
    }
}

} // verus!
