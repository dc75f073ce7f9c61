//! The per-transport framing contract and its concrete variants.
//!
//! `ModbusProtocol` captures what the stream framer needs from a transport:
//! a maximum message length, a header type, and pure operations that compute
//! a message's length, parse its header, validate it and slice out its
//! payload. `tcp_modbus` binds the contract for the length-prefixed TCP
//! transport; `modbus_rtu` holds the serial transport's types, whose framing
//! algorithm is integrator-supplied.

use vstd::prelude::*;

use crate::ModbusError;

pub mod modbus_rtu;
pub mod tcp_modbus;

pub use modbus_rtu::ModbusRtu;
pub use modbus_rtu::ModbusRtuHeader;
pub use tcp_modbus::TcpModbus;
pub use tcp_modbus::TcpModbusHeader;

verus! {

/// The rules one transport binding of the protocol follows when messages are
/// cut out of a raw byte stream.
///
/// The four `spec_` functions are the transport's mathematical description:
/// what length, header, validity and payload a given byte window determines.
/// The executable methods must agree with them exactly, and the three proof
/// obligations pin down how the length rule behaves as a window grows, which
/// is what lets the stream framer retain partial data soundly:
/// a computed length never changes as more bytes arrive, a window too short
/// to yield a length is shorter than the message it opens, and cutting a
/// window down to its computed length leaves that length computable.
pub trait ModbusProtocol: Sized {
    /// A type representing the header for this particular packet
    ///
    /// It is not necessarily bit-compatible with the underlying representation.
    type Header;

    /// The maximum allowable length of an Application Data Unit in this
    /// protocol
    spec fn spec_max_length() -> int;

    /// The total ADU length a window of buffered bytes determines, if it
    /// determines one
    spec fn spec_adu_length(data: Seq<u8>) -> Result<int, ModbusError>;

    /// The header a window of buffered bytes determines, if it determines one
    spec fn spec_header(data: Seq<u8>) -> Result<Self::Header, ModbusError>;

    /// Whether a window passes the transport's integrity check
    spec fn spec_check(data: Seq<u8>) -> Result<(), ModbusError>;

    /// The payload a window carries: the bytes after the header (and before
    /// any trailing check value), once the window validates
    spec fn spec_pdu(data: Seq<u8>) -> Result<Seq<u8>, ModbusError>;

    /// Once a window determines an ADU length, any extension of the window
    /// determines the same length.
    proof fn lemma_length_prefix_stable(pre: Seq<u8>, all: Seq<u8>)
        requires
            pre.is_prefix_of(all),
            Self::spec_adu_length(pre) is Ok,
        ensures
            Self::spec_adu_length(all) == Self::spec_adu_length(pre),
    ;

    /// A window too short to determine a length is shorter than any ADU a
    /// longer window turns out to hold.
    proof fn lemma_length_needs_data(pre: Seq<u8>, all: Seq<u8>)
        requires
            pre.is_prefix_of(all),
            Self::spec_adu_length(pre) == Err::<int, ModbusError>(ModbusError::NotEnoughData),
            Self::spec_adu_length(all) is Ok,
        ensures
            Self::spec_adu_length(all)->Ok_0 >= pre.len(),
    ;

    /// Cutting a window down to exactly its determined ADU length leaves that
    /// same length determined.
    proof fn lemma_length_restrict(data: Seq<u8>, len: int)
        requires
            Self::spec_adu_length(data) == Ok::<int, ModbusError>(len),
            len <= data.len(),
        ensures
            Self::spec_adu_length(data.take(len)) == Ok::<int, ModbusError>(len),
    ;

    /// The maximum allowable ADU length, as a run-time value
    fn adu_max_length() -> (r: usize)
        ensures
            r == Self::spec_max_length(),
    ;

    /// Extract the length of the given ADU
    ///
    /// Fails with `NotEnoughData` if the window is too short to compute the
    /// total length, and with `BadLength` if the computed length exceeds the
    /// transport's maximum.
    fn adu_length(data: &[u8]) -> (r: Result<usize, ModbusError>)
        ensures
            match r {
                Ok(l) => Self::spec_adu_length(data@) == Ok::<int, ModbusError>(l as int),
                Err(e) => Self::spec_adu_length(data@) == Err::<int, ModbusError>(e),
            },
    ;

    /// Extract the header data associated with the given ADU
    ///
    /// Fails with `NotEnoughData` if the window is shorter than the fixed
    /// header size.
    fn adu_header(data: &[u8]) -> (r: Result<Self::Header, ModbusError>)
        ensures
            match r {
                Ok(h) => Self::spec_header(data@) == Ok::<Self::Header, ModbusError>(h),
                Err(e) => Self::spec_header(data@) == Err::<Self::Header, ModbusError>(e),
            },
    ;

    /// Determine if the ADU passes the transport's integrity check
    ///
    /// For checksum-free transports this only confirms a sufficient byte
    /// count; for checksum-bearing ones it is a real comparison.
    fn adu_check(data: &[u8]) -> (r: Result<(), ModbusError>)
        ensures
            match r {
                Ok(u) => Self::spec_check(data@) == Ok::<(), ModbusError>(()),
                Err(e) => Self::spec_check(data@) == Err::<(), ModbusError>(e),
            },
    ;

    /// Get the inner PDU data, checking the window's integrity first
    fn pdu_body(data: &[u8]) -> (r: Result<&[u8], ModbusError>)
        ensures
            match r {
                Ok(p) => Self::spec_pdu(data@) == Ok::<Seq<u8>, ModbusError>(p@),
                Err(e) => Self::spec_pdu(data@) == Err::<Seq<u8>, ModbusError>(e),
            },
    ;
}

} // verus!
