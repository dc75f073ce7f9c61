//! Tools for converting a byte stream into a sequence of MODBUS messages
//!
//! See the `RecvBuffer` struct for details.

use vstd::prelude::*;
use vstd::slice::slice_subrange;

use crate::protocols::modbus_rtu::MODBUS_RTU_ADU_MAX_LENGTH;
use crate::protocols::tcp_modbus::TCP_ADU_MAX_LENGTH;
use crate::protocols::ModbusProtocol;
use crate::ModbusError;

verus! {

/// The capacity of a receive buffer
///
/// This just has to be the largest maximum ADU length used by any compiled-in
/// protocol variant; a proof in `RecvBuffer::new` keeps it in step with the
/// variants' constants.
pub const BUFFER_LEN: usize = 260;

/// The larger of two buffer sizes
pub fn const_max(a: usize, b: usize) -> (r: usize)
    ensures
        r == if a >= b {
            a as int
        } else {
            b as int
        },
{
    if a >= b {
        a
    } else {
        b
    }
}

/// A representation of a single MODBUS ADU
///
/// Consists of a protocol-dependent header, as well as a protocol data unit
/// (PDU) that is the same regardless of the underlying transport protocol.
/// The PDU bytes are copied out of the receive buffer that decoded them, so
/// a packet stays valid however the buffer moves on.
pub struct Packet<P: ModbusProtocol> {
    pub pdu: Vec<u8>,
    pub header: P::Header,
}

/// Converts a raw byte stream into a sequence of MODBUS packets
///
/// The critical method is `process`. By calling it with new data, you get
/// broken-out MODBUS packets. Each packet corresponds to an application data
/// unit (ADU), and contains some header data (dependent on the underlying
/// transport protocol) and a protocol data unit (PDU) that does not depend
/// on the underlying transport protocol.
pub struct RecvBuffer<P: ModbusProtocol> {
    // This is a critical invariant:
    // If the buffer ever contains a complete ADU, contains_complete must be
    // true and the buffer must hold exactly that ADU.
    raw_buffer: Vec<u8>,
    contains_complete: bool,
    _protocol: core::marker::PhantomData<P>,
}

impl<P: ModbusProtocol> RecvBuffer<P> {
    /// The bytes currently buffered
    pub closed spec fn contents(self) -> Seq<u8> {
        self.raw_buffer@
    }

    /// Whether the buffered bytes are a complete, as yet unclaimed ADU
    pub closed spec fn has_complete(self) -> bool {
        self.contains_complete
    }

    /// The buffer's structural invariant: the buffered bytes fit the fixed
    /// capacity, the configured protocol's maximum ADU fits it too, and the
    /// buffered bytes are either exactly one complete ADU (with the
    /// complete flag set) or a strict, still-incomplete prefix of one.
    pub closed spec fn wf(self) -> bool {
        &&& self.raw_buffer@.len() <= BUFFER_LEN
        &&& P::spec_max_length() <= BUFFER_LEN as int
        &&& if self.contains_complete {
            P::spec_adu_length(self.raw_buffer@) == Ok::<int, ModbusError>(
                self.raw_buffer@.len() as int,
            )
        } else {
            self.raw_buffer@.len() == 0 || match P::spec_adu_length(self.raw_buffer@) {
                Ok(l) => self.raw_buffer@.len() < l,
                Err(e) => e == ModbusError::NotEnoughData,
            }
        }
    }

    /// Create a new receive buffer
    pub fn new() -> (r: Self)
        requires
            P::spec_max_length() <= BUFFER_LEN as int,
        ensures
            r.wf(),
            r.contents() == Seq::<u8>::empty(),
            !r.has_complete(),
    {
        let capacity = const_max(TCP_ADU_MAX_LENGTH, MODBUS_RTU_ADU_MAX_LENGTH);
        assert(capacity == BUFFER_LEN);
        RecvBuffer {
            raw_buffer: Vec::with_capacity(capacity),
            contains_complete: false,
            _protocol: core::marker::PhantomData,
        }
    }

    /// Process some received data through the buffer
    ///
    /// Your new data is appended to any data already in the buffer — as much
    /// of it as the buffer's remaining capacity takes — and checked to see
    /// if it makes an ADU. If:
    ///
    /// - It makes exactly 1 ADU:
    ///     - You get `Ok` with that ADU and an empty slice
    /// - It makes more than 1 ADU:
    ///     - You get `Ok` with that ADU and a slice containing any excess data
    ///     - You should call `process` again with that slice after handling
    ///       the ADU
    /// - It makes less than 1 ADU:
    ///     - You get `Err` with `ModbusError::NotEnoughData`
    ///     - The unfinished data is retained in the buffer
    /// - It's somehow invalid (length too long, bad function code, etc.)
    ///     - You get `Err` with some other error
    ///     - All data in the buffer is cleared, including whatever you passed
    ///       in
    pub fn process<'p>(&mut self, data: &'p [u8]) -> (r: Result<
        (Packet<P>, &'p [u8]),
        ModbusError,
    >)
        requires
            old(self).wf(),
        ensures
            final(self).wf(),
            ({
                let start = if old(self).has_complete() {
                    Seq::<u8>::empty()
                } else {
                    old(self).contents()
                };
                let added = if data@.len() <= BUFFER_LEN - start.len() {
                    data@.len() as int
                } else {
                    BUFFER_LEN - start.len()
                };
                let combined = start + data@.take(added);
                match P::spec_adu_length(combined) {
                    Ok(l) => if combined.len() < l {
                        // Not yet a whole ADU: everything is retained
                        &&& r matches Err(ModbusError::NotEnoughData)
                        &&& final(self).contents() == combined
                        &&& !final(self).has_complete()
                    } else {
                        // A whole ADU: it is the first l buffered bytes, and
                        // the caller gets back whatever of its data lies
                        // beyond the ADU's end
                        let adu = combined.take(l);
                        &&& final(self).contents() == adu
                        &&& final(self).has_complete()
                        &&& match P::spec_header(adu) {
                            Ok(h) => match P::spec_pdu(adu) {
                                Ok(p) => {
                                    &&& r matches Ok(pr)
                                    &&& pr.0.header == h
                                    &&& pr.0.pdu@ == p
                                    &&& pr.1@ == data@.skip(l - start.len())
                                },
                                Err(e) => (r matches Err(e2) && e2 == e),
                            },
                            Err(e) => (r matches Err(e2) && e2 == e),
                        }
                    },
                    Err(ModbusError::NotEnoughData) => {
                        // Too short even to size: everything is retained
                        &&& r matches Err(ModbusError::NotEnoughData)
                        &&& final(self).contents() == combined
                        &&& !final(self).has_complete()
                    },
                    Err(e) => {
                        // Corrupt: the whole in-flight message is discarded
                        &&& (r matches Err(e2) && e2 == e)
                        &&& final(self).contents() == Seq::<u8>::empty()
                        &&& !final(self).has_complete()
                    },
                }
            }),
    {
        if self.contains_complete {
            self.clear_buffer();
            self.contains_complete = false;
        }

        let ghost start = self.raw_buffer@;
        let original_buffer_size = self.used();
        let space = self.space_left();
        let length_to_add = if space <= data.len() {
            space
        } else {
            data.len()
        };

        self.add_data(slice_subrange(data, 0, length_to_add));
        let ghost combined = self.raw_buffer@;

        let adu_length = match P::adu_length(self.buffer()) {
            Ok(l) => l,
            // Not enough data to determine the ADU length
            // For TCP MODBUS, we need 6 bytes
            // For MODBUS RTU, it might be more
            Err(ModbusError::NotEnoughData) => {
                return Err(ModbusError::NotEnoughData);
            },
            // Something is very wrong. Give up and purge any bad data
            Err(e) => {
                self.clear_buffer();
                return Err(e);
            },
        };

        // We got something in between enough to determine the length and a
        // full ADU
        if self.used() < adu_length {
            return Err(ModbusError::NotEnoughData);
        }

        proof {
            // The length rule cannot place the ADU's end inside the bytes
            // that were already buffered before this call: a buffered prefix
            // either already determined this same length and was still short
            // of it, or was too short to determine any length at all.
            assert(start.is_prefix_of(combined));
            if start.len() > 0 {
                match P::spec_adu_length(start) {
                    Ok(l0) => {
                        P::lemma_length_prefix_stable(start, combined);
                    },
                    Err(e) => {
                        P::lemma_length_needs_data(start, combined);
                    },
                }
            }
            assert(adu_length - original_buffer_size <= length_to_add);
        }

        // This is where the remaining data starts, but it's also the amount
        // of data added to the buffer that became part of the ADU.
        let remaining_data_index = adu_length - original_buffer_size;

        // At this point, we know we have a complete ADU
        // Set up the tracking fields to maintain our invariants
        self.contains_complete = true;
        self.trim_to(adu_length);

        proof {
            P::lemma_length_restrict(combined, adu_length as int);
        }

        let header = match P::adu_header(self.buffer()) {
            Ok(h) => h,
            Err(e) => {
                return Err(e);
            },
        };
        let pdu = match P::pdu_body(self.buffer()) {
            Ok(p) => p,
            Err(e) => {
                return Err(e);
            },
        };

        Ok(
            (
                Packet { header, pdu: vstd::slice::slice_to_vec(pdu) },
                slice_subrange(data, remaining_data_index, data.len()),
            ),
        )
    }

    fn space_left(&self) -> (r: usize)
        requires
            self.wf(),
        ensures
            r == BUFFER_LEN - self.contents().len(),
    {
        BUFFER_LEN - self.raw_buffer.len()
    }

    fn add_data(&mut self, data: &[u8])
        requires
            old(self).raw_buffer@.len() + data@.len() <= BUFFER_LEN,
        ensures
            final(self).raw_buffer@ == old(self).raw_buffer@ + data@,
            final(self).contains_complete == old(self).contains_complete,
    {
        let mut k: usize = 0;
        while k < data.len()
            invariant
                k <= data@.len(),
                self.raw_buffer@ == old(self).raw_buffer@ + data@.take(k as int),
                self.contains_complete == old(self).contains_complete,
            decreases data@.len() - k,
        {
            self.raw_buffer.push(data[k]);
            proof {
                assert(data@.take(k + 1) =~= data@.take(k as int).push(data@[k as int]));
                assert(old(self).raw_buffer@ + data@.take(k + 1) =~= (old(self).raw_buffer@
                    + data@.take(k as int)).push(data@[k as int]));
            }
            k += 1;
        }
        proof {
            assert(data@.take(data@.len() as int) =~= data@);
        }
    }

    fn clear_buffer(&mut self)
        ensures
            final(self).raw_buffer@ == Seq::<u8>::empty(),
            final(self).contains_complete == old(self).contains_complete,
    {
        self.raw_buffer.clear();
    }

    fn trim_to(&mut self, length: usize)
        requires
            length <= old(self).raw_buffer@.len(),
        ensures
            final(self).raw_buffer@ == old(self).raw_buffer@.take(length as int),
            final(self).contains_complete == old(self).contains_complete,
    {
        self.raw_buffer.truncate(length);
    }

    fn buffer(&self) -> (r: &[u8])
        ensures
            r@ == self.contents(),
    {
        self.raw_buffer.as_slice()
    }

    /// Determine how much of the buffer is currently in use
    pub fn used(&self) -> (r: usize)
        ensures
            r == self.contents().len(),
    {
        self.raw_buffer.len()
    }
}

} // verus!
