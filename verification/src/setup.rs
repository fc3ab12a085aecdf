//! Control requests: their validation and their wire format.
//!
//! A control transfer carries an eight-byte header in front of its data:
//! the request-type byte, the request code, then the value, the index and the
//! length of the data, each as a 16-bit number with its low byte first.

use vstd::prelude::*;
use std::convert::TryFrom;
use libc::c_int;
use crate::bytes::{copy_slice, high_byte, le_u16, low_byte, write_le_u16};
use crate::error::Error;
use crate::fields::{direction_of, lemma_request_type_byte_parts, request_type_byte, Direction, Recipient, RequestType};

verus! {

/// The number of bytes in the header of a control transfer.
pub const CONTROL_SETUP_SIZE: usize = 8;

/// The header of a control request, field by field.
pub struct SetupPacket {
    pub request_type: u8,
    pub request: u8,
    pub value: u16,
    pub index: u16,
    pub length: u16,
}

impl SetupPacket {
    /// The eight bytes that stand for the header on the wire.
    pub open spec fn to_bytes(self) -> Seq<u8> {
        seq![
            self.request_type,
            self.request,
            low_byte(self.value),
            high_byte(self.value),
            low_byte(self.index),
            high_byte(self.index),
            low_byte(self.length),
            high_byte(self.length),
        ]
    }

    /// The header that the first eight bytes of `bytes` stand for.
    pub open spec fn from_bytes(bytes: Seq<u8>) -> SetupPacket
        recommends
            bytes.len() >= CONTROL_SETUP_SIZE,
    {
        SetupPacket {
            request_type: bytes[0],
            request: bytes[1],
            value: le_u16(bytes[2], bytes[3]),
            index: le_u16(bytes[4], bytes[5]),
            length: le_u16(bytes[6], bytes[7]),
        }
    }
}

/// A header takes eight bytes on the wire, and reading those bytes gives back
/// every field of it.
pub proof fn law_setup_packet_round_trip(packet: SetupPacket)
    ensures
        packet.to_bytes().len() == CONTROL_SETUP_SIZE,
        SetupPacket::from_bytes(packet.to_bytes()) == packet,
{
}

/// What follows the header does not change what is read from it.
pub proof fn law_setup_packet_ignores_data(packet: SetupPacket, data: Seq<u8>)
    ensures
        SetupPacket::from_bytes(packet.to_bytes() + data) == packet,
{
    let bytes = packet.to_bytes() + data;
    assert(forall|i: int| 0 <= i < 8 ==> bytes[i] == packet.to_bytes()[i]);
}

/// Whether a control transfer can carry `data_length` bytes: header and data
/// together must fit the 16-bit length of a control transfer.
pub open spec fn valid_control_data_length(data_length: int) -> bool {
    0 <= data_length && data_length + CONTROL_SETUP_SIZE <= u16::MAX
}

pub fn is_valid_control_data_length(data_length: usize) -> (valid: bool)
    ensures
        valid == valid_control_data_length(data_length as int),
{
    if data_length > (u16::MAX as usize) {
        return false;
    }
    let total_length = data_length + CONTROL_SETUP_SIZE;
    match u16::try_from(total_length) {
        Ok(_) => true,
        Err(_) => false,
    }
}

/// A request that asks the device for data.
#[derive(Debug)]
pub struct ControlReadSetup {
    request_type: u8,
    request: u8,
    value: u16,
    index: u16,
    data_length: u16,
}

impl View for ControlReadSetup {
    type V = SetupPacket;

    closed spec fn view(&self) -> SetupPacket {
        SetupPacket {
            request_type: self.request_type,
            request: self.request,
            value: self.value,
            index: self.index,
            length: self.data_length,
        }
    }
}

impl ControlReadSetup {
    #[verifier::type_invariant]
    spec fn inv(self) -> bool {
        &&& valid_control_data_length(self.data_length as int)
        &&& direction_of(self.request_type) == Direction::In
    }

    /// Describes a request for `data_length` bytes from the device. Refused
    /// as too big when header and data together do not fit 16 bits.
    pub fn new(
        recipient: Recipient,
        category: RequestType,
        request: u8,
        value: u16,
        index: u16,
        data_length: u16,
    ) -> (r: Result<ControlReadSetup, Error>)
        ensures
            valid_control_data_length(data_length as int) ==> (r matches Ok(setup) && setup@ == (
            SetupPacket {
                request_type: request_type_byte(Direction::In, category, recipient),
                request,
                value,
                index,
                length: data_length,
            })),
            !valid_control_data_length(data_length as int) ==> r == Err::<ControlReadSetup, Error>(
                Error::TooBig,
            ),
    {
        match is_valid_control_data_length(data_length as usize) {
            true => {
                let request_type_byte = crate::fields::request_type(
                    Direction::In,
                    category,
                    recipient,
                );
                proof {
                    lemma_request_type_byte_parts(Direction::In, category, recipient);
                }
                Ok(
                    ControlReadSetup {
                        request_type: request_type_byte,
                        request,
                        value,
                        index,
                        data_length,
                    },
                )
            },
            false => Err(Error::TooBig),
        }
    }

    pub fn data_length(&self) -> (n: u16)
        ensures
            n == self@.length,
            valid_control_data_length(n as int),
    {
        proof {
            use_type_invariant(self);
        }
        self.data_length
    }

    /// The length of header and data together.
    pub fn total_length(&self) -> (n: usize)
        ensures
            n == CONTROL_SETUP_SIZE + self@.length,
            n <= u16::MAX,
    {
        proof {
            use_type_invariant(self);
        }
        self.data_length as usize + CONTROL_SETUP_SIZE
    }

    pub fn total_length_as_c_int(&self) -> (n: c_int)
        ensures
            n == CONTROL_SETUP_SIZE + self@.length,
    {
        self.total_length() as c_int
    }

    /// Writes the header over the first eight bytes of `buffer`. Its
    /// request-type byte gives the direction to the host.
    pub fn write_setup_packet(&self, buffer: &mut [u8])
        requires
            old(buffer)@.len() >= CONTROL_SETUP_SIZE,
        ensures
            final(buffer)@ == self@.to_bytes() + old(buffer)@.skip(CONTROL_SETUP_SIZE as int),
            direction_of(self@.request_type) == Direction::In,
    {
        proof {
            use_type_invariant(self);
        }
        buffer[0] = self.request_type;
        buffer[1] = self.request;
        write_le_u16(buffer, 2, self.value);
        write_le_u16(buffer, 4, self.index);
        write_le_u16(buffer, 6, self.data_length);
        assert(buffer@ =~= self@.to_bytes() + old(buffer)@.skip(CONTROL_SETUP_SIZE as int));
    }
}

/// A request that sends data to the device. The data is borrowed from the
/// caller.
#[derive(Debug)]
pub struct ControlWriteSetup<'a> {
    request_type: u8,
    request: u8,
    value: u16,
    index: u16,
    data: &'a [u8],
}

impl<'a> ControlWriteSetup<'a> {
    #[verifier::type_invariant]
    spec fn inv(self) -> bool {
        &&& valid_control_data_length(self.data@.len() as int)
        &&& direction_of(self.request_type) == Direction::Out
    }

    /// The header of the request; its length field counts the data.
    pub closed spec fn header(&self) -> SetupPacket {
        SetupPacket {
            request_type: self.request_type,
            request: self.request,
            value: self.value,
            index: self.index,
            length: self.data@.len() as u16,
        }
    }

    /// The data of the request.
    pub closed spec fn data(&self) -> Seq<u8> {
        self.data@
    }

    /// The request on the wire: the header, then the data.
    pub open spec fn to_bytes(&self) -> Seq<u8> {
        self.header().to_bytes() + self.data()
    }

    /// Describes a request that sends `data` to the device. Refused as too
    /// big when header and data together do not fit 16 bits.
    pub fn new(
        recipient: Recipient,
        category: RequestType,
        request: u8,
        value: u16,
        index: u16,
        data: &'a [u8],
    ) -> (r: Result<ControlWriteSetup<'a>, Error>)
        ensures
            valid_control_data_length(data@.len() as int) ==> (r matches Ok(setup) && setup.data()
                == data@ && setup.header() == (SetupPacket {
                request_type: request_type_byte(Direction::Out, category, recipient),
                request,
                value,
                index,
                length: data@.len() as u16,
            })),
            !valid_control_data_length(data@.len() as int) ==> r == Err::<
                ControlWriteSetup<'a>,
                Error,
            >(Error::TooBig),
    {
        let data_length = data.len();
        match is_valid_control_data_length(data_length) {
            true => {
                let request_type_byte = crate::fields::request_type(
                    Direction::Out,
                    category,
                    recipient,
                );
                proof {
                    lemma_request_type_byte_parts(Direction::Out, category, recipient);
                }
                Ok(ControlWriteSetup { request_type: request_type_byte, request, value, index, data })
            },
            false => Err(Error::TooBig),
        }
    }

    pub fn data_length(&self) -> (n: u16)
        ensures
            n == self.data().len(),
            n == self.header().length,
            valid_control_data_length(n as int),
    {
        proof {
            use_type_invariant(self);
        }
        self.data.len() as u16
    }

    /// The length of header and data together.
    pub fn total_length(&self) -> (n: usize)
        ensures
            n == CONTROL_SETUP_SIZE + self.data().len(),
            n == self.to_bytes().len(),
            n <= u16::MAX,
    {
        proof {
            use_type_invariant(self);
        }
        self.data.len() + CONTROL_SETUP_SIZE
    }

    pub fn total_length_as_c_int(&self) -> (n: c_int)
        ensures
            n == CONTROL_SETUP_SIZE + self.data().len(),
    {
        self.total_length() as c_int
    }

    /// Writes the header over the first eight bytes of `buffer`. Its
    /// request-type byte gives the direction from the host.
    pub fn write_setup_packet(&self, buffer: &mut [u8])
        requires
            old(buffer)@.len() >= CONTROL_SETUP_SIZE,
        ensures
            final(buffer)@ == self.header().to_bytes() + old(buffer)@.skip(
                CONTROL_SETUP_SIZE as int,
            ),
            direction_of(self.header().request_type) == Direction::Out,
            self.header().length == self.data().len(),
    {
        proof {
            use_type_invariant(self);
        }
        buffer[0] = self.request_type;
        buffer[1] = self.request;
        write_le_u16(buffer, 2, self.value);
        write_le_u16(buffer, 4, self.index);
        write_le_u16(buffer, 6, self.data_length());
        assert(buffer@ =~= self.header().to_bytes() + old(buffer)@.skip(CONTROL_SETUP_SIZE as int));
    }

    /// Copies the data over a region of its own length. Without data the
    /// region is left as it is.
    pub fn copy_body_data(&self, buffer: &mut [u8])
        requires
            self.data().len() == 0 || old(buffer)@.len() == self.data().len(),
        ensures
            self.data().len() > 0 ==> final(buffer)@ == self.data(),
            self.data().len() == 0 ==> final(buffer)@ == old(buffer)@,
    {
        if self.data_length() > 0 {
            copy_slice(self.data, buffer);
        }
    }
}

} // verus!
