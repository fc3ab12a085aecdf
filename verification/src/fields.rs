use vstd::prelude::*;

verus! {

/// The direction of a transfer, seen from the host.
#[derive(Debug, Clone, Copy, PartialEq, Eq, Structural)]
pub enum Direction {
    /// From the device to the host.
    In,
    /// From the host to the device.
    Out,
}

/// Who a control request is addressed to.
#[derive(Debug, Clone, Copy, PartialEq, Eq, Structural)]
pub enum Recipient {
    Device,
    Interface,
    Endpoint,
    Other,
}

/// The category of a control request.
#[derive(Debug, Clone, Copy, PartialEq, Eq, Structural)]
pub enum RequestType {
    Standard,
    Class,
    Vendor,
}

/// The kind of transfer that a descriptor is armed for.
#[derive(Debug, Clone, Copy, PartialEq, Eq, Structural)]
pub enum TransferType {
    Control,
    Bulk,
    Interrupt,
}

impl Direction {
    /// Bit 7 of a request-type byte, as a number: 128 for `In`, 0 for `Out`.
    pub open spec fn bit(self) -> int {
        match self {
            Direction::In => 128,
            Direction::Out => 0,
        }
    }
}

impl RequestType {
    /// The two-bit code of the category.
    pub open spec fn code(self) -> int {
        match self {
            RequestType::Standard => 0,
            RequestType::Class => 1,
            RequestType::Vendor => 2,
        }
    }
}

impl Recipient {
    /// The five-bit code of the recipient.
    pub open spec fn code(self) -> int {
        match self {
            Recipient::Device => 0,
            Recipient::Interface => 1,
            Recipient::Endpoint => 2,
            Recipient::Other => 3,
        }
    }
}

/// The request-type byte of a control request: the direction in bit 7, the
/// category in bits 6 and 5, the recipient in bits 4 to 0.
pub open spec fn request_type_byte(
    direction: Direction,
    category: RequestType,
    recipient: Recipient,
) -> u8 {
    (direction.bit() + 32 * category.code() + recipient.code()) as u8
}

/// The direction that bit 7 of a request-type byte gives.
pub open spec fn direction_of(request_type: u8) -> Direction {
    if request_type >= 128 {
        Direction::In
    } else {
        Direction::Out
    }
}

/// Packs a direction, a category and a recipient into a request-type byte.
pub fn request_type(direction: Direction, category: RequestType, recipient: Recipient) -> (byte: u8)
    ensures
        byte == request_type_byte(direction, category, recipient),
{
    let d: u8 = match direction {
        Direction::In => 0x80,
        Direction::Out => 0x00,
    };
    let t: u8 = match category {
        RequestType::Standard => 0x00,
        RequestType::Class => 0x20,
        RequestType::Vendor => 0x40,
    };
    let r: u8 = match recipient {
        Recipient::Device => 0x00,
        Recipient::Interface => 0x01,
        Recipient::Endpoint => 0x02,
        Recipient::Other => 0x03,
    };
    assert(d | t | r == d + t + r) by (bit_vector)
        requires
            d == 0x80 || d == 0x00,
            t == 0x00 || t == 0x20 || t == 0x40,
            r <= 0x03,
    ;
    d | t | r
}

/// The three parts of a request-type byte can be read back from it: the
/// direction from bit 7, the category from bits 6 and 5, the recipient from
/// the low five bits.
pub proof fn lemma_request_type_byte_parts(
    direction: Direction,
    category: RequestType,
    recipient: Recipient,
)
    ensures
        direction_of(request_type_byte(direction, category, recipient)) == direction,
        (request_type_byte(direction, category, recipient) / 32) % 4 == category.code(),
        request_type_byte(direction, category, recipient) % 32 == recipient.code(),
{
}

} // verus!
