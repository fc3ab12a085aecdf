//! The transfer itself: the image of the native descriptor, the buffer
//! behind it, and the phases that a transfer goes through.

use vstd::prelude::*;
use vstd::math::max;
use libc::{c_int, c_uint};
use crate::buffer::Buffer;
use crate::bytes::resized;
use crate::device_handle::DeviceHandle;
use crate::fields::{direction_of, Direction, TransferType};
use crate::setup::{law_setup_packet_ignores_data, SetupPacket, CONTROL_SETUP_SIZE};
use crate::values::{fits_native_length, is_in_endpoint, is_out_endpoint};

pub use crate::setup::{ControlReadSetup, ControlWriteSetup};
pub use crate::values::{ReadEndpoint, ReadLength, Timeout, WriteData, WriteEndpoint};

verus! {

const CLEAR_TRANSFER_FLAGS: u8 = 0;

/// The fields of the native descriptor that this library writes, as plain
/// values.
#[derive(Debug, Clone, Copy, PartialEq, Eq, Structural)]
pub struct Descriptor {
    /// The address of the device's native record; zero while none is set.
    pub dev_handle: usize,
    pub flags: u8,
    pub endpoint: u8,
    pub transfer_type: TransferType,
    /// In milliseconds; zero for no timeout.
    pub timeout: c_uint,
    /// The number of bytes of the buffer that the native layer may use.
    pub length: c_int,
    /// Whether the native buffer pointer designates the start of the
    /// transfer's buffer. Where it does not, the pointer is null.
    pub has_buffer: bool,
}

/// What a transfer is, whatever its phase: the descriptor, the bytes of the
/// buffer that are in use, the number of bytes that the buffer owns, and the
/// number of isochronous packets that the native descriptor was made for.
pub struct TransferState {
    pub descriptor: Descriptor,
    pub buffer: Seq<u8>,
    pub capacity: nat,
    pub max_iso_packets: u16,
}

impl TransferState {
    /// What holds of every transfer: the published length is the length of
    /// the buffer, the buffer owns at least the bytes in use, and a
    /// descriptor without a buffer pointer goes with a buffer that owns
    /// nothing.
    pub open spec fn wf(self) -> bool {
        &&& self.descriptor.flags == 0
        &&& self.descriptor.length == self.buffer.len()
        &&& self.buffer.len() <= self.capacity
        &&& (self.descriptor.has_buffer || self.capacity == 0)
    }

    /// A transfer that was never filled: every field of the descriptor is
    /// zero, which reads as a control transfer on endpoint 0 without a
    /// timeout, and the buffer owns nothing.
    pub open spec fn fresh(max_iso_packets: u16) -> TransferState {
        TransferState {
            descriptor: Descriptor {
                dev_handle: 0,
                flags: 0,
                endpoint: 0,
                transfer_type: TransferType::Control,
                timeout: 0,
                length: 0,
                has_buffer: false,
            },
            buffer: Seq::empty(),
            capacity: 0,
            max_iso_packets,
        }
    }

    /// The transfer after a fill that leaves `buffer` in use: the
    /// descriptor names the device, the endpoint, the kind and the timeout,
    /// and publishes the buffer with its length. The buffer owns more than
    /// before only where `buffer` is longer than what it owned.
    pub open spec fn armed(
        self,
        transfer_type: TransferType,
        dev_handle: usize,
        endpoint: u8,
        timeout: nat,
        buffer: Seq<u8>,
    ) -> TransferState {
        TransferState {
            descriptor: Descriptor {
                dev_handle,
                flags: self.descriptor.flags,
                endpoint,
                transfer_type,
                timeout: timeout as c_uint,
                length: buffer.len() as c_int,
                has_buffer: true,
            },
            buffer,
            capacity: max(self.capacity as int, buffer.len() as int) as nat,
            max_iso_packets: self.max_iso_packets,
        }
    }

    /// The transfer after its buffer was released: no byte in use, none
    /// owned, and no buffer pointer in the descriptor.
    pub open spec fn released(self) -> TransferState {
        TransferState {
            descriptor: Descriptor { length: 0, has_buffer: false, ..self.descriptor },
            buffer: Seq::empty(),
            capacity: 0,
            max_iso_packets: self.max_iso_packets,
        }
    }
}

/// The buffer of a control read over a buffer that held `before`: the header,
/// then room for the data, in which what `before` held stays and the rest is
/// zero.
pub open spec fn control_read_buffer(before: Seq<u8>, setup: SetupPacket) -> Seq<u8> {
    setup.to_bytes() + resized(before, (CONTROL_SETUP_SIZE + setup.length) as nat).skip(
        CONTROL_SETUP_SIZE as int,
    )
}

/// Whether `buffer` is laid out as a control transfer in the given direction:
/// a header whose length field counts exactly the bytes behind it, and whose
/// request-type byte gives that direction.
pub open spec fn holds_control_request(buffer: Seq<u8>, direction: Direction) -> bool {
    &&& buffer.len() >= CONTROL_SETUP_SIZE
    &&& buffer.len() == CONTROL_SETUP_SIZE + SetupPacket::from_bytes(buffer).length
    &&& direction_of(SetupPacket::from_bytes(buffer).request_type) == direction
}

/// The one owner of a transfer's descriptor and of its buffer.
#[derive(Debug)]
pub(crate) struct Internals {
    pub(crate) descriptor: Descriptor,
    pub(crate) max_iso_packets: u16,
    pub(crate) buffer: Buffer,
}

impl Internals {
    pub(crate) open spec fn state(&self) -> TransferState {
        TransferState {
            descriptor: self.descriptor,
            buffer: self.buffer.bytes(),
            capacity: self.buffer.capacity(),
            max_iso_packets: self.max_iso_packets,
        }
    }

    pub(crate) open spec fn wf(&self) -> bool {
        self.buffer.wf() && self.state().wf()
    }

    pub(crate) fn new_unfilled(max_iso_packets: u16) -> (inner: Internals)
        ensures
            inner.wf(),
            inner.state() == TransferState::fresh(max_iso_packets),
    {
        let descriptor = Descriptor {
            dev_handle: 0,
            flags: CLEAR_TRANSFER_FLAGS,
            endpoint: 0,
            transfer_type: TransferType::Control,
            timeout: 0,
            length: 0,
            has_buffer: false,
        };
        Internals { descriptor, max_iso_packets, buffer: Buffer::new() }
    }

    pub(crate) fn set_device_handle(&mut self, dh: &DeviceHandle)
        ensures
            final(self).buffer == old(self).buffer,
            final(self).max_iso_packets == old(self).max_iso_packets,
            final(self).descriptor == (Descriptor { dev_handle: dh@, ..old(self).descriptor }),
    {
        self.descriptor.dev_handle = dh.as_raw();
    }

    pub(crate) fn set_endpoint(&mut self, endpoint: u8)
        ensures
            final(self).buffer == old(self).buffer,
            final(self).max_iso_packets == old(self).max_iso_packets,
            final(self).descriptor == (Descriptor { endpoint, ..old(self).descriptor }),
    {
        self.descriptor.endpoint = endpoint;
    }

    pub(crate) fn set_timeout(&mut self, t: Timeout)
        ensures
            final(self).buffer == old(self).buffer,
            final(self).max_iso_packets == old(self).max_iso_packets,
            final(self).descriptor == (Descriptor { timeout: t@ as c_uint, ..old(self).descriptor }),
    {
        self.descriptor.timeout = t.as_c_uint();
    }

    pub(crate) fn set_transfer_type(&mut self, tt: TransferType)
        ensures
            final(self).buffer == old(self).buffer,
            final(self).max_iso_packets == old(self).max_iso_packets,
            final(self).descriptor == (Descriptor { transfer_type: tt, ..old(self).descriptor }),
    {
        self.descriptor.transfer_type = tt;
    }

    /// Publishes the buffer in the descriptor: its start and the number of
    /// bytes in use.
    fn publish_buffer(&mut self, length: c_int)
        requires
            old(self).buffer.wf(),
            length == old(self).buffer.bytes().len(),
            old(self).descriptor.flags == 0,
        ensures
            final(self).wf(),
            final(self).buffer == old(self).buffer,
            final(self).max_iso_packets == old(self).max_iso_packets,
            final(self).descriptor == (Descriptor {
                length,
                has_buffer: true,
                ..old(self).descriptor
            }),
    {
        self.descriptor.length = length;
        self.descriptor.has_buffer = true;
    }

    /// Makes room for `length` bytes to be read: what the buffer held of
    /// them stays, what comes into use is zero.
    pub(crate) fn setup_read(&mut self, length: ReadLength)
        requires
            old(self).wf(),
        ensures
            final(self).wf(),
            final(self).max_iso_packets == old(self).max_iso_packets,
            final(self).descriptor == (Descriptor {
                length: length@ as c_int,
                has_buffer: true,
                ..old(self).descriptor
            }),
            final(self).buffer.bytes() == resized(old(self).buffer.bytes(), length@),
            final(self).buffer.capacity() == max(
                old(self).buffer.capacity() as int,
                length@ as int,
            ),
    {
        self.buffer.resize(length.as_usize());
        self.publish_buffer(length.as_c_int());
    }

    /// Puts the payload into the buffer, and nothing else.
    pub(crate) fn setup_write(&mut self, data: &WriteData)
        requires
            old(self).wf(),
        ensures
            final(self).wf(),
            final(self).max_iso_packets == old(self).max_iso_packets,
            final(self).descriptor == (Descriptor {
                length: data@.len() as c_int,
                has_buffer: true,
                ..old(self).descriptor
            }),
            final(self).buffer.bytes() == data@,
            final(self).buffer.capacity() == max(
                old(self).buffer.capacity() as int,
                data@.len() as int,
            ),
    {
        let length = data.length();
        self.buffer.resize(length);
        let (region, _) = self.buffer.storage.as_mut_slice().split_at_mut(length);
        data.copy_data(region);
        assert(self.buffer.bytes() =~= data@);
        self.publish_buffer(data.length_as_c_int());
    }

    /// Puts the header of the request into the buffer, and leaves room for
    /// the data behind it.
    pub(crate) fn setup_control_read(&mut self, setup: &ControlReadSetup)
        requires
            old(self).wf(),
        ensures
            final(self).wf(),
            final(self).max_iso_packets == old(self).max_iso_packets,
            final(self).descriptor == (Descriptor {
                length: (CONTROL_SETUP_SIZE + setup@.length) as c_int,
                has_buffer: true,
                ..old(self).descriptor
            }),
            final(self).buffer.bytes() == control_read_buffer(old(self).buffer.bytes(), setup@),
            direction_of(setup@.request_type) == Direction::In,
            final(self).buffer.capacity() == max(
                old(self).buffer.capacity() as int,
                CONTROL_SETUP_SIZE + setup@.length,
            ),
    {
        let total = setup.total_length();
        self.buffer.resize(total);
        let (region, _) = self.buffer.storage.as_mut_slice().split_at_mut(total);
        setup.write_setup_packet(region);
        assert(self.buffer.bytes() =~= control_read_buffer(old(self).buffer.bytes(), setup@));
        self.publish_buffer(setup.total_length_as_c_int());
    }

    /// Puts the header of the request into the buffer, and the data behind
    /// it.
    pub(crate) fn setup_control_write(&mut self, setup: &ControlWriteSetup)
        requires
            old(self).wf(),
        ensures
            final(self).wf(),
            final(self).max_iso_packets == old(self).max_iso_packets,
            final(self).descriptor == (Descriptor {
                length: setup.to_bytes().len() as c_int,
                has_buffer: true,
                ..old(self).descriptor
            }),
            final(self).buffer.bytes() == setup.to_bytes(),
            direction_of(setup.header().request_type) == Direction::Out,
            setup.header().length == setup.data().len(),
            final(self).buffer.capacity() == max(
                old(self).buffer.capacity() as int,
                setup.to_bytes().len() as int,
            ),
    {
        let total = setup.total_length();
        self.buffer.resize(total);
        let (region, _) = self.buffer.storage.as_mut_slice().split_at_mut(total);
        let (header, body) = region.split_at_mut(CONTROL_SETUP_SIZE);
        setup.write_setup_packet(header);
        setup.copy_body_data(body);
        assert(self.buffer.bytes() =~= setup.to_bytes());
        self.publish_buffer(setup.total_length_as_c_int());
    }

    /// Releases the buffer and takes it out of the descriptor.
    pub(crate) fn shrink(&mut self)
        requires
            old(self).wf(),
        ensures
            final(self).wf(),
            final(self).state() == old(self).state().released(),
    {
        self.buffer.release();
        self.descriptor.length = 0;
        self.descriptor.has_buffer = false;
    }
}

/// A transfer that is not armed. It can be filled, and nothing else.
#[derive(Debug)]
pub struct UnfilledTransfer {
    inner: Internals,
}

/// A transfer that is armed to read from the device. It can be cleared, and
/// nothing else.
#[derive(Debug)]
pub struct ReadTransfer {
    inner: Internals,
}

/// A transfer that is armed to write to the device. It can be cleared, and
/// nothing else.
#[derive(Debug)]
pub struct WriteTransfer {
    inner: Internals,
}

/// A transfer in one of its phases.
#[derive(Debug)]
pub enum Transfer {
    Unfilled(UnfilledTransfer),
    ReadBulk(ReadTransfer),
    WriteBulk(WriteTransfer),
    ReadControl(ReadTransfer),
    WriteControl(WriteTransfer),
    ReadInterrupt(ReadTransfer),
    WriteInterrupt(WriteTransfer),
}

impl View for UnfilledTransfer {
    type V = TransferState;

    closed spec fn view(&self) -> TransferState {
        self.inner.state()
    }
}

impl View for ReadTransfer {
    type V = TransferState;

    closed spec fn view(&self) -> TransferState {
        self.inner.state()
    }
}

impl View for WriteTransfer {
    type V = TransferState;

    closed spec fn view(&self) -> TransferState {
        self.inner.state()
    }
}

impl Transfer {
    /// The state of the transfer, whatever its phase.
    pub open spec fn state(self) -> TransferState {
        match self {
            Transfer::Unfilled(t) => t@,
            Transfer::ReadBulk(t) => t@,
            Transfer::WriteBulk(t) => t@,
            Transfer::ReadControl(t) => t@,
            Transfer::WriteControl(t) => t@,
            Transfer::ReadInterrupt(t) => t@,
            Transfer::WriteInterrupt(t) => t@,
        }
    }

    /// What the phase of a transfer says of its state. A transfer that is
    /// armed has its buffer published, its kind set, and an endpoint of the
    /// direction that the phase names. A bulk or interrupt transfer holds
    /// only data; a control transfer goes to endpoint 0 and holds a header in
    /// front of its data.
    pub open spec fn in_phase(self) -> bool {
        let d = self.state().descriptor;
        match self {
            Transfer::Unfilled(_) => true,
            Transfer::ReadBulk(_) => d.has_buffer && d.transfer_type == TransferType::Bulk
                && is_in_endpoint(d.endpoint),
            Transfer::WriteBulk(_) => d.has_buffer && d.transfer_type == TransferType::Bulk
                && is_out_endpoint(d.endpoint),
            Transfer::ReadInterrupt(_) => d.has_buffer && d.transfer_type
                == TransferType::Interrupt && is_in_endpoint(d.endpoint),
            Transfer::WriteInterrupt(_) => d.has_buffer && d.transfer_type
                == TransferType::Interrupt && is_out_endpoint(d.endpoint),
            Transfer::ReadControl(_) => d.has_buffer && d.transfer_type == TransferType::Control
                && d.endpoint == 0 && holds_control_request(self.state().buffer, Direction::In),
            Transfer::WriteControl(_) => d.has_buffer && d.transfer_type == TransferType::Control
                && d.endpoint == 0 && holds_control_request(self.state().buffer, Direction::Out),
        }
    }

    /// A transfer that was never filled, for a native descriptor with room
    /// for `max_iso_packets` isochronous packets.
    pub fn new(max_iso_packets: u16) -> (transfer: Transfer)
        ensures
            transfer matches Transfer::Unfilled(unfilled) && unfilled@ == TransferState::fresh(
                max_iso_packets,
            ),
            transfer.state().wf(),
    {
        Self::Unfilled(UnfilledTransfer::new(max_iso_packets))
    }

    fn internals(&self) -> (inner: &Internals)
        ensures
            inner.wf(),
            inner.state() == self.state(),
    {
        match self {
            Transfer::Unfilled(t) => {
                proof {
                    use_type_invariant(t);
                }
                &t.inner
            },
            Transfer::ReadBulk(t) | Transfer::ReadControl(t) | Transfer::ReadInterrupt(t) => {
                proof {
                    use_type_invariant(t);
                }
                &t.inner
            },
            Transfer::WriteBulk(t) | Transfer::WriteControl(t) | Transfer::WriteInterrupt(t) => {
                proof {
                    use_type_invariant(t);
                }
                &t.inner
            },
        }
    }

    /// The descriptor, as the native layer is to see it.
    pub fn descriptor(&self) -> (descriptor: Descriptor)
        ensures
            descriptor == self.state().descriptor,
            self.state().wf(),
    {
        self.internals().descriptor
    }

    /// The bytes of the buffer that are in use.
    pub fn buffer(&self) -> (bytes: &[u8])
        ensures
            bytes@ == self.state().buffer,
    {
        self.internals().buffer.as_slice()
    }

    /// The number of bytes that the buffer owns, in use or not.
    pub fn capacity(&self) -> (n: usize)
        ensures
            n == self.state().capacity,
    {
        self.internals().buffer.storage.len()
    }

    /// The number of isochronous packets that the native descriptor has room
    /// for.
    pub fn max_iso_packets(&self) -> (n: u16)
        ensures
            n == self.state().max_iso_packets,
    {
        self.internals().max_iso_packets
    }
}

impl UnfilledTransfer {
    #[verifier::type_invariant]
    spec fn inv(self) -> bool {
        self.inner.wf()
    }

    fn new(max_iso_packets: u16) -> (unfilled: UnfilledTransfer)
        ensures
            unfilled@ == TransferState::fresh(max_iso_packets),
    {
        Self { inner: Internals::new_unfilled(max_iso_packets) }
    }

    /// Arms the transfer to read `length` bytes from a bulk endpoint.
    pub fn fill_bulk_read(
        self,
        device_handle: &DeviceHandle,
        endpoint: ReadEndpoint,
        length: ReadLength,
        timeout: Timeout,
    ) -> (transfer: Transfer)
        ensures
            transfer matches Transfer::ReadBulk(filled) && filled@ == self@.armed(
                TransferType::Bulk,
                device_handle@,
                endpoint@,
                timeout@,
                resized(self@.buffer, length@),
            ),
            transfer.state().descriptor.length == length@,
            transfer.state().wf(),
            transfer.in_phase(),
            forall|i: int|
                self@.buffer.len() <= i < length@ ==> #[trigger] transfer.state().buffer[i] == 0,
            length@ <= self@.capacity ==> transfer.state().capacity == self@.capacity,
    {
        proof {
            use_type_invariant(&self);
        }
        let mut inner = self.inner;
        inner.set_transfer_type(TransferType::Bulk);
        inner.set_device_handle(device_handle);
        inner.set_endpoint(endpoint.as_u8());
        inner.setup_read(length);
        inner.set_timeout(timeout);
        Transfer::ReadBulk(ReadTransfer { inner })
    }

    /// Arms the transfer to write `data` to a bulk endpoint.
    pub fn fill_bulk_write(
        self,
        device_handle: &DeviceHandle,
        endpoint: WriteEndpoint,
        data: &WriteData,
        timeout: Timeout,
    ) -> (transfer: Transfer)
        ensures
            transfer matches Transfer::WriteBulk(filled) && filled@ == self@.armed(
                TransferType::Bulk,
                device_handle@,
                endpoint@,
                timeout@,
                data@,
            ),
            transfer.state().descriptor.length == data@.len(),
            transfer.state().wf(),
            transfer.in_phase(),
            transfer.state().buffer == data@,
            data@.len() <= self@.capacity ==> transfer.state().capacity == self@.capacity,
    {
        proof {
            use_type_invariant(&self);
        }
        let mut inner = self.inner;
        inner.set_transfer_type(TransferType::Bulk);
        inner.set_device_handle(device_handle);
        inner.set_endpoint(endpoint.as_u8());
        inner.setup_write(data);
        inner.set_timeout(timeout);
        Transfer::WriteBulk(WriteTransfer { inner })
    }

    /// Arms the transfer to read `length` bytes from an interrupt endpoint.
    pub fn fill_interrupt_read(
        self,
        device_handle: &DeviceHandle,
        endpoint: ReadEndpoint,
        length: ReadLength,
        timeout: Timeout,
    ) -> (transfer: Transfer)
        ensures
            transfer matches Transfer::ReadInterrupt(filled) && filled@ == self@.armed(
                TransferType::Interrupt,
                device_handle@,
                endpoint@,
                timeout@,
                resized(self@.buffer, length@),
            ),
            transfer.state().descriptor.length == length@,
            transfer.state().wf(),
            transfer.in_phase(),
            forall|i: int|
                self@.buffer.len() <= i < length@ ==> #[trigger] transfer.state().buffer[i] == 0,
            length@ <= self@.capacity ==> transfer.state().capacity == self@.capacity,
    {
        proof {
            use_type_invariant(&self);
        }
        let mut inner = self.inner;
        inner.set_transfer_type(TransferType::Interrupt);
        inner.set_device_handle(device_handle);
        inner.set_endpoint(endpoint.as_u8());
        inner.setup_read(length);
        inner.set_timeout(timeout);
        Transfer::ReadInterrupt(ReadTransfer { inner })
    }

    /// Arms the transfer to write `data` to an interrupt endpoint.
    pub fn fill_interrupt_write(
        self,
        device_handle: &DeviceHandle,
        endpoint: WriteEndpoint,
        data: &WriteData,
        timeout: Timeout,
    ) -> (transfer: Transfer)
        ensures
            transfer matches Transfer::WriteInterrupt(filled) && filled@ == self@.armed(
                TransferType::Interrupt,
                device_handle@,
                endpoint@,
                timeout@,
                data@,
            ),
            transfer.state().descriptor.length == data@.len(),
            transfer.state().wf(),
            transfer.in_phase(),
            transfer.state().buffer == data@,
            data@.len() <= self@.capacity ==> transfer.state().capacity == self@.capacity,
    {
        proof {
            use_type_invariant(&self);
        }
        let mut inner = self.inner;
        inner.set_transfer_type(TransferType::Interrupt);
        inner.set_device_handle(device_handle);
        inner.set_endpoint(endpoint.as_u8());
        inner.setup_write(data);
        inner.set_timeout(timeout);
        Transfer::WriteInterrupt(WriteTransfer { inner })
    }

    /// Arms the transfer for a control request that reads from the device.
    /// A control transfer goes to endpoint 0.
    pub fn fill_control_read(
        self,
        device_handle: &DeviceHandle,
        setup: &ControlReadSetup,
        timeout: Timeout,
    ) -> (transfer: Transfer)
        ensures
            transfer matches Transfer::ReadControl(filled) && filled@ == self@.armed(
                TransferType::Control,
                device_handle@,
                0,
                timeout@,
                control_read_buffer(self@.buffer, setup@),
            ),
            transfer.state().descriptor.length == CONTROL_SETUP_SIZE + setup@.length,
            transfer.state().wf(),
            transfer.in_phase(),
            SetupPacket::from_bytes(transfer.state().buffer) == setup@,
            forall|i: int|
                CONTROL_SETUP_SIZE <= i < CONTROL_SETUP_SIZE + setup@.length && self@.buffer.len()
                    <= i ==> #[trigger] transfer.state().buffer[i] == 0,
            CONTROL_SETUP_SIZE + setup@.length <= self@.capacity ==> transfer.state().capacity
                == self@.capacity,
    {
        proof {
            use_type_invariant(&self);
        }
        let mut inner = self.inner;
        inner.set_transfer_type(TransferType::Control);
        inner.set_device_handle(device_handle);
        inner.set_endpoint(0);
        inner.setup_control_read(setup);
        inner.set_timeout(timeout);
        proof {
            law_setup_packet_ignores_data(
                setup@,
                resized(self@.buffer, (CONTROL_SETUP_SIZE + setup@.length) as nat).skip(
                    CONTROL_SETUP_SIZE as int,
                ),
            );
        }
        Transfer::ReadControl(ReadTransfer { inner })
    }

    /// Arms the transfer for a control request that writes to the device.
    /// A control transfer goes to endpoint 0.
    pub fn fill_control_write(
        self,
        device_handle: &DeviceHandle,
        setup: &ControlWriteSetup,
        timeout: Timeout,
    ) -> (transfer: Transfer)
        ensures
            transfer matches Transfer::WriteControl(filled) && filled@ == self@.armed(
                TransferType::Control,
                device_handle@,
                0,
                timeout@,
                setup.to_bytes(),
            ),
            transfer.state().descriptor.length == CONTROL_SETUP_SIZE + setup.data().len(),
            transfer.state().wf(),
            transfer.in_phase(),
            SetupPacket::from_bytes(transfer.state().buffer) == setup.header(),
            transfer.state().buffer.skip(CONTROL_SETUP_SIZE as int) == setup.data(),
            CONTROL_SETUP_SIZE + setup.data().len() <= self@.capacity ==> transfer.state().capacity
                == self@.capacity,
    {
        proof {
            use_type_invariant(&self);
        }
        let mut inner = self.inner;
        inner.set_transfer_type(TransferType::Control);
        inner.set_device_handle(device_handle);
        inner.set_endpoint(0);
        inner.setup_control_write(setup);
        inner.set_timeout(timeout);
        proof {
            law_setup_packet_ignores_data(setup.header(), setup.data());
            assert(setup.to_bytes().skip(CONTROL_SETUP_SIZE as int) =~= setup.data());
        }
        Transfer::WriteControl(WriteTransfer { inner })
    }
}

impl ReadTransfer {
    #[verifier::type_invariant]
    spec fn inv(self) -> bool {
        self.inner.wf()
    }

    /// Gives the transfer back for another fill. The buffer keeps what it
    /// owns.
    pub fn clear(self) -> (transfer: Transfer)
        ensures
            transfer matches Transfer::Unfilled(unfilled) && unfilled@ == self@,
            transfer.state().capacity == self@.capacity,
            transfer.state().wf(),
    {
        proof {
            use_type_invariant(&self);
        }
        Transfer::Unfilled(UnfilledTransfer { inner: self.inner })
    }

    /// Gives the transfer back for another fill, and releases its buffer.
    pub fn clear_and_shrink(self) -> (transfer: Transfer)
        ensures
            transfer matches Transfer::Unfilled(unfilled) && unfilled@ == self@.released(),
            transfer.state().capacity == 0,
            transfer.state().wf(),
    {
        proof {
            use_type_invariant(&self);
        }
        let mut inner = self.inner;
        inner.shrink();
        Transfer::Unfilled(UnfilledTransfer { inner })
    }
}

impl WriteTransfer {
    #[verifier::type_invariant]
    spec fn inv(self) -> bool {
        self.inner.wf()
    }

    /// Gives the transfer back for another fill. The buffer keeps what it
    /// owns.
    pub fn clear(self) -> (transfer: Transfer)
        ensures
            transfer matches Transfer::Unfilled(unfilled) && unfilled@ == self@,
            transfer.state().capacity == self@.capacity,
            transfer.state().wf(),
    {
        proof {
            use_type_invariant(&self);
        }
        Transfer::Unfilled(UnfilledTransfer { inner: self.inner })
    }

    /// Gives the transfer back for another fill, and releases its buffer.
    pub fn clear_and_shrink(self) -> (transfer: Transfer)
        ensures
            transfer matches Transfer::Unfilled(unfilled) && unfilled@ == self@.released(),
            transfer.state().capacity == 0,
            transfer.state().wf(),
    {
        proof {
            use_type_invariant(&self);
        }
        let mut inner = self.inner;
        inner.shrink();
        Transfer::Unfilled(UnfilledTransfer { inner })
    }
}

/// Every state that the library reaches is well formed: a fresh one, a
/// released one, and one armed with a buffer whose length the native length
/// field can hold.
pub proof fn law_states_stay_well_formed(
    state: TransferState,
    max_iso_packets: u16,
    transfer_type: TransferType,
    dev_handle: usize,
    endpoint: u8,
    timeout: nat,
    buffer: Seq<u8>,
)
    requires
        state.wf(),
        fits_native_length(buffer.len() as int),
    ensures
        TransferState::fresh(max_iso_packets).wf(),
        state.released().wf(),
        state.armed(transfer_type, dev_handle, endpoint, timeout, buffer).wf(),
{
}

/// The length that a fill publishes in the descriptor is the length of the
/// buffer that it leaves: for a read the length asked for, for a write the
/// length of the payload, for a control transfer eight more than the length
/// of its data.
pub proof fn law_published_length(
    state: TransferState,
    transfer_type: TransferType,
    dev_handle: usize,
    endpoint: u8,
    timeout: nat,
    buffer: Seq<u8>,
    length: nat,
    setup: SetupPacket,
    data: Seq<u8>,
)
    requires
        fits_native_length(buffer.len() as int),
    ensures
        state.armed(transfer_type, dev_handle, endpoint, timeout, buffer).descriptor.length
            == buffer.len(),
        resized(state.buffer, length).len() == length,
        control_read_buffer(state.buffer, setup).len() == CONTROL_SETUP_SIZE + setup.length,
        (setup.to_bytes() + data).len() == CONTROL_SETUP_SIZE + data.len(),
{
}

/// A fill that needs no more bytes than the buffer owns leaves what it owns
/// as it is: the buffer is written in place and nothing is added to it.
/// Clearing a transfer keeps its state, so this holds of every fill after a
/// `clear`.
pub proof fn law_refill_within_capacity(
    state: TransferState,
    transfer_type: TransferType,
    dev_handle: usize,
    endpoint: u8,
    timeout: nat,
    buffer: Seq<u8>,
)
    requires
        buffer.len() <= state.capacity,
    ensures
        state.armed(transfer_type, dev_handle, endpoint, timeout, buffer).capacity
            == state.capacity,
{
}

/// A released buffer owns nothing, whatever it owned before, and the fill
/// that follows starts from there: afterwards the buffer owns just the bytes
/// in use.
pub proof fn law_fill_after_release(
    state: TransferState,
    transfer_type: TransferType,
    dev_handle: usize,
    endpoint: u8,
    timeout: nat,
    buffer: Seq<u8>,
)
    ensures
        state.released().capacity == 0,
        state.released().buffer.len() == 0,
        !state.released().descriptor.has_buffer,
        state.released().armed(transfer_type, dev_handle, endpoint, timeout, buffer).capacity
            == buffer.len(),
{
}

/// A buffer that is made ready for a read of `length` bytes holds zero in
/// every byte beyond what was in use before, and keeps what was in use up to
/// `length`. What the buffer owned beyond the bytes in use has no part in
/// it.
pub proof fn law_read_zero_fill(before: Seq<u8>, length: nat)
    ensures
        resized(before, length).len() == length,
        forall|i: int| before.len() <= i < length ==> #[trigger] resized(before, length)[i] == 0,
        forall|i: int|
            0 <= i < length && i < before.len() ==> #[trigger] resized(before, length)[i]
                == before[i],
{
}

} // verus!
