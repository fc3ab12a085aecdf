use std::convert::TryFrom;
use usb_transfer::device_handle::DeviceHandle;
use usb_transfer::fields::{Recipient, RequestType, TransferType};
use usb_transfer::transfer::{
    ControlReadSetup, ControlWriteSetup, ReadEndpoint, ReadLength, Timeout, Transfer, WriteData,
    WriteEndpoint,
};

fn unfilled(transfer: Transfer) -> usb_transfer::transfer::UnfilledTransfer {
    match transfer {
        Transfer::Unfilled(u) => u,
        _ => panic!("the transfer is not unfilled"),
    }
}

fn cleared(transfer: Transfer) -> Transfer {
    match transfer {
        Transfer::Unfilled(u) => Transfer::Unfilled(u),
        Transfer::ReadBulk(t) | Transfer::ReadControl(t) | Transfer::ReadInterrupt(t) => t.clear(),
        Transfer::WriteBulk(t) | Transfer::WriteControl(t) | Transfer::WriteInterrupt(t) => {
            t.clear()
        }
    }
}

fn shrunk(transfer: Transfer) -> Transfer {
    match transfer {
        Transfer::Unfilled(u) => Transfer::Unfilled(u),
        Transfer::ReadBulk(t) | Transfer::ReadControl(t) | Transfer::ReadInterrupt(t) => {
            t.clear_and_shrink()
        }
        Transfer::WriteBulk(t) | Transfer::WriteControl(t) | Transfer::WriteInterrupt(t) => {
            t.clear_and_shrink()
        }
    }
}

fn bulk_write(transfer: Transfer, bytes: &[u8]) -> Transfer {
    let device = DeviceHandle::from_raw(0x1000);
    let endpoint = WriteEndpoint::try_from(0x02u8).unwrap();
    let data = WriteData::try_from(bytes).unwrap();
    unfilled(transfer).fill_bulk_write(&device, endpoint, &data, Timeout::none())
}

fn bulk_read(transfer: Transfer, n: usize) -> Transfer {
    let device = DeviceHandle::from_raw(0x1000);
    let endpoint = ReadEndpoint::try_from(0x81u8).unwrap();
    let length = ReadLength::try_from(n).unwrap();
    unfilled(transfer).fill_bulk_read(&device, endpoint, length, Timeout::none())
}

#[test]
fn device_handle_keeps_its_address() {
    assert_eq!(DeviceHandle::from_raw(0).as_raw(), 0);
    assert_eq!(DeviceHandle::from_raw(0xdead_beef).as_raw(), 0xdead_beef);
}

#[test]
fn new_transfer_is_unfilled_and_empty() {
    let transfer = Transfer::new(5);
    assert!(matches!(transfer, Transfer::Unfilled(_)));
    let d = transfer.descriptor();
    assert_eq!(d.dev_handle, 0);
    assert_eq!(d.flags, 0);
    assert_eq!(d.endpoint, 0);
    assert_eq!(d.transfer_type, TransferType::Control);
    assert_eq!(d.timeout, 0);
    assert_eq!(d.length, 0);
    assert!(!d.has_buffer);
    assert!(transfer.buffer().is_empty());
    assert_eq!(transfer.capacity(), 0);
    assert_eq!(transfer.max_iso_packets(), 5);
}

#[test]
fn fill_bulk_read_scenario() {
    let device = DeviceHandle::from_raw(0x4000);
    let endpoint = ReadEndpoint::try_from(0x81u8).unwrap();
    let length = ReadLength::try_from(64usize).unwrap();
    let timeout = Timeout::from_millis(1000);
    let transfer = unfilled(Transfer::new(0)).fill_bulk_read(&device, endpoint, length, timeout);
    assert!(matches!(transfer, Transfer::ReadBulk(_)));
    let d = transfer.descriptor();
    assert_eq!(d.length, 64);
    assert_eq!(d.endpoint, 0x81);
    assert_eq!(d.transfer_type, TransferType::Bulk);
    assert_eq!(d.timeout, 1000);
    assert_eq!(d.dev_handle, 0x4000);
    assert_eq!(d.flags, 0);
    assert!(d.has_buffer);
    assert_eq!(transfer.buffer(), &[0u8; 64][..]);
    assert_eq!(transfer.capacity(), 64);
    assert_eq!(transfer.max_iso_packets(), 0);
}

#[test]
fn fill_bulk_write_publishes_the_payload() {
    let device = DeviceHandle::from_raw(0x4000);
    let endpoint = WriteEndpoint::try_from(0x02u8).unwrap();
    let bytes = [10u8, 20, 30];
    let data = WriteData::try_from(&bytes[..]).unwrap();
    let transfer =
        unfilled(Transfer::new(0)).fill_bulk_write(&device, endpoint, &data, Timeout::from_millis(5));
    assert!(matches!(transfer, Transfer::WriteBulk(_)));
    let d = transfer.descriptor();
    assert_eq!(d.length, 3);
    assert_eq!(d.endpoint, 0x02);
    assert_eq!(d.transfer_type, TransferType::Bulk);
    assert_eq!(d.timeout, 5);
    assert_eq!(d.dev_handle, 0x4000);
    assert!(d.has_buffer);
    assert_eq!(transfer.buffer(), &bytes[..]);
    assert_eq!(transfer.capacity(), 3);
}

#[test]
fn fill_bulk_write_without_payload() {
    let transfer = bulk_write(Transfer::new(0), &[]);
    assert!(matches!(transfer, Transfer::WriteBulk(_)));
    let d = transfer.descriptor();
    assert_eq!(d.length, 0);
    assert!(d.has_buffer);
    assert!(transfer.buffer().is_empty());
    assert_eq!(transfer.capacity(), 0);
}

#[test]
fn fill_interrupt_read_publishes_the_length() {
    let device = DeviceHandle::from_raw(0x10);
    let endpoint = ReadEndpoint::try_from(0x83u8).unwrap();
    let length = ReadLength::try_from(8usize).unwrap();
    let transfer =
        unfilled(Transfer::new(2)).fill_interrupt_read(&device, endpoint, length, Timeout::none());
    assert!(matches!(transfer, Transfer::ReadInterrupt(_)));
    let d = transfer.descriptor();
    assert_eq!(d.length, 8);
    assert_eq!(d.endpoint, 0x83);
    assert_eq!(d.transfer_type, TransferType::Interrupt);
    assert_eq!(d.timeout, 0);
    assert_eq!(d.dev_handle, 0x10);
    assert!(d.has_buffer);
    assert_eq!(transfer.buffer(), &[0u8; 8][..]);
    assert_eq!(transfer.max_iso_packets(), 2);
}

#[test]
fn fill_interrupt_write_publishes_the_payload() {
    let device = DeviceHandle::from_raw(0x10);
    let endpoint = WriteEndpoint::try_from(0x04u8).unwrap();
    let bytes = [0xF0u8, 0x0F];
    let data = WriteData::try_from(&bytes[..]).unwrap();
    let transfer = unfilled(Transfer::new(0)).fill_interrupt_write(
        &device,
        endpoint,
        &data,
        Timeout::from_millis(20),
    );
    assert!(matches!(transfer, Transfer::WriteInterrupt(_)));
    let d = transfer.descriptor();
    assert_eq!(d.length, 2);
    assert_eq!(d.endpoint, 0x04);
    assert_eq!(d.transfer_type, TransferType::Interrupt);
    assert_eq!(d.timeout, 20);
    assert!(d.has_buffer);
    assert_eq!(transfer.buffer(), &bytes[..]);
}

#[test]
fn fill_control_write_scenario() {
    let device = DeviceHandle::from_raw(0x77);
    let data = [0xAAu8, 0xBB];
    let setup =
        ControlWriteSetup::new(Recipient::Device, RequestType::Vendor, 0x01, 0x1234, 0, &data[..])
            .unwrap();
    assert_eq!(setup.total_length(), 10);
    let transfer =
        unfilled(Transfer::new(0)).fill_control_write(&device, &setup, Timeout::from_millis(100));
    assert!(matches!(transfer, Transfer::WriteControl(_)));
    assert_eq!(
        transfer.buffer(),
        &[0x40u8, 0x01, 0x34, 0x12, 0x00, 0x00, 0x02, 0x00, 0xAA, 0xBB][..]
    );
    let d = transfer.descriptor();
    assert_eq!(d.length, 10);
    assert_eq!(d.endpoint, 0);
    assert_eq!(d.transfer_type, TransferType::Control);
    assert_eq!(d.timeout, 100);
    assert_eq!(d.dev_handle, 0x77);
    assert!(d.has_buffer);
}

#[test]
fn fill_control_write_without_data() {
    let device = DeviceHandle::from_raw(0x77);
    let setup =
        ControlWriteSetup::new(Recipient::Interface, RequestType::Class, 0x0A, 0, 3, &[][..])
            .unwrap();
    let transfer = unfilled(Transfer::new(0)).fill_control_write(&device, &setup, Timeout::none());
    assert_eq!(transfer.buffer(), &[0x21u8, 0x0A, 0, 0, 3, 0, 0, 0][..]);
    assert_eq!(transfer.descriptor().length, 8);
}

#[test]
fn fill_control_read_writes_header_and_leaves_room() {
    let device = DeviceHandle::from_raw(0x77);
    let setup =
        ControlReadSetup::new(Recipient::Device, RequestType::Standard, 6, 0x0100, 0, 18).unwrap();
    let transfer =
        unfilled(Transfer::new(0)).fill_control_read(&device, &setup, Timeout::from_millis(50));
    assert!(matches!(transfer, Transfer::ReadControl(_)));
    let d = transfer.descriptor();
    assert_eq!(d.length, 26);
    assert_eq!(d.endpoint, 0);
    assert_eq!(d.transfer_type, TransferType::Control);
    assert_eq!(d.timeout, 50);
    assert!(d.has_buffer);
    let buffer = transfer.buffer();
    assert_eq!(buffer.len(), 26);
    assert_eq!(&buffer[..8], &[0x80u8, 6, 0x00, 0x01, 0, 0, 18, 0][..]);
    assert_eq!(&buffer[8..], &[0u8; 18][..]);
}

#[test]
fn control_header_reads_back_from_the_buffer() {
    let device = DeviceHandle::from_raw(1);
    let setup =
        ControlReadSetup::new(Recipient::Endpoint, RequestType::Class, 0xFE, 0xA55A, 0x0203, 300)
            .unwrap();
    let transfer = unfilled(Transfer::new(0)).fill_control_read(&device, &setup, Timeout::none());
    let buffer = transfer.buffer();
    assert_eq!(buffer[0], 0xA2);
    assert_eq!(buffer[1], 0xFE);
    assert_eq!(u16::from_le_bytes([buffer[2], buffer[3]]), 0xA55A);
    assert_eq!(u16::from_le_bytes([buffer[4], buffer[5]]), 0x0203);
    assert_eq!(u16::from_le_bytes([buffer[6], buffer[7]]), 300);
    assert_eq!(buffer.len(), 308);
}

#[test]
fn published_length_follows_the_fill() {
    for n in [0usize, 1, 7, 512, 70_000] {
        let transfer = bulk_read(Transfer::new(0), n);
        assert_eq!(transfer.descriptor().length as usize, n);
        assert_eq!(transfer.buffer().len(), n);
    }
    for n in [0usize, 1, 7, 512] {
        let bytes = vec![3u8; n];
        let transfer = bulk_write(Transfer::new(0), &bytes);
        assert_eq!(transfer.descriptor().length as usize, n);
        assert_eq!(transfer.buffer().len(), n);
    }
    for n in [0u16, 1, 7, 512, 65527] {
        let device = DeviceHandle::from_raw(1);
        let setup =
            ControlReadSetup::new(Recipient::Device, RequestType::Vendor, 1, 0, 0, n).unwrap();
        let transfer =
            unfilled(Transfer::new(0)).fill_control_read(&device, &setup, Timeout::none());
        assert_eq!(transfer.descriptor().length as usize, 8 + n as usize);
        assert_eq!(transfer.buffer().len(), 8 + n as usize);
    }
}

#[test]
fn clear_keeps_the_state() {
    let transfer = bulk_write(Transfer::new(4), &[1, 2, 3, 4]);
    let before = transfer.descriptor();
    let transfer = cleared(transfer);
    assert!(matches!(transfer, Transfer::Unfilled(_)));
    assert_eq!(transfer.descriptor(), before);
    assert_eq!(transfer.buffer(), &[1u8, 2, 3, 4][..]);
    assert_eq!(transfer.capacity(), 4);
    assert_eq!(transfer.max_iso_packets(), 4);
}

#[test]
fn refill_within_capacity_keeps_what_the_buffer_owns() {
    let transfer = bulk_read(Transfer::new(0), 100);
    assert_eq!(transfer.capacity(), 100);
    let transfer = bulk_read(cleared(transfer), 10);
    assert_eq!(transfer.capacity(), 100);
    assert_eq!(transfer.buffer().len(), 10);
    let transfer = bulk_write(cleared(transfer), &[9u8; 100]);
    assert_eq!(transfer.capacity(), 100);
    assert_eq!(transfer.buffer(), &[9u8; 100][..]);
    let transfer = bulk_read(cleared(transfer), 0);
    assert_eq!(transfer.capacity(), 100);
    assert!(transfer.buffer().is_empty());
}

#[test]
fn refill_beyond_capacity_adds_what_is_missing() {
    let transfer = bulk_read(Transfer::new(0), 16);
    let transfer = bulk_read(cleared(transfer), 40);
    assert_eq!(transfer.capacity(), 40);
    assert_eq!(transfer.buffer(), &[0u8; 40][..]);
}

#[test]
fn clear_and_shrink_releases_the_buffer() {
    let transfer = bulk_write(Transfer::new(1), &[1, 2, 3, 4]);
    let filled = transfer.descriptor();
    let transfer = shrunk(transfer);
    assert!(matches!(transfer, Transfer::Unfilled(_)));
    let d = transfer.descriptor();
    assert_eq!(d.length, 0);
    assert!(!d.has_buffer);
    assert_eq!(d.endpoint, filled.endpoint);
    assert_eq!(d.transfer_type, filled.transfer_type);
    assert_eq!(d.timeout, filled.timeout);
    assert_eq!(d.dev_handle, filled.dev_handle);
    assert!(transfer.buffer().is_empty());
    assert_eq!(transfer.capacity(), 0);
    assert_eq!(transfer.max_iso_packets(), 1);
}

#[test]
fn fill_after_shrink_starts_from_nothing() {
    let transfer = bulk_write(Transfer::new(0), &[0xEEu8; 200]);
    let transfer = bulk_read(shrunk(transfer), 12);
    assert_eq!(transfer.capacity(), 12);
    assert_eq!(transfer.buffer(), &[0u8; 12][..]);
    assert!(transfer.descriptor().has_buffer);
}

#[test]
fn read_zero_fills_what_comes_into_use() {
    let transfer = bulk_write(Transfer::new(0), &[1, 2, 3, 4]);
    let transfer = bulk_read(cleared(transfer), 2);
    assert_eq!(transfer.buffer(), &[1u8, 2][..]);
    let transfer = bulk_read(cleared(transfer), 4);
    assert_eq!(transfer.buffer(), &[1u8, 2, 0, 0][..]);
    let transfer = bulk_read(cleared(transfer), 6);
    assert_eq!(transfer.buffer(), &[1u8, 2, 0, 0, 0, 0][..]);
    assert_eq!(transfer.capacity(), 6);
}

#[test]
fn read_after_longer_write_hides_the_tail() {
    let transfer = bulk_write(Transfer::new(0), &[0xFFu8; 32]);
    let transfer = bulk_read(cleared(transfer), 0);
    assert!(transfer.buffer().is_empty());
    let transfer = bulk_read(cleared(transfer), 32);
    assert_eq!(transfer.buffer(), &[0u8; 32][..]);
    assert_eq!(transfer.capacity(), 32);
}

#[test]
fn control_read_over_a_used_buffer() {
    let bytes: Vec<u8> = (1u8..=12).collect();
    let transfer = bulk_write(Transfer::new(0), &bytes);
    let device = DeviceHandle::from_raw(1);
    let setup =
        ControlReadSetup::new(Recipient::Device, RequestType::Vendor, 5, 0x0201, 0x0403, 6).unwrap();
    let transfer =
        unfilled(cleared(transfer)).fill_control_read(&device, &setup, Timeout::none());
    assert_eq!(
        transfer.buffer(),
        &[0xC0u8, 5, 0x01, 0x02, 0x03, 0x04, 6, 0, 9, 10, 11, 12, 0, 0][..]
    );
    assert_eq!(transfer.capacity(), 14);
}

#[test]
fn write_replaces_what_the_buffer_held() {
    let transfer = bulk_read(Transfer::new(0), 5);
    let transfer = bulk_write(cleared(transfer), &[7, 8]);
    assert_eq!(transfer.buffer(), &[7u8, 8][..]);
    assert_eq!(transfer.descriptor().length, 2);
    assert_eq!(transfer.capacity(), 5);
}

#[test]
fn refill_overwrites_every_field_of_the_last_fill() {
    let transfer = bulk_read(Transfer::new(0), 5);
    let device = DeviceHandle::from_raw(0x99);
    let endpoint = WriteEndpoint::try_from(0x05u8).unwrap();
    let data = WriteData::try_from(&[1u8][..]).unwrap();
    let transfer = unfilled(cleared(transfer)).fill_interrupt_write(
        &device,
        endpoint,
        &data,
        Timeout::from_millis(9),
    );
    let d = transfer.descriptor();
    assert_eq!(d.dev_handle, 0x99);
    assert_eq!(d.endpoint, 0x05);
    assert_eq!(d.transfer_type, TransferType::Interrupt);
    assert_eq!(d.timeout, 9);
    assert_eq!(d.length, 1);
}
