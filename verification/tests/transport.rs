use virtio_mmio::devtype::resolve_device_type;
use virtio_mmio::layout::{align_up, legacy_layout_ok};
use virtio_mmio::status::{ACKNOWLEDGE, DRIVER, FEATURES_OK};
use virtio_mmio::{DeviceStatus, DeviceType, MmioError, MmioTransport, MmioVersion, VirtIOHeader};

fn modern_transport(device_id: u32) -> MmioTransport {
    let header = VirtIOHeader::make_fake_header(2, device_id, 0x1af4, 0, 256);
    MmioTransport::new(header).unwrap()
}

fn legacy_transport(device_id: u32) -> MmioTransport {
    let header = VirtIOHeader::make_fake_header(1, device_id, 0x1af4, 0, 256);
    MmioTransport::new(header).unwrap()
}

#[test]
fn device_type_table() {
    let table = [
        (1, DeviceType::Network),
        (2, DeviceType::Block),
        (3, DeviceType::Console),
        (4, DeviceType::EntropySource),
        (5, DeviceType::MemoryBalloonTraditional),
        (6, DeviceType::IoMemory),
        (7, DeviceType::Rpmsg),
        (8, DeviceType::ScsiHost),
        (9, DeviceType::_9P),
        (10, DeviceType::Mac80211),
        (11, DeviceType::RprocSerial),
        (12, DeviceType::VirtioCAIF),
        (13, DeviceType::MemoryBalloon),
        (16, DeviceType::GPU),
        (17, DeviceType::Timer),
        (18, DeviceType::Input),
        (19, DeviceType::Socket),
        (20, DeviceType::Crypto),
        (21, DeviceType::SignalDistributionModule),
        (22, DeviceType::Pstore),
        (23, DeviceType::IOMMU),
        (24, DeviceType::Memory),
    ];
    for (id, expected) in table {
        assert_eq!(resolve_device_type(id), expected);
        let transport = modern_transport(id);
        assert_eq!(transport.device_type(), expected);
    }
    for id in [0, 14, 15, 25, 100, u32::MAX] {
        assert_eq!(resolve_device_type(id), DeviceType::Invalid);
    }
}

#[test]
fn bad_magic_rejected() {
    let mut header = VirtIOHeader::make_fake_header(2, 2, 0x1af4, 0, 256);
    header.set_magic(0xdead_beef);
    let result = MmioTransport::new(header);
    assert_eq!(result.unwrap_err(), MmioError::BadMagic(0xdead_beef));
}

#[test]
fn magic_checked_before_everything_else() {
    // Zero device id and a bad version as well: the magic failure wins.
    let mut header = VirtIOHeader::make_fake_header(9, 0, 0, 0, 0);
    header.set_magic(0x1234_5678);
    let result = MmioTransport::new(header);
    assert_eq!(result.unwrap_err(), MmioError::BadMagic(0x1234_5678));
}

#[test]
fn zero_device_id_rejected_before_version() {
    // The version is bad too; the zero id is reported first.
    let header = VirtIOHeader::make_fake_header(9, 0, 0x1af4, 0, 256);
    let result = MmioTransport::new(header);
    assert_eq!(result.unwrap_err(), MmioError::ZeroDeviceId);
}

#[test]
fn unsupported_version_rejected() {
    for version in [0, 3, 4, 0xffff_ffff] {
        let header = VirtIOHeader::make_fake_header(version, 2, 0x1af4, 0, 256);
        let result = MmioTransport::new(header);
        assert_eq!(result.unwrap_err(), MmioError::UnsupportedVersion(version));
    }
}

#[test]
fn version_variants() {
    assert_eq!(legacy_transport(2).version(), MmioVersion::Legacy);
    assert_eq!(modern_transport(2).version(), MmioVersion::Modern);
    assert_eq!(MmioVersion::try_from_u32(1).unwrap(), MmioVersion::Legacy);
    assert_eq!(MmioVersion::try_from_u32(2).unwrap(), MmioVersion::Modern);
    assert_eq!(
        MmioVersion::try_from_u32(5).unwrap_err(),
        MmioError::UnsupportedVersion(5)
    );
    assert_eq!(MmioVersion::Legacy.to_u32(), 1);
    assert_eq!(MmioVersion::Modern.to_u32(), 2);
}

#[test]
fn driver_features_roundtrip() {
    let mut transport = modern_transport(2);
    for mask in [0u64, 1, 0xffff_ffff_ffff_ffff, 0xdead_beef_0123_4567, 1 << 63] {
        transport.write_driver_features(mask);
        assert_eq!(transport.driver_features(), mask);
    }
}

#[test]
fn device_features_recomposed_from_windows() {
    let header = VirtIOHeader::make_fake_header(2, 2, 0x1af4, 0x8000_0001, 256);
    let mut transport = MmioTransport::new(header).unwrap();
    assert_eq!(transport.read_device_features(), 0x8000_0001u64);
}

#[test]
fn ack_interrupt_nothing_pending() {
    let mut transport = modern_transport(2);
    assert!(!transport.ack_interrupt());
}

#[test]
fn ack_interrupt_pending_bits() {
    let mut header = VirtIOHeader::make_fake_header(2, 2, 0x1af4, 0, 256);
    header.set_interrupt_status(0x3);
    let mut transport = MmioTransport::new(header).unwrap();
    assert!(transport.ack_interrupt());
}

#[test]
fn legacy_layout_check() {
    // 4 descriptors of 16 bytes, then a 14-byte driver ring rounded up to
    // the next page for the device ring.
    assert!(legacy_layout_ok(0x4000, 0x4040, 0x5000, 4));
    // Driver area not adjacent to the descriptor table.
    assert!(!legacy_layout_ok(0x4000, 0x4041, 0x5000, 4));
    // Device area not at the rounded-up offset.
    assert!(!legacy_layout_ok(0x4000, 0x4040, 0x5001, 4));
    // Descriptor table not page aligned.
    assert!(!legacy_layout_ok(0x4008, 0x4048, 0x5008, 4));
    // Page number would not fit the 32-bit register.
    assert!(!legacy_layout_ok(0x1_0000_0000_0000, 0x1_0000_0000_0040, 0x1_0000_0000_1000, 4));
}

#[test]
fn legacy_queue_setup() {
    let mut transport = legacy_transport(2);
    transport.set_guest_page_size(4096);
    assert!(!transport.queue_used(0));
    transport.queue_set(0, 4, 0x4000, 0x4040, 0x5000);
    assert!(transport.queue_used(0));
}

#[test]
fn modern_queue_setup() {
    let mut transport = modern_transport(2);
    assert!(!transport.queue_used(0));
    transport.queue_set(
        0,
        256,
        0x8_0000_1000,
        0x8_0000_2000,
        0x8_0000_3000,
    );
    assert!(transport.queue_used(0));
}

#[test]
fn block_device_scenario() {
    let header = VirtIOHeader::make_fake_header(2, 2, 0x1af4, 0x0000_0001, 256);
    let mut transport = MmioTransport::new(header).unwrap();
    assert_eq!(transport.version(), MmioVersion::Modern);
    assert_eq!(transport.device_type(), DeviceType::Block);
    assert_eq!(transport.vendor_id(), 0x1af4);
    assert_eq!(transport.read_device_features(), 1);
    assert_eq!(transport.max_queue_size(), 256);
}

#[test]
fn status_roundtrip() {
    let mut transport = modern_transport(2);
    let progress = DeviceStatus::from_bits(ACKNOWLEDGE | DRIVER);
    transport.set_status(progress);
    assert_eq!(transport.status(), progress);
    assert_eq!(transport.status().bits(), 3);
    transport.set_status(DeviceStatus::empty());
    assert!(transport.status().is_empty());
}

#[test]
fn status_set_operations() {
    let acknowledged = DeviceStatus::from_bits(ACKNOWLEDGE);
    let negotiated = acknowledged.union(DeviceStatus::from_bits(DRIVER | FEATURES_OK));
    assert_eq!(negotiated.bits(), ACKNOWLEDGE | DRIVER | FEATURES_OK);
    assert!(negotiated.contains(acknowledged));
    assert!(!acknowledged.contains(negotiated));
    assert!(DeviceStatus::empty().is_empty());
    assert!(!negotiated.is_empty());
}

#[test]
fn align_up_values() {
    assert_eq!(align_up(0), 0);
    assert_eq!(align_up(1), 4096);
    assert_eq!(align_up(4096), 4096);
    assert_eq!(align_up(4097), 8192);
    assert_eq!(align_up(78), 4096);
}
