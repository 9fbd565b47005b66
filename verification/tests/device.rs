use vsock_device::device::ResourceConstraint;
use vsock_device::device::Vsock;
use vsock_device::device::VsockState;
use vsock_device::device::VIRTIO_ID_VSOCK;
use vsock_device::device::VSOCK_AVAIL_FEATURES;
use vsock_device::metrics::bump;
use vsock_device::metrics::VsockDeviceMetrics;
use vsock_device::ActivateError;
use vsock_device::MuxerError;
use vsock_device::VsockError;
use vsock_device::backend::VsockBackend;

fn test_bytes(got: &[u8], expected: &[u8]) {
    assert_eq!(got, expected);
}

#[test]
fn test_virtio_device() {
    let cid: u64 = 52;
    let mut device = Vsock::new(cid, vec![256, 256, 256]).unwrap();
    let device_features = VSOCK_AVAIL_FEATURES;
    let driver_features: u64 = VSOCK_AVAIL_FEATURES | 1 | (1 << 32);
    let device_pages = [
        (device_features & 0xffff_ffff) as u32,
        (device_features >> 32) as u32,
    ];
    let driver_pages = [
        (driver_features & 0xffff_ffff) as u32,
        (driver_features >> 32) as u32,
    ];
    assert_eq!(device.device_type(), VIRTIO_ID_VSOCK);
    assert_eq!(device.get_avail_features(0), device_pages[0]);
    assert_eq!(device.get_avail_features(1), device_pages[1]);
    assert_eq!(device.get_avail_features(2), 0);

    // Ack device features, page 0.
    device.set_acked_features(0, driver_pages[0]);
    // Ack device features, page 1.
    device.set_acked_features(1, driver_pages[1]);
    // Ack some bogus page (i.e. 2). This should have no side effect.
    device.set_acked_features(2, 0);
    // Attempt to un-ack the first feature page. This should have no side effect.
    device.set_acked_features(0, !driver_pages[0]);
    // Check that no side effect are present, and that the acked features are exactly the same
    // as the device features.
    assert_eq!(device.acked_features(), device_features & driver_features);

    // Test reading 32-bit chunks.
    let mut data = vec![0u8; 4];
    device.read_config(0, &mut data);
    test_bytes(&data[..], &(cid & 0xffff_ffff).to_le_bytes()[..4]);
    let mut data = vec![0u8; 4];
    device.read_config(4, &mut data);
    test_bytes(&data[..], &((cid >> 32) & 0xffff_ffff).to_le_bytes()[..4]);

    // Test reading 64-bit.
    let mut data = vec![0u8; 8];
    device.read_config(0, &mut data);
    test_bytes(&data, &cid.to_le_bytes());

    // Check out-of-bounds reading.
    let mut data = vec![0u8, 1, 2, 3, 4, 5, 6, 7];
    device.read_config(2, &mut data);
    assert_eq!(data, [0u8, 0, 0, 0, 0, 0, 6, 7]);

    // Just covering lines here, since the vsock device has no writable config.
    let data = vec![0u8, 0, 0, 0];
    device.write_config(0, &data);

    // Test activation.
    device.activate(&vec![2, 2, 2]).unwrap();
}

#[test]
fn test_get_vsock_metrics() {
    let mut vsock_metrics = VsockDeviceMetrics::default();
    bump(&mut vsock_metrics.activate_fails);
    assert_eq!(vsock_metrics.activate_fails, 1);
    bump(&mut vsock_metrics.activate_fails);
    let metrics = vsock_metrics;
    assert_eq!(vsock_metrics.activate_fails, 2);
    assert_eq!(metrics.activate_fails, 2);
}

#[test]
fn test_config_space_reads() {
    let cid: u64 = 0x0102_0304_0506_0708;
    let mut device = Vsock::new(cid, vec![256, 256, 256]).unwrap();
    let mut data = vec![0u8; 4];
    device.read_config(0, &mut data);
    assert_eq!(data, [0x08, 0x07, 0x06, 0x05]);
    let mut data = vec![0u8; 4];
    device.read_config(4, &mut data);
    assert_eq!(data, [0x04, 0x03, 0x02, 0x01]);
    let mut data = vec![0u8; 8];
    device.read_config(0, &mut data);
    assert_eq!(data, [0x08, 0x07, 0x06, 0x05, 0x04, 0x03, 0x02, 0x01]);
    assert_eq!(device.get_metrics().cfg_fails, 0);

    // An out-of-range offset zero-fills the buffer and counts one failure.
    let mut data = vec![9u8, 9, 9];
    device.read_config(8, &mut data);
    assert_eq!(data, [0, 0, 0]);
    assert_eq!(device.get_metrics().cfg_fails, 1);
}

#[test]
fn test_config_space_write_rejected() {
    let cid: u64 = 7;
    let mut device = Vsock::new(cid, vec![256, 256, 256]).unwrap();
    let payload = vec![0xffu8; 8];
    device.write_config(0, &payload);
    assert_eq!(device.get_metrics().cfg_fails, 1);
    device.write_config(3, &payload);
    assert_eq!(device.get_metrics().cfg_fails, 2);
    // Writes had no effect on subsequent reads.
    let mut data = vec![0u8; 8];
    device.read_config(0, &mut data);
    assert_eq!(data, cid.to_le_bytes());
}

#[test]
fn test_activation_atomic() {
    let mut device = Vsock::new(3, vec![256, 256, 256]).unwrap();
    // Queue-size validation failure: counter up once, device still inert.
    assert_eq!(
        device.activate(&vec![512, 2, 2]),
        Err(ActivateError::InvalidQueueConfig)
    );
    assert_eq!(device.get_metrics().activate_fails, 1);
    assert_eq!(
        device.activate(&vec![2, 2]),
        Err(ActivateError::InvalidQueueConfig)
    );
    assert_eq!(device.get_metrics().activate_fails, 2);
    // Still unactivated: backends can be added.
    assert!(matches!(device.state, VsockState::Unactivated(_)));
    device
        .add_backend(0, VsockBackend::Echo { capacity: 64 }, true)
        .unwrap();
    // Successful activation: no further failure counted.
    device.activate(&vec![2, 2, 2]).unwrap();
    assert_eq!(device.get_metrics().activate_fails, 2);
    assert!(matches!(device.state, VsockState::Activated(_)));
    // Adding a backend after activation always fails with the dedicated error.
    assert_eq!(
        device.add_backend(1, VsockBackend::Sink, false),
        Err(VsockError::Muxer(MuxerError::BackendAddAfterActivated))
    );
}

#[test]
fn test_resource_requirements() {
    let device = Vsock::new(3, vec![256, 256, 256]).unwrap();
    let mut requests: Vec<ResourceConstraint> = Vec::new();
    device.get_resource_requirements(&mut requests, false);
    assert_eq!(requests, vec![ResourceConstraint::LegacyIrq { irq: None }]);
    let mut requests: Vec<ResourceConstraint> = Vec::new();
    device.get_resource_requirements(&mut requests, true);
    assert_eq!(
        requests,
        vec![
            ResourceConstraint::LegacyIrq { irq: None },
            ResourceConstraint::GenericIrq { size: 4 },
        ]
    );
}

#[test]
fn test_remove_drops_state() {
    let mut device = Vsock::new(3, vec![256; 3]).unwrap();
    device.activate(&vec![2, 2, 2]).unwrap();
    device.remove();
    assert!(matches!(device.state, VsockState::Removed));
    // After removal the muxer is gone, so adding a backend fails the same way.
    assert_eq!(
        device.add_backend(1, VsockBackend::Sink, false),
        Err(VsockError::Muxer(MuxerError::BackendAddAfterActivated))
    );
}

#[test]
fn test_backend_registry_clashes() {
    let mut device = Vsock::new(3, vec![256; 3]).unwrap();
    device
        .add_backend(0, VsockBackend::Echo { capacity: 64 }, true)
        .unwrap();
    // Only one default backend may exist.
    assert_eq!(
        device.add_backend(0, VsockBackend::Sink, true),
        Err(VsockError::Muxer(MuxerError::BackendAlreadyRegistered))
    );
    device.add_backend(50, VsockBackend::Sink, false).unwrap();
    // Only one backend per destination port.
    assert_eq!(
        device.add_backend(50, VsockBackend::Sink, false),
        Err(VsockError::Muxer(MuxerError::BackendAlreadyRegistered))
    );
    // A different port is still free.
    device.add_backend(51, VsockBackend::Sink, false).unwrap();
}
