use juhradiald::hidpp::device::{
    be16, feature_index_request, get_feature_index, high_byte, low_byte, parse_dpi_list,
    ping_request, reply_or_error, validate_hidpp20,
};
use juhradiald::hidpp::discovery::{classify_uevent, find_device, on_interface_two};
use juhradiald::hidpp::exchange::HidppRequest;
use juhradiald::hidpp::setup::SetupStage;
use juhradiald::hidpp::{
    ConnectionType, HapticError, HidppDevice, Mx4HapticPattern, SessionSetup,
};

fn reply(feature_index: u8, function: u8, payload: &[u8]) -> Option<Vec<u8>> {
    let mut bytes = vec![0x11, 0x02, feature_index, (function << 4) | 0x01];
    bytes.extend_from_slice(payload);
    Some(bytes)
}

/// Opens a session with a device that reports the given feature identifiers.
fn open_with(connection: ConnectionType, features: &[u16]) -> HidppDevice {
    let mut setup = HidppDevice::open(connection);
    setup = setup.on_reply(reply(0x00, 0x01, &[0x04, 0x02, 0xAA]));
    setup = setup.on_reply(reply(0x00, 0x00, &[0x01, 0x00, 0x00]));
    setup = setup.on_reply(reply(0x01, 0x00, &[features.len() as u8, 0x00, 0x00]));
    for id in features {
        setup = setup.on_reply(reply(0x01, 0x01, &[(id >> 8) as u8, (id & 0xFF) as u8, 0x00]));
    }
    assert!(setup.is_done());
    setup.finish().expect("the device was rejected")
}

#[test]
fn bytes_of_a_word() {
    assert_eq!(high_byte(0x2201), 0x22);
    assert_eq!(low_byte(0x2201), 0x01);
    assert_eq!(be16(0x03, 0x20), 800);
    assert_eq!(be16(0xFF, 0xFF), 0xFFFF);
    assert_eq!(be16(0x00, 0x00), 0);
}

#[test]
fn the_dpi_list_stops_at_the_zero_sentinel() {
    let payload = [0x03, 0x20, 0x01, 0x90, 0x00, 0x00];
    assert_eq!(parse_dpi_list(&payload, 0), vec![800, 400]);
}

#[test]
fn the_dpi_list_ignores_what_follows_the_sentinel() {
    let payload = [0x03, 0x20, 0x00, 0x00, 0x01, 0x90];
    assert_eq!(parse_dpi_list(&payload, 0), vec![800]);
}

#[test]
fn the_dpi_list_leaves_out_step_markers() {
    let payload = [0x01, 0x90, 0xE0, 0x32, 0x1F, 0x40, 0x00, 0x00];
    assert_eq!(parse_dpi_list(&payload, 0), vec![400, 8000]);
    assert_eq!(parse_dpi_list(&[0xDF, 0xFF, 0xE0, 0x00, 0xFF, 0xFF], 0), vec![0xDFFF]);
}

#[test]
fn the_dpi_list_ignores_a_single_byte_at_the_end() {
    assert_eq!(parse_dpi_list(&[0x03, 0x20, 0x01], 0), vec![800]);
    assert_eq!(parse_dpi_list(&[0x03], 0), Vec::<u16>::new());
    assert_eq!(parse_dpi_list(&[], 0), Vec::<u16>::new());
    assert_eq!(parse_dpi_list(&[1, 2, 3, 4], 9), Vec::<u16>::new());
}

#[test]
fn the_ping_must_be_echoed() {
    assert_eq!(ping_request(), HidppRequest::new(0x00, 0x01, &[0x00, 0x00, 0xAA]));
    assert!(validate_hidpp20(&Some(vec![0x10, 0x02, 0x00, 0x11, 0x04, 0x02, 0xAA])));
    assert!(!validate_hidpp20(&Some(vec![0x10, 0x02, 0x00, 0x11, 0x04, 0x02, 0xAB])));
    assert!(!validate_hidpp20(&Some(vec![0x10, 0x02, 0x00, 0x11, 0x04, 0xAA])));
    assert!(!validate_hidpp20(&None));
}

#[test]
fn the_index_of_a_feature_is_read_from_the_fifth_byte() {
    assert_eq!(get_feature_index(&Some(vec![0x10, 0x02, 0x00, 0x01, 0x07, 0, 0])), Some(7));
    assert_eq!(get_feature_index(&Some(vec![0x10, 0x02, 0x00, 0x01, 0x00, 0, 0])), None);
    assert_eq!(get_feature_index(&Some(vec![0x10, 0x02, 0x00, 0x01])), None);
    assert_eq!(get_feature_index(&None), None);
}

#[test]
fn no_request_is_built_for_a_forbidden_feature() {
    assert_eq!(
        feature_index_request(0x2201).unwrap(),
        HidppRequest::new(0x00, 0x00, &[0x22, 0x01, 0x00])
    );
    match feature_index_request(0x8100) {
        Err(HapticError::SafetyViolation { feature_id, .. }) => assert_eq!(feature_id, 0x8100),
        other => panic!("unexpected result {:?}", other),
    }
}

#[test]
fn opening_asks_for_ping_feature_set_count_and_each_position() {
    let mut setup = HidppDevice::open(ConnectionType::Bolt);
    assert_eq!(setup.device_index(), 0x02);
    assert_eq!(setup.stage(), SetupStage::Validating);
    assert_eq!(setup.next_request(), Some(HidppRequest::new(0x00, 0x01, &[0, 0, 0xAA])));

    setup = setup.on_reply(reply(0x00, 0x01, &[0x04, 0x02, 0xAA]));
    assert_eq!(setup.stage(), SetupStage::ResolvingFeatureSet);
    assert_eq!(setup.next_request(), Some(HidppRequest::new(0x00, 0x00, &[0x00, 0x01, 0x00])));

    setup = setup.on_reply(reply(0x00, 0x00, &[0x03]));
    assert_eq!(setup.stage(), SetupStage::CountingFeatures { feature_set_index: 3 });
    assert_eq!(setup.next_request(), Some(HidppRequest::new(0x03, 0x00, &[])));

    setup = setup.on_reply(reply(0x03, 0x00, &[2]));
    assert_eq!(
        setup.stage(),
        SetupStage::ReadingFeature { feature_set_index: 3, count: 2, position: 0 }
    );
    assert_eq!(setup.next_request(), Some(HidppRequest::new(0x03, 0x01, &[0, 0, 0])));

    setup = setup.on_reply(reply(0x03, 0x01, &[0x22, 0x01]));
    assert_eq!(setup.next_request(), Some(HidppRequest::new(0x03, 0x01, &[1, 0, 0])));
    assert!(!setup.is_done());

    setup = setup.on_reply(reply(0x03, 0x01, &[0x19, 0xB0]));
    assert_eq!(setup.stage(), SetupStage::Ready);
    assert_eq!(setup.next_request(), None);
    assert!(setup.is_done());

    let device = setup.finish().unwrap();
    assert_eq!(device.feature_index(0x2201), Some(1));
    assert_eq!(device.feature_index(0x19B0), Some(2));
    assert_eq!(device.feature_count(), 2);
    assert!(device.dpi_supported());
    assert!(device.mx4_haptic_supported());
    assert!(!device.legacy_haptic_supported());
}

#[test]
fn a_device_that_does_not_echo_the_ping_is_rejected() {
    let mut setup = HidppDevice::open(ConnectionType::Usb);
    setup = setup.on_reply(None);
    assert_eq!(setup.stage(), SetupStage::Rejected);
    assert_eq!(setup.next_request(), None);
    assert!(setup.is_done());
    assert!(setup.finish().is_none());

    let setup = HidppDevice::open(ConnectionType::Usb).on_reply(reply(0x00, 0x01, &[4, 2, 0xAB]));
    assert!(setup.finish().is_none());
}

#[test]
fn an_opening_that_is_not_over_gives_no_session() {
    assert!(HidppDevice::open(ConnectionType::Usb).finish().is_none());
}

#[test]
fn a_device_without_feature_set_is_open_with_an_empty_table() {
    let mut setup = HidppDevice::open(ConnectionType::Unifying);
    setup = setup.on_reply(reply(0x00, 0x01, &[0x04, 0x02, 0xAA]));
    setup = setup.on_reply(reply(0x00, 0x00, &[0x00]));
    assert_eq!(setup.stage(), SetupStage::Ready);
    let device = setup.finish().unwrap();
    assert_eq!(device.feature_count(), 0);
    assert_eq!(device.device_index(), 0x01);
    assert_eq!(device.connection_type(), ConnectionType::Unifying);
    assert!(!device.haptic_supported());
    assert!(!device.dpi_supported());
}

#[test]
fn a_device_that_does_not_tell_its_count_is_open_with_an_empty_table() {
    let mut setup = HidppDevice::open(ConnectionType::Bolt);
    setup = setup.on_reply(reply(0x00, 0x01, &[0x04, 0x02, 0xAA]));
    setup = setup.on_reply(reply(0x00, 0x00, &[0x01]));
    setup = setup.on_reply(None);
    assert_eq!(setup.stage(), SetupStage::Ready);
    assert_eq!(setup.finish().unwrap().feature_count(), 0);

    let mut setup = HidppDevice::open(ConnectionType::Bolt);
    setup = setup.on_reply(reply(0x00, 0x01, &[0x04, 0x02, 0xAA]));
    setup = setup.on_reply(reply(0x00, 0x00, &[0x01]));
    setup = setup.on_reply(reply(0x01, 0x00, &[0]));
    assert_eq!(setup.stage(), SetupStage::Ready);
}

#[test]
fn forbidden_features_never_enter_the_table() {
    let reported = [0x0001, 0x1B04, 0x8060, 0x8100, 0x8090, 0x8110, 0x1BC0, 0x1815, 0x2201];
    let device = open_with(ConnectionType::Bolt, &reported);
    for id in [0x1B04u16, 0x8060, 0x8100, 0x8090, 0x8110, 0x1BC0, 0x1815] {
        assert_eq!(device.feature_index(id), None);
    }
    assert_eq!(device.feature_index(0x0001), Some(1));
    assert_eq!(device.feature_index(0x2201), Some(9));
    assert_eq!(device.feature_count(), 2);
}

#[test]
fn recording_a_feature_reports_the_verdict() {
    let mut device = HidppDevice::new(ConnectionType::Usb);
    assert!(device.record_feature(0, 0x8123).is_ok());
    assert!(matches!(
        device.record_feature(1, 0x8100),
        Err(HapticError::SafetyViolation {
            feature_id: 0x8100,
            reason: "Persistent profile storage"
        })
    ));
    assert_eq!(device.feature_index(0x8123), Some(1));
    assert_eq!(device.feature_index(0x8100), None);
    assert!(device.legacy_haptic_supported());
    assert!(device.haptic_supported());
}

#[test]
fn a_position_without_a_usable_reply_is_skipped() {
    let mut setup = HidppDevice::open(ConnectionType::Bolt);
    setup = setup.on_reply(reply(0x00, 0x01, &[0x04, 0x02, 0xAA]));
    setup = setup.on_reply(reply(0x00, 0x00, &[0x01]));
    setup = setup.on_reply(reply(0x01, 0x00, &[3]));
    setup = setup.on_reply(None);
    setup = setup.on_reply(reply(0x01, 0x01, &[0x22]));
    setup = setup.on_reply(reply(0x01, 0x01, &[0x22, 0x01]));
    let device = setup.finish().unwrap();
    assert_eq!(device.feature_count(), 1);
    assert_eq!(device.feature_index(0x2201), Some(3));
}

#[test]
fn the_later_of_two_haptic_identifiers_gives_the_index() {
    let device = open_with(ConnectionType::Bolt, &[0x19B0, 0x0005, 0x0B4E]);
    assert!(device.mx4_haptic_supported());
    assert_eq!(device.feature_index(0x19B0), Some(1));
    assert_eq!(device.feature_index(0x0B4E), Some(3));
}

#[test]
fn the_waveform_frame_has_its_fixed_format() {
    let device = open_with(ConnectionType::Bolt, &[0x0B4E]);
    assert_eq!(
        device.send_haptic_pattern(Mx4HapticPattern::Completed),
        Some([0x10, 0x02, 0x0B, 0x4E, 0x07, 0x00, 0x00])
    );
    let direct = open_with(ConnectionType::Usb, &[0x19B0]);
    assert_eq!(
        direct.send_haptic_pattern(Mx4HapticPattern::WhisperCollision),
        Some([0x10, 0xFF, 0x0B, 0x4E, 0x1B, 0x00, 0x00])
    );
    let without = open_with(ConnectionType::Bolt, &[0x8123]);
    assert_eq!(without.send_haptic_pattern(Mx4HapticPattern::Completed), None);
}

#[test]
fn the_legacy_pulse_carries_intensity_and_duration() {
    let device = open_with(ConnectionType::Bolt, &[0x0001, 0x8123]);
    assert_eq!(
        device.send_haptic_pulse(50, 0x0119),
        Some(HidppRequest::new(0x02, 0x00, &[50, 0x01, 0x19]))
    );
    let without = open_with(ConnectionType::Bolt, &[0x19B0]);
    assert_eq!(without.send_haptic_pulse(50, 25), None);
}

#[test]
fn dpi_requests_address_sensor_zero() {
    let device = open_with(ConnectionType::Bolt, &[0x0001, 0x0005, 0x2201]);
    assert_eq!(device.get_dpi_request().unwrap(), HidppRequest::new(0x03, 0x02, &[0, 0, 0]));
    assert_eq!(
        device.set_dpi_request(1600).unwrap(),
        HidppRequest::new(0x03, 0x03, &[0, 0x06, 0x40])
    );
    assert_eq!(device.get_dpi_list_request().unwrap(), HidppRequest::new(0x03, 0x01, &[0, 0, 0]));
}

#[test]
fn dpi_replies_are_read() {
    let device = open_with(ConnectionType::Bolt, &[0x2201]);
    assert!(matches!(
        device.get_dpi(&reply(0x01, 0x02, &[0x00, 0x06, 0x40, 0x03, 0xE8])),
        Ok(1600)
    ));
    assert!(matches!(
        device.get_dpi(&reply(0x01, 0x02, &[0x00, 0x06])),
        Err(HapticError::CommunicationError)
    ));
    assert!(matches!(device.get_dpi(&None), Err(HapticError::CommunicationError)));

    assert!(device.set_dpi(&reply(0x01, 0x03, &[0x00, 0x06, 0x40])).is_ok());
    assert!(device.set_dpi(&reply(0x01, 0x03, &[])).is_ok());
    assert!(matches!(device.set_dpi(&None), Err(HapticError::CommunicationError)));

    assert_eq!(
        device
            .get_dpi_list(&reply(0x01, 0x01, &[0x00, 0x03, 0x20, 0x01, 0x90, 0x00, 0x00]))
            .unwrap(),
        vec![800, 400]
    );
    assert_eq!(
        device.get_dpi_list(&reply(0x01, 0x01, &[0x00, 0x03])).unwrap(),
        Vec::<u16>::new()
    );
    assert!(matches!(
        device.get_dpi_list(&reply(0x01, 0x01, &[0x00])),
        Err(HapticError::CommunicationError)
    ));
    assert!(matches!(device.get_dpi_list(&None), Err(HapticError::CommunicationError)));
}

#[test]
fn a_device_without_dpi_supports_none_of_it() {
    let device = open_with(ConnectionType::Bolt, &[0x19B0]);
    assert!(matches!(device.get_dpi_request(), Err(HapticError::NotSupported)));
    assert!(matches!(device.set_dpi_request(800), Err(HapticError::NotSupported)));
    assert!(matches!(device.get_dpi_list_request(), Err(HapticError::NotSupported)));
    let good = reply(0x01, 0x02, &[0x00, 0x06, 0x40]);
    assert!(matches!(device.get_dpi(&good), Err(HapticError::NotSupported)));
    assert!(matches!(device.get_dpi_list(&good), Err(HapticError::NotSupported)));
    assert!(matches!(device.set_dpi(&good), Err(HapticError::NotSupported)));
    assert!(matches!(device.set_dpi(&None), Err(HapticError::NotSupported)));
}

#[test]
fn a_capability_is_addressed_through_the_feature_table() {
    let device = open_with(ConnectionType::Bolt, &[0x0001, 0x2110, 0x8100]);
    assert_eq!(
        device.feature_request(0x2110, 0x02, &[1, 2, 3, 4]).unwrap(),
        HidppRequest::new(0x02, 0x02, &[1, 2, 3])
    );
    assert!(matches!(device.feature_request(0x2121, 0x00, &[]), Err(HapticError::NotSupported)));
    assert!(matches!(
        device.feature_request(0x8100, 0x00, &[]),
        Err(HapticError::SafetyViolation { feature_id: 0x8100, .. })
    ));
    assert!(matches!(
        device.feature_request(0x1815, 0x00, &[]),
        Err(HapticError::SafetyViolation { feature_id: 0x1815, .. })
    ));
    assert_eq!(reply_or_error(Some(vec![1, 2])).unwrap(), vec![1, 2]);
    assert!(matches!(reply_or_error(None), Err(HapticError::CommunicationError)));
}

#[test]
fn the_long_frame_of_a_session_carries_its_device_index() {
    let device = open_with(ConnectionType::Unifying, &[0x0001]);
    let frame = device.hidpp_send_long(0x07, 0x03, &[0xAA, 0xBB]);
    assert_eq!(&frame[..6], &[0x11, 0x01, 0x07, 0x31, 0xAA, 0xBB]);
    assert!(frame[6..].iter().all(|b| *b == 0));
}

fn uevent(text: &str) -> Vec<u8> {
    text.as_bytes().to_vec()
}

#[test]
fn a_node_is_classified_by_vendor_and_product() {
    assert_eq!(classify_uevent(b"HID_ID=0003:0000046D:0000C548"), Some(ConnectionType::Bolt));
    assert_eq!(classify_uevent(b"HID_ID=0003:0000046d:0000c548"), Some(ConnectionType::Bolt));
    assert_eq!(classify_uevent(b"HID_ID=0003:0000046D:0000C52B"), Some(ConnectionType::Unifying));
    assert_eq!(classify_uevent(b"HID_ID=0003:0000046D:0000B034"), Some(ConnectionType::Usb));
    assert_eq!(
        classify_uevent(b"HID_ID=0005:0000046D:0000B035\nHID_PHYS=xx/input2"),
        Some(ConnectionType::Bluetooth)
    );
    assert_eq!(classify_uevent(b"HID_ID=0005:0000046D:0000B035"), None);
    assert_eq!(classify_uevent(b"HID_ID=0003:00001234:0000C548 input2"), None);
    assert_eq!(classify_uevent(b""), None);
    assert_eq!(
        classify_uevent(b"046D C52B C548 B034"),
        Some(ConnectionType::Bolt)
    );
    assert!(on_interface_two(b"HID_PHYS=usb-0000:00:14.0-1/input2"));
    assert!(!on_interface_two(b"HID_PHYS=usb-0000:00:14.0-1/input1"));
}

#[test]
fn discovery_prefers_control_interface_two() {
    let nodes = vec![
        uevent("HID_ID=0003:00001234:00005678\nHID_PHYS=a/input2"),
        uevent("HID_ID=0003:0000046D:0000C548\nHID_PHYS=a/input0"),
        uevent("HID_ID=0003:0000046D:0000C548\nHID_PHYS=a/input1"),
        uevent("HID_ID=0003:0000046D:0000C548\nHID_PHYS=a/input2"),
        uevent("HID_ID=0003:0000046D:0000B034\nHID_PHYS=b/input2"),
    ];
    assert!(matches!(find_device(&nodes), Ok((3, ConnectionType::Bolt))));
}

#[test]
fn discovery_falls_back_to_the_first_candidate() {
    let nodes = vec![
        uevent("HID_ID=0003:00001234:00005678"),
        uevent("HID_ID=0003:0000046D:0000C52B\nHID_PHYS=a/input0"),
        uevent("HID_ID=0003:0000046D:0000C548\nHID_PHYS=a/input1"),
    ];
    assert!(matches!(find_device(&nodes), Ok((1, ConnectionType::Unifying))));
}

#[test]
fn discovery_finds_nothing_without_a_candidate() {
    assert!(matches!(find_device(&vec![]), Err(HapticError::DeviceNotFound)));
    let nodes = vec![uevent("HID_ID=0003:00001234:00005678"), uevent("HID_ID=0005:0000046D:0000")];
    assert!(matches!(find_device(&nodes), Err(HapticError::DeviceNotFound)));
}
