use juhradiald::battery::{
    exchange_result, get_feature_index, parse_battery_response, BatteryError, BatteryHandler,
    BatteryState, QueryStage,
};
use juhradiald::evdev::{
    check_device, has_gesture_buttons, is_event_node, is_gesture_button, is_logid_device,
    is_mx_master_4_product, EvdevError, DEVICE_POLL_INTERVAL_SECS, EvdevHandler, GestureEvent, InputAction, LogidHandler,
    GESTURE_BUTTON_CODES, LOGID_GESTURE_KEY, LOGITECH_VENDOR_ID, MX_MASTER_4_PRODUCT_IDS,
};
use juhradiald::hidpp::exchange::{ExchangeOutcome, HidppRequest};
use juhradiald::hidraw::button_cid;
use juhradiald::hidraw::{HidrawError, HidrawHandler, HIDPP_LONG, HIDPP_SHORT};
use std::path::PathBuf;

#[test]
fn test_battery_state_default() {
    let state = BatteryState::default();
    assert_eq!(state.percentage, 0);
    assert!(!state.charging);
    assert!(!state.available);
}

#[test]
fn test_device_poll_interval() {
    assert_eq!(DEVICE_POLL_INTERVAL_SECS, 2);
}

#[test]
fn test_vendor_id() {
    assert_eq!(LOGITECH_VENDOR_ID, 0x046D);
}

#[test]
fn test_mx_master_4_product_ids() {
    assert!(!MX_MASTER_4_PRODUCT_IDS.is_empty());
    assert!(MX_MASTER_4_PRODUCT_IDS.contains(&0xB034));
}

#[test]
fn test_gesture_button_codes() {
    assert!(!GESTURE_BUTTON_CODES.is_empty());
    assert!(GESTURE_BUTTON_CODES.contains(&0x116));
}

#[test]
fn test_gesture_event_equality() {
    let e1 = GestureEvent::Pressed { x: 100, y: 200 };
    let e2 = GestureEvent::Pressed { x: 100, y: 200 };
    let e3 = GestureEvent::Released { duration_ms: 500 };

    assert_eq!(e1, e2);
    assert_ne!(e1, e3);
}

#[test]
fn test_evdev_error_display() {
    let err = EvdevError::DeviceNotFound;
    assert_eq!(err.to_string(), "MX Master 4 not found");

    let err = EvdevError::PermissionDenied;
    assert!(err.to_string().contains("Permission denied"));
}

#[test]
fn test_button_cids() {
    assert_eq!(button_cid::GESTURE_BUTTON, 195);
    assert_eq!(button_cid::MIDDLE_BUTTON, 82);
    assert_eq!(button_cid::BACK_BUTTON, 83);
    assert_eq!(button_cid::FORWARD_BUTTON, 86);
}

#[test]
fn test_hidpp_constants() {
    assert_eq!(HIDPP_SHORT, 0x10);
    assert_eq!(HIDPP_LONG, 0x11);
}

#[test]
fn the_text_of_each_input_error() {
    assert_eq!(
        EvdevError::PermissionDenied.to_string(),
        "Permission denied. Ensure udev rules are installed and user is in 'input' group."
    );
    let io = std::io::Error::new(std::io::ErrorKind::Other, "unplugged");
    assert_eq!(EvdevError::IoError(io).to_string(), "I/O error: unplugged");
    assert_eq!(HidrawError::DeviceNotFound.to_string(), "Logitech hidraw device not found");
    assert_eq!(
        HidrawError::PermissionDenied.to_string(),
        "Permission denied. Ensure udev rules are installed."
    );
    let io = std::io::Error::new(std::io::ErrorKind::Other, "unplugged");
    assert_eq!(HidrawError::IoError(io).to_string(), "I/O error: unplugged");
    assert_eq!(BatteryError::DeviceNotFound.to_string(), "Device not found");
    assert_eq!(BatteryError::PermissionDenied.to_string(), "Permission denied");
    assert_eq!(
        BatteryError::ProtocolError(String::from("bad")).to_string(),
        "Protocol error: bad"
    );
    assert_eq!(BatteryError::FeatureNotSupported.to_string(), "Battery feature not supported");
    assert_eq!(BatteryError::Timeout.to_string(), "Request timeout");
    let io = std::io::Error::new(std::io::ErrorKind::Other, "unplugged");
    assert_eq!(BatteryError::IoError(io).to_string(), "I/O error: unplugged");
}

#[test]
fn event_nodes_are_known_by_their_name() {
    assert!(is_event_node(b"event0"));
    assert!(is_event_node(b"event"));
    assert!(!is_event_node(b"even"));
    assert!(!is_event_node(b"mouse0"));
    assert!(!is_event_node(b"xevent1"));
    assert!(is_logid_device("LogiOps Virtual Input"));
    assert!(!is_logid_device("LogiOps Virtual Input "));
    assert!(!is_logid_device(""));
}

#[test]
fn a_device_is_the_mouse_by_product_and_buttons() {
    assert!(has_gesture_buttons(&[0x110, 0x113]));
    assert!(has_gesture_buttons(&[0x114]));
    assert!(!has_gesture_buttons(&[0x110, 0x111, 0x112, 0x115, 0x116]));
    assert!(!has_gesture_buttons(&[]));
    for id in [0xB034u16, 0xB035, 0x4082, 0xC548] {
        assert!(is_mx_master_4_product(id));
    }
    assert!(!is_mx_master_4_product(0xC52B));
    assert!(is_gesture_button(0x116));
    assert!(!is_gesture_button(0x113));

    let path = PathBuf::from("/dev/input/event5");
    let info =
        check_device(path.clone(), String::from("MX Master 4"), 0x046D, 0xB034, &[0x113]).unwrap();
    assert_eq!(info.path, path);
    assert_eq!(info.name, "MX Master 4");
    assert_eq!(info.vendor_id, 0x046D);
    assert_eq!(info.product_id, 0xB034);
    assert!(info.is_mx_master_4);

    let touchpad =
        check_device(path.clone(), String::from("pad"), 0x046D, 0xB034, &[0x110]).unwrap();
    assert!(!touchpad.is_mx_master_4);
    let other = check_device(path.clone(), String::from("kbd"), 0x046D, 0xC33F, &[0x113]).unwrap();
    assert!(!other.is_mx_master_4);
    assert!(check_device(path, String::from("x"), 0x1234, 0xB034, &[0x113]).is_none());
}

#[test]
fn the_gesture_button_shows_and_hides_the_menu() {
    let mut handler = EvdevHandler::new();
    assert_eq!(handler.handle_event(0x01, 0x116, 1, 1000), InputAction::ShowMenu);
    assert!(handler.menu_active);
    assert_eq!(handler.press_time, Some(1000));
    assert_eq!(handler.handle_event(0x01, 0x116, 2, 1100), InputAction::Ignore);
    assert_eq!(
        handler.handle_event(0x01, 0x116, 0, 1250),
        InputAction::Emit(GestureEvent::Released { duration_ms: 250 })
    );
    assert!(!handler.menu_active);
    assert_eq!(handler.press_time, None);
    assert_eq!(
        handler.handle_event(0x01, 0x116, 0, 1300),
        InputAction::Emit(GestureEvent::Released { duration_ms: 0 })
    );
    assert_eq!(handler.handle_event(0x01, 0x113, 1, 1400), InputAction::Ignore);
    assert_eq!(handler.handle_event(0x04, 0x116, 1, 1400), InputAction::Ignore);
}

#[test]
fn movement_is_followed_while_the_menu_is_shown() {
    let mut handler = EvdevHandler::new();
    assert_eq!(handler.handle_event(0x02, 0x00, 5, 10), InputAction::Ignore);
    handler.handle_gesture_event(1, 20);
    assert_eq!(
        handler.handle_event(0x02, 0x00, 5, 30),
        InputAction::Emit(GestureEvent::CursorMoved { x: 5, y: 0 })
    );
    assert_eq!(
        handler.handle_event(0x02, 0x01, -7, 40),
        InputAction::Emit(GestureEvent::CursorMoved { x: 5, y: -7 })
    );
    assert_eq!(handler.handle_event(0x02, 0x08, 1, 50), InputAction::Ignore);
    assert_eq!(
        handler.handle_motion(0x00, i32::MAX),
        InputAction::Emit(GestureEvent::CursorMoved { x: i32::MIN + 4, y: -7 })
    );
    handler.handle_gesture_event(1, 60);
    assert_eq!((handler.cursor_x, handler.cursor_y), (0, 0));
}

#[test]
fn the_handler_searches_only_while_it_has_no_device() {
    let mut handler = EvdevHandler::new();
    assert!(!handler.is_connected());
    assert!(handler.begin_poll());
    assert!(handler.is_polling());
    handler.end_poll();
    assert!(!handler.is_polling());
    handler.set_connected(true);
    assert!(!handler.begin_poll());
    assert!(!handler.is_polling());
    assert!(EvdevHandler::cursor_query_needed(true, false));
    assert!(EvdevHandler::cursor_query_needed(true, true));
    assert!(EvdevHandler::cursor_query_needed(false, false));
    assert!(!EvdevHandler::cursor_query_needed(false, true));
}

#[test]
fn the_logid_key_shows_and_hides_the_menu() {
    assert_eq!(LOGID_GESTURE_KEY, 189);
    let mut handler = LogidHandler::new();
    assert_eq!(handler.handle_key(190, 1, 5), InputAction::Ignore);
    assert_eq!(handler.handle_key(189, 1, 100), InputAction::ShowMenu);
    assert_eq!(handler.handle_key(189, 2, 150), InputAction::Ignore);
    assert_eq!(
        handler.handle_key(189, 0, 400),
        InputAction::Emit(GestureEvent::Released { duration_ms: 300 })
    );
    assert_eq!(handler.press_time, None);
}

#[test]
fn a_diverted_button_report_shows_and_hides_the_menu() {
    let mut handler = HidrawHandler::new();
    let released = [0x11, 0x02, 0x08, 0x00, 0x00, 0x00, 0x00];
    assert_eq!(handler.process_hidpp_report(&released, 10), InputAction::Ignore);
    let gesture = [0x11, 0x02, 0x08, 0x00, 0x00, 0xC3, 0x00];
    assert_eq!(handler.process_hidpp_report(&gesture, 100), InputAction::ShowMenu);
    assert_eq!(handler.press_time, Some(100));
    let back = [0x11, 0x02, 0x08, 0x00, 0x00, 0x53, 0x00];
    assert_eq!(handler.process_hidpp_report(&back, 150), InputAction::Ignore);
    assert_eq!(
        handler.process_hidpp_report(&released, 400),
        InputAction::Emit(GestureEvent::Released { duration_ms: 300 })
    );
    let haptic = [0x10, 0x02, 0x08, 0x0F, 0x01, 0xA0, 0x00];
    assert_eq!(handler.process_hidpp_report(&haptic, 500), InputAction::ShowMenu);
}

#[test]
fn other_reports_are_ignored() {
    let mut handler = HidrawHandler::new();
    assert_eq!(handler.process_hidpp_report(&[], 1), InputAction::Ignore);
    assert_eq!(
        handler.process_hidpp_report(&[0x11, 0x02, 0x08, 0x00, 0x00, 0xC3], 1),
        InputAction::Ignore
    );
    assert_eq!(
        handler.process_hidpp_report(&[0x12, 0x02, 0x08, 0x00, 0x00, 0xC3, 0x00], 1),
        InputAction::Ignore
    );
    assert_eq!(
        handler.process_hidpp_report(&[0x11, 0x02, 0x08, 0x10, 0x00, 0xC3, 0x00], 1),
        InputAction::Ignore
    );
    assert_eq!(handler.press_time, None);
    assert!(!handler.is_connected());
    handler.set_connected(true);
    assert!(handler.is_connected());
}

#[test]
fn the_node_of_the_highest_priority_is_chosen() {
    let node = |text: &str| text.as_bytes().to_vec();
    let nodes = vec![
        node("HID_ID=0003:00001234:00000001 input2"),
        node("HID_ID=0003:0000046D:0000AAAA input2"),
        node("HID_ID=0003:0000046D:0000C52B input2"),
        node("HID_ID=0003:0000046D:0000C548 input0"),
        node("HID_ID=0003:0000046d:0000c548 input2"),
        node("HID_ID=0003:0000046D:0000C548 input2"),
    ];
    assert!(matches!(juhradiald::hidraw::find_device(&nodes), Ok(4)));
    assert!(matches!(juhradiald::hidraw::find_device(&nodes[..4].to_vec()), Ok(3)));
    assert!(matches!(juhradiald::hidraw::find_device(&nodes[..3].to_vec()), Ok(2)));
    assert!(matches!(juhradiald::hidraw::find_device(&nodes[..2].to_vec()), Ok(1)));
    assert!(matches!(
        juhradiald::hidraw::find_device(&nodes[..1].to_vec()),
        Err(HidrawError::DeviceNotFound)
    ));
    assert_eq!(juhradiald::hidraw::priority(b"046D B034"), 2);
    assert_eq!(juhradiald::hidraw::priority(b"046D"), 1);
    assert_eq!(juhradiald::hidraw::priority(b"C548"), 0);
}

#[test]
fn the_battery_receiver_is_a_bolt_receiver_in_upper_case() {
    let node = |text: &str| text.as_bytes().to_vec();
    let nodes = vec![
        node("HID_ID=0003:0000046d:0000c548 input2"),
        node("HID_ID=0003:0000046D:0000C52B input2"),
        node("HID_ID=0003:0000046D:0000C548 input1"),
        node("HID_ID=0003:0000046D:0000C548 input2"),
    ];
    assert!(matches!(juhradiald::battery::find_device(&nodes), Ok(3)));
    assert!(matches!(juhradiald::battery::find_device(&nodes[..3].to_vec()), Ok(2)));
    assert!(matches!(
        juhradiald::battery::find_device(&nodes[..2].to_vec()),
        Err(BatteryError::DeviceNotFound)
    ));
}

#[test]
fn a_battery_reply_is_read_by_the_kind_of_feature() {
    let unified = [0x11, 0x02, 0x06, 0x11, 87, 0x08, 0x00, 0x01];
    assert!(matches!(parse_battery_response(&unified, true), Ok((87, true))));
    assert!(matches!(parse_battery_response(&unified, false), Ok((87, false))));
    let discharging = [0x11, 0x02, 0x06, 0x11, 40, 0x08, 0x00, 0x00];
    assert!(matches!(parse_battery_response(&discharging, true), Ok((40, false))));
    let full = [0x11, 0x02, 0x06, 0x11, 100, 0x08, 0x00, 0x03];
    assert!(matches!(parse_battery_response(&full, true), Ok((100, true))));
    let invalid = [0x11, 0x02, 0x06, 0x11, 100, 0x08, 0x00, 0x04];
    assert!(matches!(parse_battery_response(&invalid, true), Ok((100, false))));
    let status = [0x10, 0x02, 0x06, 0x01, 55, 50, 0x04];
    assert!(matches!(parse_battery_response(&status, false), Ok((55, true))));
    assert!(matches!(parse_battery_response(&status, true), Ok((55, true))));
    let too_much = [0x10, 0x02, 0x06, 0x01, 55, 50, 0x05];
    assert!(matches!(parse_battery_response(&too_much, false), Ok((55, false))));
    match parse_battery_response(&status[..6], false) {
        Err(BatteryError::ProtocolError(text)) => assert_eq!(text, "Invalid battery response"),
        other => panic!("unexpected result {:?}", other),
    }
}

#[test]
fn the_battery_feature_index_is_read_or_refused() {
    assert!(matches!(get_feature_index(Ok(vec![0x10, 2, 0, 1, 6, 0, 0])), Ok(6)));
    assert!(matches!(
        get_feature_index(Ok(vec![0x10, 2, 0, 1, 0, 0, 0])),
        Err(BatteryError::FeatureNotSupported)
    ));
    match get_feature_index(Ok(vec![0x10, 2, 0, 1])) {
        Err(BatteryError::ProtocolError(text)) => assert_eq!(text, "Invalid response"),
        other => panic!("unexpected result {:?}", other),
    }
    assert!(matches!(get_feature_index(Err(BatteryError::Timeout)), Err(BatteryError::Timeout)));
}

fn os_error() -> std::io::Error {
    std::io::Error::new(std::io::ErrorKind::BrokenPipe, "unplugged")
}

#[test]
fn the_end_of_an_exchange_as_the_battery_query_sees_it() {
    assert!(matches!(
        exchange_result(ExchangeOutcome::Response(vec![1, 2]), os_error()),
        Ok(bytes) if bytes == vec![1, 2]
    ));
    assert!(matches!(
        exchange_result(ExchangeOutcome::Timeout, os_error()),
        Err(BatteryError::Timeout)
    ));
    match exchange_result(ExchangeOutcome::DeviceError { code: 5 }, os_error()) {
        Err(BatteryError::ProtocolError(text)) => assert_eq!(text, "Device returned error"),
        other => panic!("unexpected result {:?}", other),
    }
    match exchange_result(ExchangeOutcome::LegacyError, os_error()) {
        Err(BatteryError::ProtocolError(text)) => assert_eq!(text, "Device returned error"),
        other => panic!("unexpected result {:?}", other),
    }
}

#[test]
fn a_failed_read_or_write_keeps_the_error_of_the_operating_system() {
    for outcome in [ExchangeOutcome::WriteFailed, ExchangeOutcome::ReadFailed] {
        match exchange_result(outcome, os_error()) {
            Err(BatteryError::IoError(e)) => {
                assert_eq!(e.kind(), std::io::ErrorKind::BrokenPipe);
                assert_eq!(e.to_string(), "unplugged");
            }
            other => panic!("unexpected result {:?}", other),
        }
    }
}

#[test]
fn a_battery_query_tries_the_unified_feature_first() {
    let mut handler = BatteryHandler::new();
    assert_eq!(handler.device_index, 0x02);
    assert_eq!(handler.next_request(), None);
    handler.begin_query();
    assert_eq!(handler.stage, QueryStage::ResolvingUnified);
    assert_eq!(handler.next_request(), Some(HidppRequest::new(0x00, 0x00, &[0x10, 0x04, 0x00])));
    assert!(handler.query_battery(Ok(vec![0x10, 2, 0, 1, 0, 0, 0])).is_none());
    assert_eq!(handler.stage, QueryStage::ResolvingStatus);
    assert_eq!(handler.next_request(), Some(HidppRequest::new(0x00, 0x00, &[0x10, 0x00, 0x00])));
    assert!(handler.query_battery(Ok(vec![0x10, 2, 0, 1, 7, 0, 0])).is_none());
    assert_eq!(handler.battery_feature_index, Some(7));
    assert!(!handler.is_unified_battery);
    assert_eq!(handler.next_request(), Some(HidppRequest::new(0x07, 0x00, &[])));
    let outcome = handler.query_battery(Ok(vec![0x10, 2, 7, 1, 64, 60, 0x01]));
    assert!(matches!(outcome, Some(Ok((64, true)))));
    assert_eq!(handler.stage, QueryStage::Finished);
    assert!(handler.query_battery(Ok(vec![])).is_none());

    handler.begin_query();
    assert_eq!(handler.stage, QueryStage::Reading);
    assert!(matches!(
        handler.query_battery(Err(BatteryError::Timeout)),
        Some(Err(BatteryError::Timeout))
    ));
}

#[test]
fn a_unified_battery_is_read_with_function_one() {
    let mut handler = BatteryHandler::new();
    handler.begin_query();
    assert!(handler.query_battery(Ok(vec![0x10, 2, 0, 1, 9, 0, 0])).is_none());
    assert!(handler.is_unified_battery);
    assert_eq!(handler.next_request(), Some(HidppRequest::new(0x09, 0x01, &[])));
    let outcome = handler.query_battery(Ok(vec![0x11, 2, 9, 0x11, 33, 0, 0, 2]));
    assert!(matches!(outcome, Some(Ok((33, true)))));
}

#[test]
fn a_device_without_battery_feature_ends_the_query_with_the_second_error() {
    let mut handler = BatteryHandler::new();
    handler.begin_query();
    assert!(handler.query_battery(Err(BatteryError::Timeout)).is_none());
    assert!(matches!(
        handler.query_battery(Ok(vec![0x10, 2, 0, 1, 0, 0, 0])),
        Some(Err(BatteryError::FeatureNotSupported))
    ));
    assert_eq!(handler.stage, QueryStage::Finished);
    assert_eq!(handler.battery_feature_index, None);
}

#[test]
fn the_battery_state_follows_the_queries() {
    let mut state = BatteryState::default();
    assert_eq!(state.status(), (0, false));
    state.apply(&Ok((72, true)));
    assert_eq!(state.status(), (72, true));
    assert!(state.available);
    assert!(state.error.is_none());
    state.apply(&Err(BatteryError::Timeout));
    assert!(!state.available);
    assert_eq!(state.percentage, 72);
    assert!(state.charging);
    assert_eq!(state.error.as_deref(), Some("Request timeout"));
    assert_eq!(state.status(), (0, false));
    state.apply(&Ok((71, false)));
    assert_eq!(state.status(), (71, false));
    assert!(state.error.is_none());
}
