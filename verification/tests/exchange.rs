use juhradiald::hidpp::exchange::{
    classify_reply, error_code_name, ChannelEvent, Exchange, ExchangeAction, ExchangeOutcome,
    ExchangePhase, HidppRequest, ReadOutcome, ReplyRule, ReplyVerdict, MAX_POLL_ATTEMPTS,
    SOFTWARE_ID,
};

fn request() -> HidppRequest {
    HidppRequest::new(0x05, 0x02, &[0x00, 0x00, 0x00])
}

fn data(bytes: &[u8]) -> ChannelEvent {
    ChannelEvent::Read(ReadOutcome::Data(bytes.to_vec()))
}

fn would_block() -> ChannelEvent {
    ChannelEvent::Read(ReadOutcome::WouldBlock)
}

/// Drives an exchange up to its first poll.
fn polling(device_index: u8, request: HidppRequest) -> Exchange {
    let mut exchange = Exchange::begin(device_index, request);
    assert!(matches!(exchange.step(would_block()), ExchangeAction::Write(_)));
    assert!(matches!(
        exchange.step(ChannelEvent::Written(true)),
        ExchangeAction::Read { capacity: 20 }
    ));
    exchange
}

#[test]
fn a_request_takes_at_most_three_payload_bytes() {
    assert_eq!(HidppRequest::new(1, 2, &[]).params, [0, 0, 0]);
    assert_eq!(HidppRequest::new(1, 2, &[7]).params, [7, 0, 0]);
    assert_eq!(HidppRequest::new(1, 2, &[7, 8, 9, 10]).params, [7, 8, 9]);
}

#[test]
fn the_frame_of_a_request_carries_the_client_tag() {
    assert_eq!(SOFTWARE_ID, 0x01);
    let frame = HidppRequest::new(0x05, 0x02, &[0xA1, 0xA2, 0xA3]).frame(0xFF);
    assert_eq!(frame, [0x10, 0xFF, 0x05, 0x21, 0xA1, 0xA2, 0xA3]);
}

#[test]
fn an_exchange_drains_before_it_writes() {
    let mut exchange = Exchange::begin(0x02, request());
    assert_eq!(exchange.phase, ExchangePhase::Draining);
    assert!(matches!(exchange.pending(), ExchangeAction::Read { capacity: 64 }));
    assert!(matches!(exchange.step(data(&[1, 2, 3])), ExchangeAction::Read { capacity: 64 }));
    assert!(matches!(
        exchange.step(data(&[0x10, 0x02, 0x05, 0x21, 0, 0, 0])),
        ExchangeAction::Read { capacity: 64 }
    ));
    assert_eq!(exchange.phase, ExchangePhase::Draining);
    match exchange.step(would_block()) {
        ExchangeAction::Write(frame) => assert_eq!(frame, [0x10, 0x02, 0x05, 0x21, 0, 0, 0]),
        other => panic!("unexpected action {:?}", other),
    }
    assert_eq!(exchange.phase, ExchangePhase::Writing);
}

#[test]
fn draining_goes_on_while_bytes_come() {
    assert!(ReadOutcome::Data(vec![]).more_to_drain());
    assert!(ReadOutcome::Data(vec![1]).more_to_drain());
    assert!(!ReadOutcome::WouldBlock.more_to_drain());
    assert!(!ReadOutcome::Failed.more_to_drain());
}

#[test]
fn a_failed_drain_read_ends_the_drain() {
    let mut exchange = Exchange::begin(0x02, request());
    assert!(matches!(
        exchange.step(ChannelEvent::Read(ReadOutcome::Failed)),
        ExchangeAction::Write(_)
    ));
}

#[test]
fn a_failed_write_ends_the_exchange() {
    let mut exchange = Exchange::begin(0x02, request());
    exchange.step(would_block());
    assert!(matches!(
        exchange.step(ChannelEvent::Written(false)),
        ExchangeAction::Finish(ExchangeOutcome::WriteFailed)
    ));
    assert!(exchange.is_finished());
    assert!(matches!(exchange.step(would_block()), ExchangeAction::Idle));
}

#[test]
fn the_matching_reply_is_handed_out_as_it_was_read() {
    let mut exchange = polling(0x02, request());
    let reply = [0x11, 0x02, 0x05, 0x21, 9, 8, 7, 6, 5, 4, 3, 2, 1, 0, 0, 0, 0, 0, 0, 0];
    match exchange.step(data(&reply)) {
        ExchangeAction::Finish(ExchangeOutcome::Response(bytes)) => assert_eq!(bytes, reply),
        other => panic!("unexpected action {:?}", other),
    }
    assert!(exchange.is_finished());
}

#[test]
fn unrelated_frames_are_passed_over() {
    let mut exchange = polling(0x02, request());
    let unrelated: [&[u8]; 7] = [
        &[0x10, 0x01, 0x05, 0x21, 0, 0, 0],
        &[0x10, 0x02, 0x06, 0x21, 0, 0, 0],
        &[0x10, 0x02, 0x05, 0x31, 0, 0, 0],
        &[0x10, 0x02, 0x05, 0x2E, 0, 0, 0],
        &[0x12, 0x02, 0x05, 0x21, 0, 0, 0],
        &[0x10, 0x02, 0x05, 0x21, 0, 0],
        &[],
    ];
    let mut expected_attempts = 0;
    for frame in unrelated {
        assert!(matches!(exchange.step(data(frame)), ExchangeAction::Sleep(10)));
        expected_attempts += 1;
        assert_eq!(exchange.attempts, expected_attempts);
        assert_eq!(exchange.phase, ExchangePhase::Sleeping);
        assert!(matches!(
            exchange.step(ChannelEvent::Slept),
            ExchangeAction::Read { capacity: 20 }
        ));
    }
    match exchange.step(data(&[0x10, 0x02, 0x05, 0x21, 1, 2, 3])) {
        ExchangeAction::Finish(ExchangeOutcome::Response(bytes)) => {
            assert_eq!(bytes, vec![0x10, 0x02, 0x05, 0x21, 1, 2, 3])
        }
        other => panic!("unexpected action {:?}", other),
    }
}

#[test]
fn an_error_frame_ends_the_exchange_with_its_cause() {
    let mut exchange = polling(0x02, request());
    assert!(matches!(
        exchange.step(data(&[0x10, 0x02, 0xFF, 0x05, 0x21, 0x04, 0x00])),
        ExchangeAction::Finish(ExchangeOutcome::DeviceError { code: 0x04 })
    ));

    let mut exchange = polling(0x02, request());
    assert!(matches!(
        exchange.step(data(&[0x10, 0x02, 0x8F, 0x05, 0x21, 0x01, 0x00])),
        ExchangeAction::Finish(ExchangeOutcome::LegacyError)
    ));
}

#[test]
fn a_reply_that_matches_wins_over_the_error_marker() {
    let to_marker = HidppRequest::new(0xFF, 0x02, &[]);
    assert_eq!(
        classify_reply(0x02, &to_marker, ReplyRule::Standard, &[0x10, 0x02, 0xFF, 0x21, 0, 9, 0]),
        ReplyVerdict::Matched
    );
    assert_eq!(
        classify_reply(0x02, &to_marker, ReplyRule::Standard, &[0x10, 0x02, 0xFF, 0x31, 0, 9, 0]),
        ReplyVerdict::DeviceError { code: 9 }
    );
    let to_legacy = HidppRequest::new(0x8F, 0x02, &[]);
    assert_eq!(
        classify_reply(0x02, &to_legacy, ReplyRule::Standard, &[0x10, 0x02, 0x8F, 0x21, 0, 9, 0]),
        ReplyVerdict::Matched
    );
    assert_eq!(
        classify_reply(0x03, &to_legacy, ReplyRule::Standard, &[0x10, 0x02, 0x8F, 0x21, 0, 9, 0]),
        ReplyVerdict::LegacyError
    );
}

#[test]
fn the_battery_rule_knows_its_own_error_frames() {
    let request = HidppRequest::new(0x05, 0x00, &[]);
    let rule = ReplyRule::BatteryQuery;
    assert_eq!(
        classify_reply(0x02, &request, rule, &[0x10, 0x02, 0x05, 0x01, 0, 0, 0]),
        ReplyVerdict::Matched
    );
    assert_eq!(
        classify_reply(0x02, &request, rule, &[0x10, 0x02, 0x05, 0x11, 0x05, 0, 0]),
        ReplyVerdict::DeviceError { code: 0x05 }
    );
    assert_eq!(
        classify_reply(0x02, &request, rule, &[0x10, 0x02, 0x05, 0x11, 0x04, 0, 0]),
        ReplyVerdict::Unrelated
    );
    assert_eq!(
        classify_reply(0x02, &request, rule, &[0x10, 0x02, 0x8F, 0x11, 0, 0, 0]),
        ReplyVerdict::LegacyError
    );
    assert_eq!(
        classify_reply(0x02, &request, rule, &[0x10, 0x02, 0xFF, 0x11, 0, 0, 0]),
        ReplyVerdict::Unrelated
    );
}

#[test]
fn a_failed_poll_read_ends_the_exchange() {
    let mut exchange = polling(0x02, request());
    assert!(matches!(
        exchange.step(ChannelEvent::Read(ReadOutcome::Failed)),
        ExchangeAction::Finish(ExchangeOutcome::ReadFailed)
    ));
}

#[test]
fn the_exchange_times_out_after_100_unanswered_polls() {
    let mut exchange = polling(0x02, request());
    let mut polls = 0;
    let mut sleeps = 0;
    loop {
        polls += 1;
        match exchange.step(would_block()) {
            ExchangeAction::Sleep(ms) => {
                assert_eq!(ms, 10);
                sleeps += 1;
                assert!(matches!(
                    exchange.step(ChannelEvent::Slept),
                    ExchangeAction::Read { capacity: 20 }
                ));
            }
            ExchangeAction::Finish(ExchangeOutcome::Timeout) => break,
            other => panic!("unexpected action {:?}", other),
        }
    }
    assert_eq!(polls, 100);
    assert_eq!(sleeps, 99);
    assert_eq!(polls, MAX_POLL_ATTEMPTS);
    assert!(exchange.is_finished());
}

#[test]
fn an_event_out_of_turn_changes_nothing() {
    let mut exchange = Exchange::begin(0x02, request());
    let before = exchange;
    assert!(matches!(
        exchange.step(ChannelEvent::Written(true)),
        ExchangeAction::Read { capacity: 64 }
    ));
    assert!(matches!(exchange.step(ChannelEvent::Slept), ExchangeAction::Read { capacity: 64 }));
    assert_eq!(exchange, before);

    let mut exchange = polling(0x02, request());
    let before = exchange;
    assert!(matches!(
        exchange.step(ChannelEvent::Written(false)),
        ExchangeAction::Read { capacity: 20 }
    ));
    assert_eq!(exchange, before);
}

#[test]
fn only_a_reply_becomes_a_response() {
    assert_eq!(ExchangeOutcome::Response(vec![1, 2]).into_response(), Some(vec![1, 2]));
    assert_eq!(ExchangeOutcome::DeviceError { code: 3 }.into_response(), None);
    assert_eq!(ExchangeOutcome::LegacyError.into_response(), None);
    assert_eq!(ExchangeOutcome::WriteFailed.into_response(), None);
    assert_eq!(ExchangeOutcome::ReadFailed.into_response(), None);
    assert_eq!(ExchangeOutcome::Timeout.into_response(), None);
    assert!(ExchangeOutcome::WriteFailed.is_io_failure());
    assert!(ExchangeOutcome::ReadFailed.is_io_failure());
    assert!(!ExchangeOutcome::Timeout.is_io_failure());
    assert!(!ExchangeOutcome::Response(vec![]).is_io_failure());
}

#[test]
fn a_function_of_more_than_four_bits_is_never_answered() {
    let wide = HidppRequest::new(0x05, 0x12, &[]);
    assert_eq!(wide.frame(0x02)[3], 0x21);
    assert_eq!(
        classify_reply(0x02, &wide, ReplyRule::Standard, &[0x10, 0x02, 0x05, 0x21, 0, 0, 0]),
        ReplyVerdict::Unrelated
    );
}

#[test]
fn the_name_of_each_cause_code() {
    assert_eq!(error_code_name(0x00), "No error");
    assert_eq!(error_code_name(0x01), "Unknown function");
    assert_eq!(error_code_name(0x02), "Function not available");
    assert_eq!(error_code_name(0x03), "Invalid argument");
    assert_eq!(error_code_name(0x04), "Not supported");
    assert_eq!(error_code_name(0x05), "Invalid argument/Out of range");
    assert_eq!(error_code_name(0x06), "Device busy");
    assert_eq!(error_code_name(0x07), "Connection failed");
    assert_eq!(error_code_name(0x08), "Invalid address");
    assert_eq!(error_code_name(0x09), "Unknown error");
    assert_eq!(error_code_name(0xFF), "Unknown error");
}
