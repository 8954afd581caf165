use bno080::codec::{build_frame, parse_frame, FrameHeader};
use bno080::dispatch::{classify, handle_advertise_response, handle_input_report, ChannelId, Dispatch};
use bno080::init::drain_pause;
use bno080::sequencer::ChannelSequencer;
use bno080::state::DeviceState;
use bno080::wrapper::{
    comm_result, is_product_id_response, length_or_zero, set_feature_command, WrapperError,
};

#[test]
fn build_writes_header_and_body() {
    let mut buf = [0xEEu8; 256];
    let n = build_frame(&mut buf, 2, 7, &[0xF9, 0x00]);
    assert_eq!(n, Some(6));
    assert_eq!(&buf[..6], &[6, 0, 2, 7, 0xF9, 0x00]);
    // what lies behind the frame is untouched
    assert!(buf[6..].iter().all(|b| *b == 0xEE));
}

#[test]
fn build_refuses_oversized_body() {
    let mut buf = [0xEEu8; 256];
    assert_eq!(build_frame(&mut buf, 2, 7, &[0u8; 253]), None);
    assert!(buf.iter().all(|b| *b == 0xEE));
    assert_eq!(build_frame(&mut buf, 2, 7, &[1u8; 252]), Some(256));
    assert_eq!(&buf[..4], &[0, 1, 2, 7]);
    assert!(buf[4..].iter().all(|b| *b == 1));
}

#[test]
fn parse_recovers_what_build_wrote() {
    for channel in 0..6u8 {
        for len in [0usize, 1, 2, 17, 100, 251, 252] {
            let body: Vec<u8> = (0..len).map(|i| (i * 7 + channel as usize) as u8).collect();
            let mut buf = [0u8; 256];
            let n = build_frame(&mut buf, channel, 200, &body).unwrap();
            assert_eq!(n, len + 4);
            let (header, parsed) = parse_frame(&buf, n).unwrap();
            assert_eq!(
                header,
                FrameHeader { length: (len + 4) as u16, channel, sequence: 200 }
            );
            assert_eq!(parsed, &body[..]);
        }
    }
}

#[test]
fn parse_masks_the_top_bits_of_the_length() {
    // 0x8114 with the top two bits dropped is 0x0114 = 276
    let mut buf = [0u8; 1024];
    buf[0] = 0x14;
    buf[1] = 0x81;
    buf[2] = 3;
    buf[3] = 9;
    let (header, body) = parse_frame(&buf, 276).unwrap();
    assert_eq!(header.length, 276);
    assert_eq!(header.channel, 3);
    assert_eq!(header.sequence, 9);
    assert_eq!(body.len(), 272);
    buf[1] = 0xC1;
    assert!(parse_frame(&buf, 276).is_some());
}

#[test]
fn parse_refuses_inconsistent_lengths() {
    let frame = [5u8, 0, 1, 1, 1];
    assert!(parse_frame(&frame, 5).is_some());
    // shorter or longer than declared
    assert!(parse_frame(&frame, 4).is_none());
    assert!(parse_frame(&[5u8, 0, 1, 1, 1, 0], 6).is_none());
    // more than the buffer holds
    assert!(parse_frame(&[6u8, 0, 1, 1, 1], 6).is_none());
    // no room for a header
    assert!(parse_frame(&[3u8, 0, 1], 3).is_none());
    assert!(parse_frame(&[], 0).is_none());
    // a header alone is a frame with an empty body
    let (header, body) = parse_frame(&[4u8, 0, 2, 9], 4).unwrap();
    assert_eq!(header, FrameHeader { length: 4, channel: 2, sequence: 9 });
    assert!(body.is_empty());
}

#[test]
fn channel_numbers_match_the_wire() {
    assert_eq!(ChannelId::Command.number(), 0);
    assert_eq!(ChannelId::Executable.number(), 1);
    assert_eq!(ChannelId::HubControl.number(), 2);
    assert_eq!(ChannelId::SensorReports.number(), 3);
    assert_eq!(ChannelId::from_number(0), Some(ChannelId::Command));
    assert_eq!(ChannelId::from_number(1), Some(ChannelId::Executable));
    assert_eq!(ChannelId::from_number(2), Some(ChannelId::HubControl));
    assert_eq!(ChannelId::from_number(3), Some(ChannelId::SensorReports));
    assert_eq!(ChannelId::from_number(4), None);
    assert_eq!(ChannelId::from_number(5), None);
    assert_eq!(ChannelId::from_number(255), None);
}

#[test]
fn classify_routes_by_channel_and_report() {
    assert_eq!(classify(1, &[1]), Some(Dispatch::ResetComplete));
    assert_eq!(classify(1, &[2]), Some(Dispatch::Ignored));
    assert_eq!(classify(1, &[0]), Some(Dispatch::Ignored));
    assert_eq!(classify(2, &[0xF8]), Some(Dispatch::ProductId));
    assert_eq!(classify(2, &[0xF1, 0, 0x84]), Some(Dispatch::UnsolicitedStartup));
    assert_eq!(classify(2, &[0xF1, 0, 0x04]), Some(Dispatch::CommandResponse));
    assert_eq!(classify(2, &[0xF2, 0, 0x84]), Some(Dispatch::Ignored));
    assert_eq!(classify(3, &[0xFB, 0, 0, 0, 0, 0x05, 1]), Some(Dispatch::RotationVector));
    assert_eq!(classify(3, &[0xFB, 0, 0, 0, 0, 0x01, 1]), Some(Dispatch::SensorReport));
    assert_eq!(classify(0, &[0]), Some(Dispatch::Advertisement));
    assert_eq!(classify(0, &[0, 1, 0]), Some(Dispatch::Advertisement));
    assert_eq!(classify(0, &[1, 1]), Some(Dispatch::Ignored));
    // unknown channels are ignored whatever they carry
    assert_eq!(classify(4, &[1]), Some(Dispatch::Ignored));
    assert_eq!(classify(5, &[]), Some(Dispatch::Ignored));
    assert_eq!(classify(200, &[0xF8]), Some(Dispatch::Ignored));
}

#[test]
fn classify_refuses_truncated_bodies() {
    assert_eq!(classify(0, &[]), None);
    assert_eq!(classify(1, &[]), None);
    assert_eq!(classify(2, &[]), None);
    assert_eq!(classify(3, &[]), None);
    assert_eq!(classify(3, &[0xFB, 0, 0, 0, 0]), None);
    assert_eq!(classify(2, &[0xF1]), None);
    assert_eq!(classify(2, &[0xF1, 0]), None);
    assert_eq!(classify(0, &[0, 1]), None);
    assert_eq!(classify(0, &[0, 1, 2, 0]), None);
}

#[test]
fn input_report_tells_rotation_vector_apart() {
    assert_eq!(handle_input_report(&[0, 0, 0, 0, 0, 5]), Some(Dispatch::RotationVector));
    assert_eq!(handle_input_report(&[5, 5, 5, 5, 5, 6]), Some(Dispatch::SensorReport));
    assert_eq!(handle_input_report(&[5, 5, 5, 5, 5]), None);
}

#[test]
fn advertisement_walk_counts_records() {
    assert_eq!(handle_advertise_response(&[0]), Some(0));
    assert_eq!(handle_advertise_response(&[0, 9, 0]), Some(1));
    assert_eq!(handle_advertise_response(&[0, 9, 2, 1, 2, 8, 0]), Some(2));
    // a value of 255 bytes
    let mut long = vec![0u8, 1, 255];
    long.extend(std::iter::repeat(7u8).take(255));
    assert_eq!(handle_advertise_response(&long), Some(1));
}

#[test]
fn advertisement_walk_refuses_overrun() {
    // not even a report id
    assert_eq!(handle_advertise_response(&[]), None);
    // tag without a length
    assert_eq!(handle_advertise_response(&[0, 9]), None);
    // value cut short
    assert_eq!(handle_advertise_response(&[0, 9, 2, 1]), None);
    // second record overruns
    assert_eq!(handle_advertise_response(&[0, 9, 0, 8, 1]), None);
    let mut long = vec![0u8, 1, 255];
    long.extend(std::iter::repeat(7u8).take(254));
    assert_eq!(handle_advertise_response(&long), None);
}

#[test]
fn set_feature_command_for_rotation_vector() {
    let body = set_feature_command(0x05, 100);
    assert_eq!(body.len(), 17);
    assert_eq!(body[0], 0xFD);
    assert_eq!(body[1], 0x05);
    assert_eq!(&body[5..9], &100_000u32.to_le_bytes());
    assert_eq!(
        body,
        [0xFD, 0x05, 0, 0, 0, 0xA0, 0x86, 0x01, 0x00, 0, 0, 0, 0, 0, 0, 0, 0]
    );
}

#[test]
fn set_feature_command_interval_range() {
    assert_eq!(&set_feature_command(1, 0)[5..9], &[0, 0, 0, 0]);
    assert_eq!(&set_feature_command(1, 1)[5..9], &1_000u32.to_le_bytes());
    assert_eq!(&set_feature_command(1, 65535)[5..9], &65_535_000u32.to_le_bytes());
    for millis in [2u16, 10, 255, 256, 1000, 4096, 40000] {
        let body = set_feature_command(0x08, millis);
        assert_eq!(&body[5..9], &(millis as u32 * 1000).to_le_bytes());
        assert_eq!(body[1], 0x08);
        assert!(body[9..].iter().all(|b| *b == 0));
        assert_eq!(&body[2..5], &[0, 0, 0]);
    }
}

#[test]
fn sequencer_counts_each_channel_alone() {
    let mut seq = ChannelSequencer::new();
    for channel in 0..6u8 {
        assert_eq!(seq.current(channel), 0);
    }
    assert_eq!(seq.next(2), 1);
    assert_eq!(seq.next(2), 2);
    assert_eq!(seq.next(4), 1);
    assert_eq!(seq.next(2), 3);
    assert_eq!(seq.current(2), 3);
    assert_eq!(seq.current(4), 1);
    assert_eq!(seq.current(0), 0);
}

#[test]
fn sequencer_wraps_to_zero() {
    let mut seq = ChannelSequencer::new();
    for expected in 1..=255u8 {
        assert_eq!(seq.next(0), expected);
    }
    assert_eq!(seq.next(0), 0);
    assert_eq!(seq.next(0), 1);
    assert_eq!(seq.current(1), 0);
}

#[test]
fn device_state_flags_only_rise() {
    let mut state = DeviceState::new();
    assert!(!state.reset_complete());
    assert!(!state.product_id_verified());
    state.record(Dispatch::Advertisement);
    state.record(Dispatch::Ignored);
    state.record(Dispatch::RotationVector);
    state.record(Dispatch::SensorReport);
    state.record(Dispatch::CommandResponse);
    state.record(Dispatch::UnsolicitedStartup);
    assert!(!state.reset_complete());
    assert!(!state.product_id_verified());
    state.record(Dispatch::ResetComplete);
    assert!(state.reset_complete());
    assert!(!state.product_id_verified());
    state.record(Dispatch::ResetComplete);
    assert!(state.reset_complete());
    state.record(Dispatch::ProductId);
    state.record(Dispatch::Ignored);
    assert!(state.reset_complete());
    assert!(state.product_id_verified());
    assert_eq!(state.sequence_number(1), 0);
}

#[test]
fn device_state_counts_sends() {
    let mut state = DeviceState::new();
    assert_eq!(state.next_sequence(1), 1);
    assert_eq!(state.next_sequence(1), 2);
    assert_eq!(state.sequence_number(1), 2);
    assert_eq!(state.sequence_number(2), 0);
    state.mark_product_id_verified();
    assert!(state.product_id_verified());
    assert!(!state.reset_complete());
    assert_eq!(state.sequence_number(1), 2);
}

#[test]
fn product_id_response_needs_a_body() {
    assert!(is_product_id_response(&[6, 0, 2, 1, 0xF8, 0], 6));
    assert!(is_product_id_response(&[6, 0, 2, 1, 0xF8, 0], 5));
    assert!(!is_product_id_response(&[6, 0, 2, 1, 0xF8, 0], 4));
    assert!(!is_product_id_response(&[6, 0, 2, 1, 0xF8, 0], 0));
    assert!(!is_product_id_response(&[6, 0, 2, 1, 0xF9, 0], 6));
    assert!(!is_product_id_response(&[0xF8, 0xF8, 0xF8, 0xF8, 0, 0xF8], 6));
    // a buffer that ends with the header holds no response, whatever length is claimed
    assert!(!is_product_id_response(&[6, 0, 2, 1], 6));
    assert!(!is_product_id_response(&[], 6));
}

#[test]
fn drain_pause_ends_on_empty_read() {
    assert_eq!(drain_pause(0), None);
    assert_eq!(drain_pause(1), Some(1));
    assert_eq!(drain_pause(52), Some(1));
    assert_eq!(drain_pause(usize::MAX), Some(1));
}

#[test]
fn comm_result_wraps_only_failures() {
    let ok: Result<usize, u8> = Ok(52);
    assert!(matches!(comm_result(ok), Ok(52)));
    let failed: Result<usize, u8> = Err(9);
    assert!(matches!(comm_result(failed), Err(WrapperError::CommError(9))));
}

#[test]
fn length_or_zero_swallows_failures() {
    let ok: Result<usize, u8> = Ok(52);
    assert_eq!(length_or_zero(&ok), 52);
    let failed: Result<usize, u8> = Err(9);
    assert_eq!(length_or_zero(&failed), 0);
}
