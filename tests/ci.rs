use libmonitor::ddc::ci::{
    parse_feature_reply, DdcCiMessage, DdcCiProtocolError, DdcOpcode, ResultCode, VcpType,
    DDC_SLAVE_RECV_ADDR, DDC_SLAVE_SEND_ADDR,
};
use libmonitor::ddc::{
    decode_vcp_reply, next_capabilities_offset, set_vcp_request, should_retry_vcp, vcp_request,
    DdcCiError, DdcError,
};
use libmonitor::mccs::features::{LuminanceValue, NewControlValue, VcpFeatureCode};

/// The bytes a host reads for a frame: the read address, then the frame.
fn response(addr: u8, data: &[u8]) -> Vec<u8> {
    let mut msg_data = Vec::with_capacity(data.len() + 1);
    msg_data.push(addr << 1 | 0x01);
    msg_data.extend_from_slice(data);
    msg_data
}

fn xor(bytes: &[u8]) -> u8 {
    bytes.iter().fold(0, |a, b| a ^ b)
}

#[test]
fn null_message_check() {
    let null_msg = DdcCiMessage::NullResponse();
    let test = response(null_msg.addr(), &null_msg.transmit_buffer());
    assert_eq!(test, vec![DDC_SLAVE_SEND_ADDR, DDC_SLAVE_RECV_ADDR, 0x80, 0xbe]);
}

#[test]
fn parse_null_message() {
    let null_msg = DdcCiMessage::NullResponse();
    let test = response(null_msg.addr(), &null_msg.transmit_buffer());
    match DdcCiMessage::parse_buffer(&test) {
        Ok(recv_msg) => assert_eq!(recv_msg, null_msg),
        Err(_) => {
            assert!(false)
        }
    }
}

#[test]
fn set_vcp_luminance_wire_bytes() {
    let m = set_vcp_request(VcpFeatureCode::Luminance, 0x00, 0x32);
    let checksum = 0x6e ^ 0x51 ^ 0x84 ^ 0x03 ^ 0x10 ^ 0x00 ^ 0x32;
    assert_eq!(checksum, 0x9a);
    assert_eq!(m.transmit_buffer(), vec![0x51, 0x84, 0x03, 0x10, 0x00, 0x32, checksum]);
    assert_eq!(m.addr() << 1, 0x6e);
}

#[test]
fn vcp_request_wire_bytes() {
    let m = vcp_request(VcpFeatureCode::Contrast);
    let body = [0x51, 0x82, 0x01, 0x12];
    let checksum = 0x6e ^ xor(&body);
    assert_eq!(m.transmit_buffer(), vec![0x51, 0x82, 0x01, 0x12, checksum]);
}

#[test]
fn reply_round_trips_through_wire_form() {
    let m = DdcCiMessage::from_opcode(DdcOpcode::CapabilitiesReply)
        .set_offset(0x0120)
        .set_data(b"(prot(monitor))")
        .unwrap();
    let wire = response(m.addr(), &m.transmit_buffer());
    assert_eq!(wire[0], 0x6f);
    assert_eq!(&wire[4..6], &[0x01, 0x20]);
    let parsed = DdcCiMessage::parse_buffer(&wire).unwrap();
    assert_eq!(parsed, m);
    assert_eq!(parsed.get_offset(), Some(0x0120));
    assert_eq!(parsed.get_data(), b"(prot(monitor))");
}

#[test]
fn parsed_checksum_matches_last_byte() {
    let m = DdcCiMessage::from_opcode(DdcOpcode::VcpReply)
        .set_data(&[0x00, 0x10, 0x00, 0x00, 0x64, 0x00, 0x32])
        .unwrap();
    let wire = response(m.addr(), &m.transmit_buffer());
    let parsed = DdcCiMessage::parse_buffer(&wire).unwrap();
    assert_eq!(parsed.transmit_buffer().last(), wire.last());
    let mut padded = wire.clone();
    padded.resize(64, 0xaa);
    let parsed = DdcCiMessage::parse_buffer(&padded).unwrap();
    assert_eq!(parsed, m);
}

#[test]
fn request_checksum_uses_target() {
    let m = DdcCiMessage::from_opcode(DdcOpcode::SaveCurrentSettings);
    let buf = m.transmit_buffer();
    assert_eq!(buf, vec![0x51, 0x81, 0x0c, 0x6e ^ 0x51 ^ 0x81 ^ 0x0c]);
}

#[test]
fn parse_rejects_bad_checksum() {
    let mut wire = response(0x37, &DdcCiMessage::NullResponse().transmit_buffer());
    wire[3] ^= 0x01;
    assert_eq!(DdcCiMessage::parse_buffer(&wire), Err(DdcCiProtocolError::InvalidChecksum));
}

#[test]
fn parse_rejects_missing_length_marker() {
    let wire = [0x6f, 0x6e, 0x05, 0x00];
    assert_eq!(DdcCiMessage::parse_buffer(&wire), Err(DdcCiProtocolError::InvalidMessageFormat));
}

#[test]
fn parse_leaves_timing_reply_unimplemented() {
    let wire = [0x6f, 0x6e, 0x06, 0x00, 0x00];
    assert_eq!(DdcCiMessage::parse_buffer(&wire), Err(DdcCiProtocolError::Unimplemented));
}

#[test]
fn parse_leaves_reset_unimplemented() {
    let wire = [0x6f, 0x6e, 0x81, 0x09, 0x00];
    assert_eq!(DdcCiMessage::parse_buffer(&wire), Err(DdcCiProtocolError::Unimplemented));
}

#[test]
fn parse_rejects_truncated_frames() {
    assert!(matches!(DdcCiMessage::parse_buffer(&[0x6f, 0x6e]), Err(DdcCiProtocolError::ParserError(_))));
    assert!(matches!(
        DdcCiMessage::parse_buffer(&[0x6f, 0x6e, 0x83, 0x02, 0x00]),
        Err(DdcCiProtocolError::ParserError(_))
    ));
    assert!(matches!(
        DdcCiMessage::parse_buffer(&[0x6f, 0x6e, 0xff, 0x03]),
        Err(DdcCiProtocolError::ParserError(_))
    ));
}

#[test]
fn parse_limits_data_to_a_fragment() {
    // an unknown opcode with 33 data bytes
    let mut body = vec![0x6e, 0x80 | 34, 0xaa];
    body.extend_from_slice(&[0x11; 33]);
    let checksum = 0x50 ^ xor(&body);
    let mut wire = vec![0x6f];
    wire.extend_from_slice(&body);
    wire.push(checksum);
    wire.resize(64, 0);
    assert_eq!(DdcCiMessage::parse_buffer(&wire), Err(DdcCiProtocolError::InvalidLength));
    // the same with 32 data bytes parses
    let mut body = vec![0x6e, 0x80 | 33, 0xaa];
    body.extend_from_slice(&[0x11; 32]);
    let checksum = 0x50 ^ xor(&body);
    let mut wire = vec![0x6f];
    wire.extend_from_slice(&body);
    wire.push(checksum);
    let m = DdcCiMessage::parse_buffer(&wire).unwrap();
    assert_eq!(m.get_opcode(), Some(&DdcOpcode::Unknown(0xaa)));
    assert_eq!(m.get_data_len(), 32);
}

#[test]
fn host_sent_frame_round_trips() {
    let m = set_vcp_request(VcpFeatureCode::InputSelect, 0x00, 0x11);
    let mut wire = vec![0x6e];
    wire.extend_from_slice(&m.transmit_buffer());
    assert_eq!(DdcCiMessage::parse_buffer(&wire), Ok(m));
    let m = DdcCiMessage::from_opcode(DdcOpcode::CapabilitiesRequest).set_offset(0x40);
    let mut wire = vec![0x6e];
    wire.extend_from_slice(&m.transmit_buffer());
    assert_eq!(DdcCiMessage::parse_buffer(&wire), Ok(m));
}

#[test]
fn parse_rejects_overlong_data() {
    let mut wire = vec![0x6f, 0x6e, 0x80 | 40, 0xaa];
    wire.resize(64, 0);
    assert_eq!(DdcCiMessage::parse_buffer(&wire), Err(DdcCiProtocolError::InvalidLength));
}

#[test]
fn set_data_rejects_more_than_a_fragment() {
    let m = DdcCiMessage::from_opcode(DdcOpcode::TableWrite);
    assert_eq!(m.set_data(&[0u8; 33]), Err(DdcCiProtocolError::InvalidLength));
    let m = DdcCiMessage::from_opcode(DdcOpcode::TableWrite);
    assert_eq!(m.set_data(&[7u8; 32]).unwrap().get_data_len(), 32);
}

#[test]
fn add_offset_moves_offset_on() {
    let m = DdcCiMessage::from_opcode(DdcOpcode::CapabilitiesRequest).add_offset(32);
    assert_eq!(m.get_offset(), Some(32));
    let m = m.add_offset(32);
    assert_eq!(m.get_offset(), Some(64));
}

#[test]
fn opcode_bytes_round_trip() {
    for b in 0..=255u8 {
        let op = DdcOpcode::from(b);
        assert_eq!(u8::from(&op), b);
    }
    assert_eq!(DdcOpcode::from(0x02), DdcOpcode::VcpReply);
    assert_eq!(DdcOpcode::from(0x42), DdcOpcode::Unknown(0x42));
    assert!(DdcOpcode::CapabilitiesReply.has_offset());
    assert!(DdcOpcode::SetVcp.has_vcp_feature());
    assert!(!DdcOpcode::VcpReply.has_vcp_feature());
    assert!(DdcOpcode::VcpReply.is_response());
}

#[test]
fn feature_reply_decode() {
    let r = parse_feature_reply(&[0x00, 0x10, 0x00, 0x00, 0x64, 0x00, 0x32]).unwrap();
    assert_eq!(*r.result_code(), ResultCode::NoError);
    assert_eq!(r.vcp_feature(), VcpFeatureCode::Luminance);
    assert_eq!(*r.type_code(), VcpType::SetParameter);
    assert_eq!(r.vcp_data(), 0x00640032);
}

#[test]
fn feature_reply_rejects_bad_fields() {
    assert!(matches!(
        parse_feature_reply(&[0x02, 0x10, 0x00, 0x00, 0x64, 0x00, 0x32]),
        Err(DdcCiProtocolError::ParserError(_))
    ));
    assert!(matches!(
        parse_feature_reply(&[0x00, 0x10, 0x05, 0x00, 0x64, 0x00, 0x32]),
        Err(DdcCiProtocolError::ParserError(_))
    ));
    assert!(matches!(parse_feature_reply(&[0x00, 0x10]), Err(DdcCiProtocolError::ParserError(_))));
}

#[test]
fn decode_vcp_reply_outcomes() {
    let reply = DdcCiMessage::from_opcode(DdcOpcode::VcpReply)
        .set_data(&[0x00, 0x10, 0x00, 0x00, 0x64, 0x12, 0x32])
        .unwrap();
    let v: LuminanceValue = decode_vcp_reply(&reply).unwrap();
    assert_eq!(v, LuminanceValue { max: 0x64, val: 0x32 });

    let unsupported = DdcCiMessage::from_opcode(DdcOpcode::VcpReply)
        .set_data(&[0x01, 0x10, 0x00, 0x00, 0x00, 0x00, 0x00])
        .unwrap();
    assert_eq!(decode_vcp_reply::<LuminanceValue>(&unsupported), Err(DdcError::UnsupportedVcpFeature));

    let wrong = DdcCiMessage::from_opcode(DdcOpcode::CapabilitiesReply);
    assert_eq!(
        decode_vcp_reply::<LuminanceValue>(&wrong),
        Err(DdcError::CommunicationError(DdcCiError::UnexpectedReplyCode))
    );

    let bad_control = DdcCiMessage::from_opcode(DdcOpcode::VcpReply)
        .set_data(&[0x00, 0x02, 0x00, 0x00, 0x00, 0x00, 0x07])
        .unwrap();
    assert!(matches!(
        decode_vcp_reply::<NewControlValue>(&bad_control),
        Err(DdcError::CommunicationError(DdcCiError::ProtocolError(DdcCiProtocolError::ParserError(_))))
    ));
}

#[test]
fn retry_only_on_null_reply() {
    assert!(should_retry_vcp(&DdcCiMessage::NullResponse(), 3));
    assert!(!should_retry_vcp(&DdcCiMessage::NullResponse(), 0));
    assert!(!should_retry_vcp(&DdcCiMessage::from_opcode(DdcOpcode::VcpReply), 3));
}

#[test]
fn capability_offsets_stop_at_sixteen_bits() {
    assert_eq!(next_capabilities_offset(32, 32), Some(64));
    assert_eq!(next_capabilities_offset(0xfff0, 0x10), None);
}
