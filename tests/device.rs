use std::collections::VecDeque;

use libmonitor::ddc::ci::{DdcCiMessage, DdcOpcode};
use libmonitor::ddc::edid::{parse_edid, Edid};
use libmonitor::ddc::{
    absorb_capability_fragment, capabilities_from_payload, Ddc, DdcCiDevice, DdcCiError, DdcCommunicationBase, DdcDevice, DdcError, DeriveDdcCiDevice,
    I2C_DDC_RECV_BUFFER_SIZE,
};
use libmonitor::mccs::features::{
    InputSource, LuminanceValue, OsdLanguages, VcpFeatureCode, VcpFeatureValue,
};
use libmonitor::mccs::capabilities::CapabilityParseError;
use libmonitor::mccs::features::NewControlValue;
use libmonitor::mccs::queue::{fifo_action, start_state, FifoAction, QueueState, VcpCodeUpdateQueue};
use libmonitor::{DisplayError, MonitorDevice};

/// A monitor that answers from a script and records what it was sent.
struct ScriptedMonitor {
    sent: Vec<(u8, Vec<u8>)>,
    replies: VecDeque<DdcCiMessage>,
    delays: Vec<u64>,
}

impl ScriptedMonitor {
    fn new(replies: Vec<DdcCiMessage>) -> Self {
        ScriptedMonitor { sent: Vec::new(), replies: replies.into(), delays: Vec::new() }
    }
}

impl DdcCommunicationBase for ScriptedMonitor {
    fn transmit(&mut self, addr: u8, data: &[u8]) -> Result<(), DdcCiError> {
        self.sent.push((addr, data.to_vec()));
        Ok(())
    }

    fn receive(&mut self, addr: u8) -> Result<[u8; I2C_DDC_RECV_BUFFER_SIZE], DdcCiError> {
        let reply = match self.replies.pop_front() {
            Some(r) => r,
            None => return Err(DdcCiError::ReceiveError("no reply".to_string())),
        };
        let mut data = [0u8; I2C_DDC_RECV_BUFFER_SIZE];
        data[0] = addr << 1 | 0x01;
        let wire = reply.transmit_buffer();
        data[1..1 + wire.len()].copy_from_slice(&wire);
        Ok(data)
    }

    fn delay(&self, _delay_ms: u64) {}
}

impl DeriveDdcCiDevice for ScriptedMonitor {}

impl DdcDevice for ScriptedMonitor {
    fn name(&self) -> String {
        "scripted".to_string()
    }

    fn read_edid(&mut self) -> Result<Edid, DdcError> {
        let mut b = vec![0u8; 128];
        b[0..8].copy_from_slice(&[0x00, 0xff, 0xff, 0xff, 0xff, 0xff, 0xff, 0x00]);
        b[12] = 0x2a;
        b[17] = 33;
        for k in 0..4 {
            b[54 + 18 * k + 3] = 0x10;
        }
        let sum: u32 = b[..127].iter().map(|x| *x as u32).sum();
        b[127] = ((256 - sum % 256) % 256) as u8;
        parse_edid(&b).map_err(DdcError::EdidParseError)
    }
}

impl Ddc for ScriptedMonitor {}

fn vcp_reply(code: u8, word: u32) -> DdcCiMessage {
    let b = word.to_be_bytes();
    DdcCiMessage::from_opcode(DdcOpcode::VcpReply)
        .set_data(&[0x00, code, 0x00, b[0], b[1], b[2], b[3]])
        .unwrap()
}

fn capabilities_reply(offset: u16, data: &[u8]) -> DdcCiMessage {
    DdcCiMessage::from_opcode(DdcOpcode::CapabilitiesReply)
        .set_offset(offset)
        .set_data(data)
        .unwrap()
}

/// The offset field of a capabilities request as sent.
fn sent_offset(bytes: &[u8]) -> u16 {
    assert_eq!(bytes[2], 0xf3);
    u16::from_be_bytes([bytes[3], bytes[4]])
}

#[test]
fn capability_fragments_are_joined() {
    let text: Vec<u8> = (0..64u8).map(|i| b'a' + i % 26).collect();
    let mut dev = ScriptedMonitor::new(vec![
        capabilities_reply(0, &text[..32]),
        capabilities_reply(32, &text[32..]),
        capabilities_reply(64, &[]),
    ]);
    let bytes = dev.read_capability_string().unwrap();
    assert_eq!(bytes, text);
    assert_eq!(dev.sent.len(), 3);
    let offsets: Vec<u16> = dev.sent.iter().map(|(_, b)| sent_offset(b)).collect();
    assert_eq!(offsets, vec![0, 32, 64]);
    assert!(dev.sent.iter().all(|(addr, _)| *addr == 0x37));
}

#[test]
fn capabilities_read_and_parsed() {
    let text = b"(prot(monitor)type(lcd)model(XYZ)cmds(01 02 03)vcp(10 12 60(0F 10 11)))";
    let mut dev = ScriptedMonitor::new(vec![
        capabilities_reply(0, &text[..32]),
        capabilities_reply(32, &text[32..64]),
        capabilities_reply(64, &text[64..]),
        capabilities_reply(text.len() as u16, &[]),
    ]);
    let caps = dev.read_capabilities().unwrap();
    assert_eq!(caps.model, Some("XYZ".to_string()));
    assert_eq!(caps.vcp_features.len(), 3);
}

#[test]
fn vcp_read_retries_null_replies() {
    let mut dev = ScriptedMonitor::new(vec![
        DdcCiMessage::NullResponse(),
        DdcCiMessage::NullResponse(),
        vcp_reply(0x10, 0x0064_0032),
    ]);
    let v: LuminanceValue = dev.get_vcp_feature().unwrap();
    assert_eq!(v, LuminanceValue { max: 100, val: 50 });
    assert_eq!(dev.sent.len(), 3);
    assert!(dev.sent.iter().all(|(_, b)| b[2] == 0x01 && b[3] == 0x10));
}

#[test]
fn vcp_read_gives_up_after_three_retries() {
    let mut dev = ScriptedMonitor::new(vec![DdcCiMessage::NullResponse(); 5]);
    let r: Result<LuminanceValue, DdcError> = dev.get_vcp_feature();
    assert_eq!(r, Err(DdcError::CommunicationError(DdcCiError::UnexpectedReplyCode)));
    assert_eq!(dev.sent.len(), 4);
}

#[test]
fn vcp_read_reports_unsupported_feature() {
    let reply = DdcCiMessage::from_opcode(DdcOpcode::VcpReply)
        .set_data(&[0x01, 0x60, 0x00, 0x00, 0x00, 0x00, 0x00])
        .unwrap();
    let mut dev = ScriptedMonitor::new(vec![reply]);
    let r: Result<InputSource, DdcError> = dev.get_vcp_feature();
    assert_eq!(r, Err(DdcError::UnsupportedVcpFeature));
}

#[test]
fn vcp_write_sends_value_bytes() {
    let mut dev = ScriptedMonitor::new(vec![]);
    dev.set_vcp_feature(LuminanceValue { max: 100, val: 50 }).unwrap();
    let checksum = 0x6e ^ 0x51 ^ 0x84 ^ 0x03 ^ 0x10 ^ 0x00 ^ 0x32;
    assert_eq!(dev.sent, vec![(0x37, vec![0x51, 0x84, 0x03, 0x10, 0x00, 0x32, checksum])]);
    dev.save_current_settings().unwrap();
    assert_eq!(dev.sent[1].1[2], 0x0c);
}

#[test]
fn receive_failure_is_reported() {
    let mut dev = ScriptedMonitor::new(vec![]);
    let r: Result<OsdLanguages, DdcError> = dev.get_vcp_feature();
    assert!(matches!(r, Err(DdcError::CommunicationError(DdcCiError::ReceiveError(_)))));
}

#[test]
fn change_queue_reads_changed_controls() {
    let mut dev = ScriptedMonitor::new(vec![
        vcp_reply(0x02, 0x02),
        vcp_reply(0x52, 0x10),
        vcp_reply(0x10, 0x0064_0020),
        vcp_reply(0x52, 0x42),
        vcp_reply(0x52, 0x00),
    ]);
    let mut q = VcpCodeUpdateQueue::new();
    assert_eq!(
        q.next(&mut dev),
        Some(Ok(VcpFeatureValue::Luminance(LuminanceValue { max: 100, val: 32 })))
    );
    assert_eq!(q.next(&mut dev), Some(Ok(VcpFeatureValue::Unimplemented(0x42, 0))));
    assert_eq!(q.next(&mut dev), None);
    assert_eq!(q.next(&mut dev), None);
    let last = &dev.sent.last().unwrap().1;
    assert_eq!(&last[2..6], &[0x03, 0x02, 0x00, 0x01]);
}

#[test]
fn change_queue_empty_without_changes() {
    let mut dev = ScriptedMonitor::new(vec![vcp_reply(0x02, 0x01)]);
    let mut q = VcpCodeUpdateQueue::new();
    assert_eq!(q.next(&mut dev), None);
    assert_eq!(dev.sent.len(), 1);
}

#[test]
fn read_from_ddc_reads_typed_value() {
    let mut dev = ScriptedMonitor::new(vec![vcp_reply(0x60, 0x11)]);
    let v = VcpFeatureValue::read_from_ddc(&mut dev, VcpFeatureCode::InputSelect).unwrap();
    assert_eq!(v, VcpFeatureValue::InputSelect(InputSource::Hdmi1));
}

#[test]
fn monitor_device_reads_identity() {
    let m = MonitorDevice::new(ScriptedMonitor::new(vec![])).unwrap();
    assert_eq!(m.info.serial(), 0x2a);
    assert_eq!(m.info.manufacture_year(), 2023);
    assert!(m.info.capabilities().is_none());
}

#[test]
fn monitor_device_input_and_language() {
    let mut m = MonitorDevice::new(ScriptedMonitor::new(vec![
        vcp_reply(0x60, 0x0f),
        vcp_reply(0xcc, 0x04),
    ]))
    .unwrap();
    assert_eq!(m.get_input_source(), Ok(InputSource::DisplayPort1));
    assert_eq!(m.get_language(), Ok(OsdLanguages::German));
    m.set_input_source(InputSource::Hdmi2).unwrap();
    m.set_language(OsdLanguages::English).unwrap();
    let sent = &m.handle.sent;
    assert_eq!(&sent[2].1[2..6], &[0x03, 0x60, 0x00, 0x12]);
    assert_eq!(&sent[3].1[2..6], &[0x03, 0xcc, 0x00, 0x02]);
    let mut q = m.event_iter();
    assert_eq!(q.next(&mut *m.handle), None);
}

#[test]
fn display_error_wraps_edid_failure() {
    let e = DisplayError::DdcError(DdcError::InternalDisplay);
    assert!(matches!(e, DisplayError::DdcError(_)));
}

#[test]
fn fifo_actions() {
    assert_eq!(fifo_action(VcpFeatureCode::CodePage), FifoAction::Finish);
    assert_eq!(fifo_action(VcpFeatureCode::Contrast), FifoAction::Read(VcpFeatureCode::Contrast));
    assert_eq!(
        fifo_action(VcpFeatureCode::NewControlValue),
        FifoAction::Report(VcpFeatureValue::Unimplemented(0x02, 0))
    );
}

#[test]
fn fragment_step() {
    let mut buffer = b"ab".to_vec();
    let r = absorb_capability_fragment(&mut buffer, 32, &capabilities_reply(32, b"cd"));
    assert_eq!(r, Ok(Some(34)));
    assert_eq!(buffer, b"abcd".to_vec());
    let r = absorb_capability_fragment(&mut buffer, 34, &capabilities_reply(34, &[]));
    assert_eq!(r, Ok(None));
    assert_eq!(buffer, b"abcd".to_vec());
    let r = absorb_capability_fragment(&mut buffer, 0xfff0, &capabilities_reply(0xfff0, &[b'x'; 16]));
    assert_eq!(r, Err(DdcError::CommunicationError(DdcCiError::ProtocolError(
        libmonitor::ddc::ci::DdcCiProtocolError::InvalidLength
    ))));
}

#[test]
fn capability_payload_must_be_utf8() {
    assert_eq!(
        capabilities_from_payload(b"(x(\xff))").err(),
        Some(DdcError::CapabilityParseError(CapabilityParseError::NotUtf8))
    );
    assert_eq!(
        capabilities_from_payload(b"(prot(monitor)").err(),
        Some(DdcError::CapabilityParseError(CapabilityParseError::InvalidData))
    );
    assert_eq!(capabilities_from_payload(b"(model(M))").unwrap().model, Some("M".to_string()));
    let mut dev = ScriptedMonitor::new(vec![
        capabilities_reply(0, b"(x(\xff))"),
        capabilities_reply(6, &[]),
    ]);
    assert_eq!(
        dev.read_capabilities().err(),
        Some(DdcError::CapabilityParseError(CapabilityParseError::NotUtf8))
    );
}

#[test]
fn queue_start() {
    assert_eq!(start_state(&Ok(NewControlValue::NewControlValuesPresent)), QueueState::Draining);
    assert_eq!(start_state(&Ok(NewControlValue::Finished)), QueueState::Done);
    assert_eq!(start_state(&Err(DdcError::UnsupportedVcpFeature)), QueueState::Done);
    let mut dev = ScriptedMonitor::new(vec![]);
    let mut q = VcpCodeUpdateQueue::new();
    assert_eq!(q.next(&mut dev), None);
    assert_eq!(dev.sent.len(), 1);
}
