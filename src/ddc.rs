//! Control displays using the DDC/CI protocol.
//!
//! Provides generic traits and utilities for working with DDC.
use vstd::prelude::*;

/// DDC/CI command messages.
pub mod ci;
/// E-DDC definitions
pub mod eddc;
/// EDID data parsing
pub mod edid;
/// Which Linux I2C buses lead to a monitor
pub mod sysfs;

use self::ci::{
    feature_reply_of, parse_feature_reply, DdcCiMessage, DdcCiProtocolError,
    DdcOpcode, MessageView, ResultCode,
};
use self::edid::{Edid, EdidParseError};
use crate::mccs::capabilities::{
    capabilities_match, capabilities_of, is_utf8, parse_capabilities, CapabilityParseError,
    Capabilities,
};
use vstd::utf8::valid_utf8;
use crate::mccs::features::{
    ContrastValue, InputSource, LuminanceValue, NewControlValue, OsdLanguages, VcpFeatureCode,
    VcpFeatureValue, VcpValue,
};

verus! {

/// The size of a receive buffer: twice the largest data fragment.
pub const I2C_DDC_RECV_BUFFER_SIZE: usize = 64;

/// Milliseconds a monitor needs before a VCP reply can be read.
pub const VCP_REPLY_DELAY_MS: u64 = 40;

/// Milliseconds a monitor needs to take in a command or prepare a capability
/// fragment.
pub const COMMAND_DELAY_MS: u64 = 50;

/// How often a VCP request is repeated while the monitor gives the null reply.
pub const NULL_REPLY_RETRIES: u8 = 3;

#[derive(Debug, Clone, PartialEq, Eq)]
pub enum DdcError {
    /// Reading data from the system failed.
    ReadDataError(String),
    EdidParseError(EdidParseError),
    /// Internal displays do not support DDC/CI.
    InternalDisplay,
    CommunicationError(DdcCiError),
    UnsupportedVcpFeature,
    /// The monitor's capability string does not parse.
    CapabilityParseError(CapabilityParseError),
}

#[derive(Debug, Clone, PartialEq, Eq)]
pub enum DdcCiError {
    /// Sending DDC data failed.
    TransmitError(String),
    /// Receiving DDC data failed.
    ReceiveError(String),
    ProtocolError(DdcCiProtocolError),
    /// The reply's opcode does not belong to the request.
    UnexpectedReplyCode,
}

/// Implement this trait to enable usage of auto implemented DDC functions for
/// your device.
pub trait DdcCommunicationBase {
    /// Raw I2C write of `data` to the 7 bit address `addr`.
    fn transmit(&mut self, addr: u8, data: &[u8]) -> Result<(), DdcCiError>;

    /// Raw I2C read from the 7 bit address `addr`. Byte 0 of the buffer is
    /// the read address `(addr << 1) | 1`; the read bytes follow.
    fn receive(&mut self, addr: u8) -> Result<[u8; 64], DdcCiError>;

    /// Sleep for `delay_ms` milliseconds.
    fn delay(&self, delay_ms: u64);
}

/// Marks a transport that gets the DDC/CI operations of [`DdcCiDevice`].
pub trait DeriveDdcCiDevice: DdcCommunicationBase {
}

/// The request for the VCP feature `code`.
pub fn vcp_request(code: VcpFeatureCode) -> (r: DdcCiMessage)
    ensures
        r.wf(),
        r@ == (MessageView {
            target: ci::DDC_SLAVE_RECV_ADDR,
            sender: ci::DDC_MASTER_SEND_ADDR,
            opcode: Some(DdcOpcode::VcpRequest),
            vcp_feature: Some(code),
            offset: None,
            data: Seq::empty(),
        }),
{
    DdcCiMessage::from_opcode(DdcOpcode::VcpRequest).set_vcp_feature(code)
}

/// The command that sets the VCP feature `code` to the value bytes VH and VL.
pub fn set_vcp_request(code: VcpFeatureCode, vh: u8, vl: u8) -> (r: DdcCiMessage)
    ensures
        r.wf(),
        r@ == (MessageView {
            target: ci::DDC_SLAVE_RECV_ADDR,
            sender: ci::DDC_MASTER_SEND_ADDR,
            opcode: Some(DdcOpcode::SetVcp),
            vcp_feature: Some(code),
            offset: None,
            data: seq![vh, vl],
        }),
{
    let data = [vh, vl];
    let m = DdcCiMessage::from_opcode(DdcOpcode::SetVcp).set_vcp_feature(code);
    match m.set_data(&data) {
        Ok(m) => {
            assert(data@ =~= seq![vh, vl]);
            m
        },
        Err(_) => {
            assert(false);
            DdcCiMessage::NullResponse()
        },
    }
}

/// The request for the capability string fragment at `offset`.
pub fn capabilities_request(offset: u16) -> (r: DdcCiMessage)
    ensures
        r.wf(),
        r@ == (MessageView {
            target: ci::DDC_SLAVE_RECV_ADDR,
            sender: ci::DDC_MASTER_SEND_ADDR,
            opcode: Some(DdcOpcode::CapabilitiesRequest),
            vcp_feature: None,
            offset: Some(offset),
            data: Seq::empty(),
        }),
{
    DdcCiMessage::from_opcode(DdcOpcode::CapabilitiesRequest).set_offset(offset)
}

/// The command that makes the monitor save its current settings.
pub fn save_settings_request() -> (r: DdcCiMessage)
    ensures
        r.wf(),
        r@ == (MessageView {
            target: ci::DDC_SLAVE_RECV_ADDR,
            sender: ci::DDC_MASTER_SEND_ADDR,
            opcode: Some(DdcOpcode::SaveCurrentSettings),
            vcp_feature: None,
            offset: None,
            data: Seq::empty(),
        }),
{
    DdcCiMessage::from_opcode(DdcOpcode::SaveCurrentSettings)
}

/// The result is a failure to parse the reply.
pub open spec fn is_reply_parse_error<V>(r: Result<V, DdcError>) -> bool {
    r matches Err(
        DdcError::CommunicationError(DdcCiError::ProtocolError(DdcCiProtocolError::ParserError(_))),
    )
}

/// The result of a VCP reply for a value of type `V`: the reply must carry
/// the VCP reply opcode and a well formed feature reply, the monitor must
/// support the feature, and the word must stand for a value of `V`.
pub open spec fn vcp_reply_result<V: VcpValue>(r: Result<V, DdcError>, reply: MessageView) -> bool {
    if reply.opcode != Some(DdcOpcode::VcpReply) {
        r == Err::<V, DdcError>(DdcError::CommunicationError(DdcCiError::UnexpectedReplyCode))
    } else {
        match feature_reply_of(reply.data) {
            None => is_reply_parse_error(r),
            Some(m) => if m.result_code is UnsupportedCode {
                r == Err::<V, DdcError>(DdcError::UnsupportedVcpFeature)
            } else {
                match V::spec_decode(m.vcp_data) {
                    Some(v) => r == Ok::<V, DdcError>(v),
                    None => is_reply_parse_error(r),
                }
            },
        }
    }
}

/// Decodes the reply to a VCP request into a value of type `V`.
pub fn decode_vcp_reply<V: VcpValue>(reply: &DdcCiMessage) -> (r: Result<V, DdcError>)
    ensures
        vcp_reply_result(r, reply@),
{
    match reply.get_opcode() {
        Some(DdcOpcode::VcpReply) => {},
        _ => {
            return Err(DdcError::CommunicationError(DdcCiError::UnexpectedReplyCode));
        },
    }
    let m = match parse_feature_reply(reply.get_data()) {
        Ok(m) => m,
        Err(e) => {
            return Err(DdcError::CommunicationError(DdcCiError::ProtocolError(e)));
        },
    };
    if let ResultCode::UnsupportedCode = m.result_code() {
        return Err(DdcError::UnsupportedVcpFeature);
    }
    match V::from_word(m.vcp_data()) {
        Some(v) => Ok(v),
        None => Err(
            DdcError::CommunicationError(
                DdcCiError::ProtocolError(DdcCiProtocolError::ParserError(String::new())),
            ),
        ),
    }
}

/// Whether a VCP request is sent again: the reply was the null reply and
/// retries are left.
pub fn should_retry_vcp(reply: &DdcCiMessage, retries_left: u8) -> (r: bool)
    ensures
        r == (retries_left > 0 && reply@ == ci::null_response_view()),
{
    retries_left > 0 && reply.is_null_response()
}

/// The offset of the next capability fragment, or `None` where it would not
/// fit in 16 bits.
pub fn next_capabilities_offset(offset: u16, fragment_len: u8) -> (r: Option<u16>)
    ensures
        offset + fragment_len <= u16::MAX ==> r == Some((offset + fragment_len) as u16),
        offset + fragment_len > u16::MAX ==> r is None,
{
    offset.checked_add(fragment_len as u16)
}

/// Takes in one capability fragment: an empty one ends the read and leaves
/// the buffer as it is; any other is appended, and the read goes on at the
/// offset after it, unless that offset would not fit in 16 bits.
pub fn absorb_capability_fragment(buffer: &mut Vec<u8>, offset: u16, reply: &DdcCiMessage) -> (r:
    Result<Option<u16>, DdcError>)
    requires
        reply.wf(),
    ensures
        reply@.data.len() == 0 ==> r == Ok::<Option<u16>, DdcError>(None) && final(buffer)@
            == old(buffer)@,
        reply@.data.len() > 0 ==> final(buffer)@ == old(buffer)@ + reply@.data && r == if offset
            + reply@.data.len() <= u16::MAX {
            Ok::<Option<u16>, DdcError>(Some((offset + reply@.data.len()) as u16))
        } else {
            Err::<Option<u16>, DdcError>(
                DdcError::CommunicationError(
                    DdcCiError::ProtocolError(DdcCiProtocolError::InvalidLength),
                ),
            )
        },
{
    let n = reply.get_data_len();
    if n == 0 {
        return Ok(None);
    }
    let data = reply.get_data();
    let ghost start = buffer@;
    let mut k: usize = 0;
    while k < data.len()
        invariant
            k <= data@.len(),
            data@ == reply@.data,
            buffer@ == start + data@.take(k as int),
        decreases data@.len() - k,
    {
        buffer.push(data[k]);
        k += 1;
        assert(buffer@ =~= start + data@.take(k as int));
    }
    assert(data@.take(data@.len() as int) =~= data@);
    match next_capabilities_offset(offset, n) {
        Some(o) => Ok(Some(o)),
        None => Err(
            DdcError::CommunicationError(DdcCiError::ProtocolError(DdcCiProtocolError::InvalidLength)),
        ),
    }
}

/// The capabilities in a joined capability payload, which must be UTF-8 text.
pub fn capabilities_from_payload(bytes: &[u8]) -> (r: Result<Capabilities, DdcError>)
    ensures
        !valid_utf8(bytes@) ==> r == Err::<Capabilities, DdcError>(
            DdcError::CapabilityParseError(CapabilityParseError::NotUtf8),
        ),
        valid_utf8(bytes@) ==> match capabilities_of(bytes@) {
            Some(v) => r matches Ok(c) && capabilities_match(c, v),
            None => r == Err::<Capabilities, DdcError>(
                DdcError::CapabilityParseError(CapabilityParseError::InvalidData),
            ),
        },
{
    if !is_utf8(bytes) {
        return Err(DdcError::CapabilityParseError(CapabilityParseError::NotUtf8));
    }
    match parse_capabilities(bytes) {
        Ok(c) => Ok(c),
        Err(e) => Err(DdcError::CapabilityParseError(e)),
    }
}

/// Sends a message to its target.
fn send<X: DdcCommunicationBase>(dev: &mut X, m: &DdcCiMessage) -> (r: Result<(), DdcError>)
    requires
        m.wf(),
    ensures
        r matches Err(e) ==> e is CommunicationError,
{
    match dev.transmit(m.addr(), m.transmit_buffer().as_slice()) {
        Ok(()) => Ok(()),
        Err(e) => Err(DdcError::CommunicationError(e)),
    }
}

/// Reads and parses the reply to a message.
fn receive_reply<X: DdcCommunicationBase>(dev: &mut X, m: &DdcCiMessage) -> (r: Result<
    DdcCiMessage,
    DdcError,
>)
    ensures
        r matches Ok(reply) ==> reply.wf(),
        r matches Err(e) ==> e is CommunicationError,
{
    let buffer = match dev.receive(m.addr()) {
        Ok(b) => b,
        Err(e) => {
            return Err(DdcError::CommunicationError(e));
        },
    };
    match DdcCiMessage::parse_buffer(buffer.as_slice()) {
        Ok(reply) => Ok(reply),
        Err(e) => Err(DdcError::CommunicationError(DdcCiError::ProtocolError(e))),
    }
}

/// One exchange: send the request, wait, read and parse the reply.
fn exchange<X: DdcCommunicationBase>(dev: &mut X, request: &DdcCiMessage, delay_ms: u64) -> (r: Result<
    DdcCiMessage,
    DdcError,
>)
    requires
        request.wf(),
    ensures
        r matches Ok(reply) ==> reply.wf(),
        r matches Err(e) ==> e is CommunicationError,
{
    send(dev, request)?;
    dev.delay(delay_ms);
    receive_reply(dev, request)
}

/// The DDC/CI operations. What the monitor answers is not known in advance,
/// so each operation states what holds of any answer; the functions that
/// decide on an answer ([`decode_vcp_reply`], [`should_retry_vcp`],
/// [`next_capabilities_offset`], [`parse_capabilities`]) state it exactly.
pub trait DdcCiDevice {
    /// Read Device Capabilities
    fn read_capabilities(&mut self) -> (r: Result<Capabilities, DdcError>)
        ensures
            r matches Ok(c) ==> exists|s: Seq<u8>|
                #![trigger capabilities_of(s)]
                valid_utf8(s) && (capabilities_of(s) matches Some(v) && capabilities_match(c, v)),
            r matches Err(e) ==> e is CommunicationError || e is CapabilityParseError,
    ;

    /// The raw capability string, read fragment by fragment from offset 0
    /// until the monitor sends an empty fragment.
    fn read_capability_string(&mut self) -> (r: Result<Vec<u8>, DdcError>)
        ensures
            r matches Err(e) ==> e is CommunicationError,
    ;

    /// Gets the current value of an MCCS VCP feature.
    fn get_vcp_feature<V: VcpValue>(&mut self) -> (r: Result<V, DdcError>)
        ensures
            r matches Ok(v) ==> exists|w: u32| V::spec_decode(w) == Some(v),
            r matches Err(e) ==> e is CommunicationError || e is UnsupportedVcpFeature,
    ;

    /// Sets a VCP feature to the specified value.
    fn set_vcp_feature<V: VcpValue>(&mut self, vcp_value: V) -> (r: Result<(), DdcError>)
        ensures
            r matches Err(e) ==> e is CommunicationError,
    ;

    /// Instruct the device to save its current settings.
    fn save_current_settings(&mut self) -> (r: Result<(), DdcError>)
        ensures
            r matches Err(e) ==> e is CommunicationError,
    ;
}

impl<X: DeriveDdcCiDevice> DdcCiDevice for X {
    fn read_capabilities(&mut self) -> (r: Result<Capabilities, DdcError>) {
        let bytes = self.read_capability_string()?;
        capabilities_from_payload(bytes.as_slice())
    }

    fn read_capability_string(&mut self) -> (r: Result<Vec<u8>, DdcError>) {
        let mut buffer: Vec<u8> = Vec::new();
        let mut offset: u16 = 0;
        loop
            decreases u16::MAX - offset,
        {
            let request = capabilities_request(offset);
            let reply = exchange(self, &request, COMMAND_DELAY_MS)?;
            match absorb_capability_fragment(&mut buffer, offset, &reply)? {
                Some(next) => offset = next,
                None => {
                    return Ok(buffer);
                },
            }
        }
    }

    fn get_vcp_feature<V: VcpValue>(&mut self) -> (r: Result<V, DdcError>) {
        let request = vcp_request(V::vcp_feature());
        let mut reply = exchange(self, &request, VCP_REPLY_DELAY_MS)?;
        let mut retries: u8 = NULL_REPLY_RETRIES;
        while should_retry_vcp(&reply, retries)
            invariant
                request.wf(),
            decreases retries,
        {
            reply = exchange(self, &request, VCP_REPLY_DELAY_MS)?;
            retries -= 1;
        }
        let r = decode_vcp_reply(&reply);
        proof {
            if r is Ok {
                let m = feature_reply_of(reply@.data)->Some_0;
                assert(V::spec_decode(m.vcp_data) == Some(r->Ok_0));
            }
        }
        r
    }

    fn set_vcp_feature<V: VcpValue>(&mut self, vcp_value: V) -> (r: Result<(), DdcError>) {
        let request = set_vcp_request(V::vcp_feature(), vcp_value.vh(), vcp_value.vl());
        send(self, &request)?;
        self.delay(COMMAND_DELAY_MS);
        Ok(())
    }

    fn save_current_settings(&mut self) -> (r: Result<(), DdcError>) {
        let request = save_settings_request();
        send(self, &request)
    }
}

impl VcpFeatureValue {
    /// Reads the current value of a feature into its typed value.
    pub fn read_from_ddc<D: DdcCiDevice>(ddc_channel: &mut D, feature: VcpFeatureCode) -> (r: Result<
        Self,
        DdcError,
    >)
        requires
            feature.is_readable(),
        ensures
            r matches Ok(v) ==> match feature {
                VcpFeatureCode::NewControlValue => v is NewControlValue,
                VcpFeatureCode::Luminance => v is Luminance,
                VcpFeatureCode::Contrast => v is Contrast,
                VcpFeatureCode::OsdLanguage => v is OsdLanguage,
                _ => v is InputSelect,
            },
            r matches Err(e) ==> e is CommunicationError || e is UnsupportedVcpFeature,
    {
        match feature {
            VcpFeatureCode::NewControlValue => {
                let c: NewControlValue = ddc_channel.get_vcp_feature()?;
                Ok(VcpFeatureValue::NewControlValue(c))
            },
            VcpFeatureCode::Luminance => {
                let l: LuminanceValue = ddc_channel.get_vcp_feature()?;
                Ok(VcpFeatureValue::Luminance(l))
            },
            VcpFeatureCode::Contrast => {
                let c: ContrastValue = ddc_channel.get_vcp_feature()?;
                Ok(VcpFeatureValue::Contrast(c))
            },
            VcpFeatureCode::OsdLanguage => {
                let l: OsdLanguages = ddc_channel.get_vcp_feature()?;
                Ok(VcpFeatureValue::OsdLanguage(l))
            },
            _ => {
                let v: InputSource = ddc_channel.get_vcp_feature()?;
                Ok(VcpFeatureValue::InputSelect(v))
            },
        }
    }
}

pub trait DdcDevice {
    fn name(&self) -> String;

    /// Read Edid Data from Ddc Device
    fn read_edid(&mut self) -> Result<Edid, DdcError>;
}

pub trait Ddc: DdcDevice + DdcCiDevice {
}

} // verus!
