//! DDC/CI command messages: building, encoding and parsing frames.
use vstd::prelude::*;

use crate::mccs::features::{feature_code_byte, feature_code_of, VcpFeatureCode};

verus! {

#[derive(Debug, Clone, PartialEq, Eq)]
pub enum DdcCiProtocolError {
    /// The data of a frame is longer than a frame can hold.
    InvalidLength,
    /// The checksum byte does not match the frame.
    InvalidChecksum,
    /// The byte after the addresses is neither a length field nor the start
    /// of another known frame shape.
    InvalidMessageFormat,
    /// The input ended early or held an unexpected value.
    ParserError(String),
    /// A frame shape that this library does not decode (timing reports and
    /// the reset command).
    Unimplemented,
}

pub const DDC_SLAVE_SEND_ADDR: u8 = 0x6f;

pub const DDC_SLAVE_RECV_ADDR: u8 = 0x6e;

pub const DDC_MASTER_SEND_ADDR: u8 = 0x51;

pub const DDC_MASTER_RECV_ADDR: u8 = 0x50;

pub const LENGTH_PREFIX: u8 = 0x80;

pub const DDC_MAX_DATA_FRAGMENT_LENGTH: usize = 32;

#[derive(Debug, Clone, Copy, PartialEq, Eq, Structural)]
pub enum DdcOpcode {
    IdentificationRequest,
    IdentificationReply,
    CapabilitiesRequest,
    CapabilitiesReply,
    DisplaySelfTestRequest,
    DisplaySelfTestReply,
    TimingRequest,
    TimingReply,
    VcpRequest,
    VcpReply,
    SetVcp,
    ResetVcp,
    TableReadRequest,
    TableReadReply,
    TableWrite,
    EnableApplicationReport,
    SaveCurrentSettings,
    Unknown(u8),
}

pub open spec fn opcode_byte(op: DdcOpcode) -> u8 {
    match op {
        DdcOpcode::Unknown(b) => b,
        DdcOpcode::IdentificationRequest => 0xf1,
        DdcOpcode::IdentificationReply => 0xe1,
        DdcOpcode::CapabilitiesRequest => 0xf3,
        DdcOpcode::CapabilitiesReply => 0xe3,
        DdcOpcode::DisplaySelfTestRequest => 0xb1,
        DdcOpcode::DisplaySelfTestReply => 0xa1,
        DdcOpcode::TimingRequest => 0x07,
        DdcOpcode::TimingReply => 0x06,
        DdcOpcode::VcpRequest => 0x01,
        DdcOpcode::VcpReply => 0x02,
        DdcOpcode::SetVcp => 0x03,
        DdcOpcode::ResetVcp => 0x09,
        DdcOpcode::TableReadRequest => 0xe2,
        DdcOpcode::TableReadReply => 0xe4,
        DdcOpcode::TableWrite => 0xe7,
        DdcOpcode::EnableApplicationReport => 0xf5,
        DdcOpcode::SaveCurrentSettings => 0x0c,
    }
}

pub open spec fn opcode_of(b: u8) -> DdcOpcode {
    match b {
        0xf1 => DdcOpcode::IdentificationRequest,
        0xe1 => DdcOpcode::IdentificationReply,
        0xf3 => DdcOpcode::CapabilitiesRequest,
        0xe3 => DdcOpcode::CapabilitiesReply,
        0xb1 => DdcOpcode::DisplaySelfTestRequest,
        0xa1 => DdcOpcode::DisplaySelfTestReply,
        0x07 => DdcOpcode::TimingRequest,
        0x06 => DdcOpcode::TimingReply,
        0x01 => DdcOpcode::VcpRequest,
        0x02 => DdcOpcode::VcpReply,
        0x03 => DdcOpcode::SetVcp,
        0x09 => DdcOpcode::ResetVcp,
        0xe2 => DdcOpcode::TableReadRequest,
        0xe4 => DdcOpcode::TableReadReply,
        0xe7 => DdcOpcode::TableWrite,
        0xf5 => DdcOpcode::EnableApplicationReport,
        0x0c => DdcOpcode::SaveCurrentSettings,
        _ => DdcOpcode::Unknown(b),
    }
}

/// Whether frames with this opcode carry a 16 bit offset.
pub open spec fn opcode_has_offset(op: DdcOpcode) -> bool {
    match op {
        DdcOpcode::CapabilitiesRequest => true,
        DdcOpcode::CapabilitiesReply => true,
        DdcOpcode::TableReadRequest => true,
        DdcOpcode::TableReadReply => true,
        DdcOpcode::TableWrite => true,
        _ => false,
    }
}

/// Whether frames with this opcode carry a VCP feature byte. The standard
/// gives no layout for the reset command, so it has no answer here.
pub open spec fn opcode_has_vcp_feature(op: DdcOpcode) -> bool {
    match op {
        DdcOpcode::VcpRequest => true,
        DdcOpcode::SetVcp => true,
        DdcOpcode::TableReadRequest => true,
        DdcOpcode::TableWrite => true,
        _ => false,
    }
}

/// Whether the opcode is sent by the display rather than the host.
pub open spec fn opcode_is_response(op: DdcOpcode) -> bool {
    match op {
        DdcOpcode::IdentificationReply => true,
        DdcOpcode::CapabilitiesReply => true,
        DdcOpcode::DisplaySelfTestReply => true,
        DdcOpcode::TimingReply => true,
        DdcOpcode::VcpReply => true,
        DdcOpcode::ResetVcp => true,
        DdcOpcode::TableReadReply => true,
        _ => false,
    }
}

impl DdcOpcode {
    /// Reading the opcode's byte back gives the opcode itself.
    pub open spec fn is_canonical(self) -> bool {
        opcode_of(opcode_byte(self)) == self
    }

    pub fn to_byte(&self) -> (r: u8)
        ensures
            r == opcode_byte(*self),
    {
        match self {
            DdcOpcode::Unknown(b) => *b,
            DdcOpcode::IdentificationRequest => 0xf1,
            DdcOpcode::IdentificationReply => 0xe1,
            DdcOpcode::CapabilitiesRequest => 0xf3,
            DdcOpcode::CapabilitiesReply => 0xe3,
            DdcOpcode::DisplaySelfTestRequest => 0xb1,
            DdcOpcode::DisplaySelfTestReply => 0xa1,
            DdcOpcode::TimingRequest => 0x07,
            DdcOpcode::TimingReply => 0x06,
            DdcOpcode::VcpRequest => 0x01,
            DdcOpcode::VcpReply => 0x02,
            DdcOpcode::SetVcp => 0x03,
            DdcOpcode::ResetVcp => 0x09,
            DdcOpcode::TableReadRequest => 0xe2,
            DdcOpcode::TableReadReply => 0xe4,
            DdcOpcode::TableWrite => 0xe7,
            DdcOpcode::EnableApplicationReport => 0xf5,
            DdcOpcode::SaveCurrentSettings => 0x0c,
        }
    }

    pub fn from_byte(b: u8) -> (r: DdcOpcode)
        ensures
            r == opcode_of(b),
    {
        match b {
            0xf1 => DdcOpcode::IdentificationRequest,
            0xe1 => DdcOpcode::IdentificationReply,
            0xf3 => DdcOpcode::CapabilitiesRequest,
            0xe3 => DdcOpcode::CapabilitiesReply,
            0xb1 => DdcOpcode::DisplaySelfTestRequest,
            0xa1 => DdcOpcode::DisplaySelfTestReply,
            0x07 => DdcOpcode::TimingRequest,
            0x06 => DdcOpcode::TimingReply,
            0x01 => DdcOpcode::VcpRequest,
            0x02 => DdcOpcode::VcpReply,
            0x03 => DdcOpcode::SetVcp,
            0x09 => DdcOpcode::ResetVcp,
            0xe2 => DdcOpcode::TableReadRequest,
            0xe4 => DdcOpcode::TableReadReply,
            0xe7 => DdcOpcode::TableWrite,
            0xf5 => DdcOpcode::EnableApplicationReport,
            0x0c => DdcOpcode::SaveCurrentSettings,
            _ => DdcOpcode::Unknown(b),
        }
    }

    /// check if opcode requires offset fields, used for parsing
    pub fn has_offset(&self) -> (r: bool)
        ensures
            r == opcode_has_offset(*self),
    {
        match self {
            DdcOpcode::CapabilitiesRequest => true,
            DdcOpcode::CapabilitiesReply => true,
            DdcOpcode::TableReadRequest => true,
            DdcOpcode::TableReadReply => true,
            DdcOpcode::TableWrite => true,
            // unknown opcodes are assumed to have no offset; if they do, it
            // stays in the data
            _ => false,
        }
    }

    /// check if opcode requires vcp feature field, used for parsing
    pub fn has_vcp_feature(&self) -> (r: bool)
        requires
            !(*self is ResetVcp),
        ensures
            r == opcode_has_vcp_feature(*self),
    {
        match self {
            DdcOpcode::VcpRequest => true,
            DdcOpcode::SetVcp => true,
            DdcOpcode::TableReadRequest => true,
            DdcOpcode::TableWrite => true,
            // the feature of a VCP reply is not where this layout expects it,
            // so that reply is read in raw form
            _ => false,
        }
    }

    /// return if the opcode is supposed to be a response from the display
    pub fn is_response(&self) -> (r: bool)
        ensures
            r == opcode_is_response(*self),
    {
        match self {
            DdcOpcode::IdentificationReply => true,
            DdcOpcode::CapabilitiesReply => true,
            DdcOpcode::DisplaySelfTestReply => true,
            DdcOpcode::TimingReply => true,
            DdcOpcode::VcpReply => true,
            DdcOpcode::ResetVcp => true,
            DdcOpcode::TableReadReply => true,
            // an unknown opcode is taken to be one the host sends
            _ => false,
        }
    }
}

impl From<&DdcOpcode> for u8 {
    fn from(value: &DdcOpcode) -> Self {
        value.to_byte()
    }
}

impl vstd::std_specs::convert::FromSpecImpl<&DdcOpcode> for u8 {
    open spec fn obeys_from_spec() -> bool {
        true
    }

    open spec fn from_spec(v: &DdcOpcode) -> Self {
        opcode_byte(*v)
    }
}

impl From<u8> for DdcOpcode {
    fn from(value: u8) -> Self {
        Self::from_byte(value)
    }
}

impl vstd::std_specs::convert::FromSpecImpl<u8> for DdcOpcode {
    open spec fn obeys_from_spec() -> bool {
        true
    }

    open spec fn from_spec(v: u8) -> Self {
        opcode_of(v)
    }
}


/// The fields of a DDC/CI frame, as plain values.
pub struct MessageView {
    pub target: u8,
    pub sender: u8,
    pub opcode: Option<DdcOpcode>,
    pub vcp_feature: Option<VcpFeatureCode>,
    pub offset: Option<u16>,
    pub data: Seq<u8>,
}

/// The number of bytes after the length byte, checksum excluded.
pub open spec fn protocol_length(m: MessageView) -> nat {
    m.data.len() + (if m.opcode is Some { 1nat } else { 0nat }) + (if m.vcp_feature is Some {
        1nat
    } else {
        0nat
    }) + (if m.offset is Some { 2nat } else { 0nat })
}

pub open spec fn opcode_bytes(o: Option<DdcOpcode>) -> Seq<u8> {
    match o {
        Some(op) => seq![opcode_byte(op)],
        None => Seq::empty(),
    }
}

pub open spec fn feature_bytes(f: Option<VcpFeatureCode>) -> Seq<u8> {
    match f {
        Some(c) => seq![feature_code_byte(c)],
        None => Seq::empty(),
    }
}

/// An offset goes on the wire high byte first.
pub open spec fn offset_bytes(o: Option<u16>) -> Seq<u8> {
    match o {
        Some(x) => seq![(x >> 8u16) as u8, (x & 0xff) as u8],
        None => Seq::empty(),
    }
}

pub open spec fn offset_of(hi: u8, lo: u8) -> u16 {
    ((hi as u16) << 8u16) | (lo as u16)
}

/// Sender, length byte (with its marker bit), opcode, feature, offset and
/// data: everything that is sent but the checksum.
pub open spec fn frame_bytes(m: MessageView) -> Seq<u8> {
    seq![m.sender, LENGTH_PREFIX | (protocol_length(m) as u8)] + opcode_bytes(m.opcode)
        + feature_bytes(m.vcp_feature) + offset_bytes(m.offset) + m.data
}

/// Replies are checksummed against the host's receive address rather than
/// the address they travel to.
pub open spec fn virtual_destination(target: u8) -> u8 {
    if target == DDC_SLAVE_SEND_ADDR {
        DDC_MASTER_RECV_ADDR
    } else {
        target
    }
}

/// `acc` combined by XOR with every byte of `s`.
pub open spec fn xor_fold(acc: u8, s: Seq<u8>) -> u8
    decreases s.len(),
{
    if s.len() == 0 {
        acc
    } else {
        xor_fold(acc, s.drop_last()) ^ s.last()
    }
}

pub open spec fn checksum(m: MessageView) -> u8 {
    xor_fold(virtual_destination(m.target), frame_bytes(m))
}

/// The bytes sent for a message, checksum last.
pub open spec fn encode(m: MessageView) -> Seq<u8> {
    frame_bytes(m).push(checksum(m))
}

/// The byte that a host's read puts before a received frame: the frame's
/// 7 bit address with the read bit set.
pub open spec fn read_address_byte(target: u8) -> u8 {
    ((target >> 1u8) << 1u8) | 1u8
}

pub open spec fn null_response_view() -> MessageView {
    MessageView {
        target: DDC_SLAVE_SEND_ADDR,
        sender: DDC_SLAVE_RECV_ADDR,
        opcode: None,
        vcp_feature: None,
        offset: None,
        data: Seq::empty(),
    }
}

/// Why a received buffer does not parse.
#[derive(Debug, Clone, Copy, PartialEq, Eq, Structural)]
pub enum ParseFailure {
    Truncated,
    TooLong,
    BadChecksum,
    BadFormat,
    NotImplemented,
}

/// The error value that reports a failure.
pub open spec fn reports(e: DdcCiProtocolError, f: ParseFailure) -> bool {
    match f {
        ParseFailure::Truncated => e is ParserError,
        ParseFailure::TooLong => e is InvalidLength,
        ParseFailure::BadChecksum => e is InvalidChecksum,
        ParseFailure::BadFormat => e is InvalidMessageFormat,
        ParseFailure::NotImplemented => e is Unimplemented,
    }
}

/// Where the data of a frame with `n` body bytes and this opcode begins: past
/// the opcode, then past a feature byte and an offset where the opcode has
/// them and the body is long enough to hold them.
pub open spec fn has_feature_field(op: DdcOpcode, n: int) -> bool {
    opcode_has_vcp_feature(op) && n - 1 >= 1
}

pub open spec fn has_offset_field(op: DdcOpcode, n: int) -> bool {
    opcode_has_offset(op) && n - 1 - (if has_feature_field(op, n) { 1int } else { 0int }) >= 2
}

pub open spec fn data_start(op: DdcOpcode, n: int) -> int {
    4 + (if has_feature_field(op, n) { 1int } else { 0int }) + (if has_offset_field(op, n) {
        2int
    } else {
        0int
    })
}

/// The frame in a received buffer: the target address, the sender, a length
/// byte whose top bit is set and whose low 7 bits count the body bytes
/// (opcode, feature, offset, data), the body, then the checksum. Bytes after
/// the checksum are ignored.
pub open spec fn parse_frame(b: Seq<u8>) -> Result<MessageView, ParseFailure> {
    if b.len() < 3 {
        Err(ParseFailure::Truncated)
    } else if b[2] & LENGTH_PREFIX != LENGTH_PREFIX {
        if b[2] == opcode_byte(DdcOpcode::TimingReply) {
            Err(ParseFailure::NotImplemented)
        } else {
            Err(ParseFailure::BadFormat)
        }
    } else {
        let n = (b[2] & 0x7f) as int;
        if b.len() < 4 + n {
            Err(ParseFailure::Truncated)
        } else if n == 0 {
            let m = MessageView {
                target: b[0],
                sender: b[1],
                opcode: None,
                vcp_feature: None,
                offset: None,
                data: Seq::empty(),
            };
            if b[3] == checksum(m) {
                Ok(m)
            } else {
                Err(ParseFailure::BadChecksum)
            }
        } else {
            let op = opcode_of(b[3]);
            let start = data_start(op, n);
            if op is ResetVcp {
                Err(ParseFailure::NotImplemented)
            } else if 3 + n - start > DDC_MAX_DATA_FRAGMENT_LENGTH {
                Err(ParseFailure::TooLong)
            } else {
                let m = MessageView {
                    target: b[0],
                    sender: b[1],
                    opcode: Some(op),
                    vcp_feature: if has_feature_field(op, n) {
                        Some(feature_code_of(b[4]))
                    } else {
                        None
                    },
                    offset: if has_offset_field(op, n) {
                        Some(offset_of(b[start - 2], b[start - 1]))
                    } else {
                        None
                    },
                    data: b.subrange(start, 3 + n),
                };
                if b[3 + n] == checksum(m) {
                    Ok(m)
                } else {
                    Err(ParseFailure::BadChecksum)
                }
            }
        }
    }
}

#[derive(Debug, PartialEq, Clone)]
pub struct DdcCiMessage {
    target: u8,
    sender: u8,
    opcode: Option<DdcOpcode>,
    vcp_feature: Option<VcpFeatureCode>,
    offset: Option<u16>,
    data: Vec<u8>,
}

impl View for DdcCiMessage {
    type V = MessageView;

    closed spec fn view(&self) -> MessageView {
        MessageView {
            target: self.target,
            sender: self.sender,
            opcode: self.opcode,
            vcp_feature: self.vcp_feature,
            offset: self.offset,
            data: self.data@,
        }
    }
}

/// XOR of `init` and every byte of `bytes`.
fn xor_bytes(init: u8, bytes: &Vec<u8>) -> (r: u8)
    ensures
        r == xor_fold(init, bytes@),
{
    let mut c: u8 = init;
    let mut i: usize = 0;
    while i < bytes.len()
        invariant
            0 <= i <= bytes@.len(),
            c == xor_fold(init, bytes@.take(i as int)),
        decreases bytes@.len() - i,
    {
        proof {
            assert(bytes@.take(i as int + 1).drop_last() =~= bytes@.take(i as int));
        }
        c = c ^ bytes[i];
        i += 1;
    }
    proof {
        assert(bytes@.take(bytes@.len() as int) =~= bytes@);
    }
    c
}

impl DdcCiMessage {
    /// The data fits in a frame.
    pub open spec fn wf(&self) -> bool {
        self@.data.len() <= DDC_MAX_DATA_FRAGMENT_LENGTH
    }

    pub fn protocol_length(&self) -> (r: u8)
        requires
            self.wf(),
        ensures
            r == protocol_length(self@),
    {
        let mut length: u8 = self.data.len() as u8;
        if self.opcode.is_some() {
            length += 1;
        }
        if self.vcp_feature.is_some() {
            length += 1;
        }
        if self.offset.is_some() {
            length += 2;
        }
        length
    }

    /// Everything that is sent but the checksum.
    fn frame_body(&self) -> (r: Vec<u8>)
        requires
            self.wf(),
        ensures
            r@ == frame_bytes(self@),
    {
        let mut v: Vec<u8> = Vec::new();
        v.push(self.sender);
        v.push(LENGTH_PREFIX | self.protocol_length());
        match &self.opcode {
            Some(op) => v.push(op.to_byte()),
            None => {},
        }
        match self.vcp_feature {
            Some(f) => v.push(f.to_byte()),
            None => {},
        }
        match self.offset {
            Some(o) => {
                v.push((o >> 8u16) as u8);
                v.push((o & 0xff) as u8);
            },
            None => {},
        }
        let ghost head = v@;
        assert(head =~= seq![self@.sender, LENGTH_PREFIX | (protocol_length(self@) as u8)]
            + opcode_bytes(self@.opcode) + feature_bytes(self@.vcp_feature) + offset_bytes(
            self@.offset,
        ));
        let mut j: usize = 0;
        while j < self.data.len()
            invariant
                0 <= j <= self.data@.len(),
                v@ == head + self.data@.take(j as int),
            decreases self.data@.len() - j,
        {
            v.push(self.data[j]);
            j += 1;
            assert(v@ =~= head + self.data@.take(j as int));
        }
        assert(self.data@.take(self.data@.len() as int) =~= self.data@);
        v
    }

    pub fn compute_checksum(&self) -> (r: u8)
        requires
            self.wf(),
        ensures
            r == checksum(self@),
    {
        let body = self.frame_body();
        let init = if self.target == DDC_SLAVE_SEND_ADDR {
            DDC_MASTER_RECV_ADDR
        } else {
            self.target
        };
        xor_bytes(init, &body)
    }

    /// The reply a display gives while it has nothing to say yet.
    #[allow(non_snake_case)]
    pub fn NullResponse() -> (r: Self)
        ensures
            r@ == null_response_view(),
            r.wf(),
    {
        DdcCiMessage {
            target: DDC_SLAVE_SEND_ADDR,
            sender: DDC_SLAVE_RECV_ADDR,
            opcode: None,
            vcp_feature: None,
            offset: None,
            data: Vec::new(),
        }
    }

    pub fn is_null_response(&self) -> (r: bool)
        ensures
            r == (self@ == null_response_view()),
    {
        proof {
            if self.data@.len() == 0 {
                assert(self@.data =~= Seq::<u8>::empty());
            }
        }
        self.target == DDC_SLAVE_SEND_ADDR && self.sender == DDC_SLAVE_RECV_ADDR
            && self.opcode.is_none() && self.vcp_feature.is_none() && self.offset.is_none()
            && self.data.len() == 0
    }

    /// A message with the opcode and no other field: addressed to the
    /// display when the host sends it, to the host when the display does.
    pub fn from_opcode(opcode: DdcOpcode) -> (r: Self)
        ensures
            r.wf(),
            r@ == (MessageView {
                target: if opcode_is_response(opcode) {
                    DDC_SLAVE_SEND_ADDR
                } else {
                    DDC_SLAVE_RECV_ADDR
                },
                sender: if opcode_is_response(opcode) {
                    DDC_SLAVE_RECV_ADDR
                } else {
                    DDC_MASTER_SEND_ADDR
                },
                opcode: Some(opcode),
                vcp_feature: None,
                offset: None,
                data: Seq::empty(),
            }),
    {
        let response = opcode.is_response();
        DdcCiMessage {
            target: if response {
                DDC_SLAVE_SEND_ADDR
            } else {
                DDC_SLAVE_RECV_ADDR
            },
            sender: if response {
                DDC_SLAVE_RECV_ADDR
            } else {
                DDC_MASTER_SEND_ADDR
            },
            opcode: Some(opcode),
            vcp_feature: None,
            offset: None,
            data: Vec::new(),
        }
    }

    pub fn get_opcode(&self) -> (r: Option<&DdcOpcode>)
        ensures
            match r {
                Some(op) => self@.opcode == Some(*op),
                None => self@.opcode is None,
            },
    {
        self.opcode.as_ref()
    }

    pub fn set_vcp_feature(self, feature: VcpFeatureCode) -> (r: Self)
        ensures
            r@ == (MessageView { vcp_feature: Some(feature), ..self@ }),
    {
        let mut m = self;
        m.vcp_feature = Some(feature);
        m
    }

    pub fn set_offset(self, offset: u16) -> (r: Self)
        ensures
            r@ == (MessageView { offset: Some(offset), ..self@ }),
    {
        let mut m = self;
        m.offset = Some(offset);
        m
    }

    /// Moves the offset on by `add_offset`; a message without one gets it as
    /// its offset.
    pub fn add_offset(self, add_offset: u8) -> (r: Self)
        requires
            self@.offset matches Some(o) ==> o + add_offset <= u16::MAX,
        ensures
            r@ == (MessageView {
                offset: Some(
                    match self@.offset {
                        Some(o) => (o + add_offset) as u16,
                        None => add_offset as u16,
                    },
                ),
                ..self@
            }),
    {
        let mut m = self;
        match m.offset {
            Some(o) => m.offset = Some(o + add_offset as u16),
            None => m.offset = Some(add_offset as u16),
        }
        m
    }

    pub fn get_offset(&self) -> (r: Option<u16>)
        ensures
            r == self@.offset,
    {
        self.offset
    }

    /// Replaces the data; more than a fragment's worth is refused.
    pub fn set_data(self, data: &[u8]) -> (r: Result<Self, DdcCiProtocolError>)
        ensures
            data@.len() > DDC_MAX_DATA_FRAGMENT_LENGTH ==> r == Err::<Self, DdcCiProtocolError>(
                DdcCiProtocolError::InvalidLength,
            ),
            data@.len() <= DDC_MAX_DATA_FRAGMENT_LENGTH ==> r is Ok && r->Ok_0@ == (MessageView {
                data: data@,
                ..self@
            }) && r->Ok_0.wf(),
    {
        if data.len() > DDC_MAX_DATA_FRAGMENT_LENGTH {
            return Err(DdcCiProtocolError::InvalidLength);
        }
        let mut m = self;
        m.data = vstd::slice::slice_to_vec(data);
        Ok(m)
    }

    pub fn get_data(&self) -> (r: &[u8])
        ensures
            r@ == self@.data,
    {
        self.data.as_slice()
    }

    pub fn get_data_len(&self) -> (r: u8)
        requires
            self.wf(),
        ensures
            r == self@.data.len(),
    {
        self.data.len() as u8
    }

    /// The 7 bit I2C address of the target.
    pub fn addr(&self) -> (r: u8)
        ensures
            r == self@.target >> 1u8,
    {
        self.target >> 1u8
    }

    /// The bytes to send, from the sender byte to the checksum.
    pub fn transmit_buffer(&self) -> (r: Vec<u8>)
        requires
            self.wf(),
        ensures
            r@ == encode(self@),
    {
        let mut data = self.frame_body();
        let c = self.compute_checksum();
        data.push(c);
        data
    }

    /// Parses a received buffer: the read address byte, then the frame.
    pub fn parse_buffer(data: &[u8]) -> (r: Result<Self, DdcCiProtocolError>)
        ensures
            match parse_frame(data@) {
                Ok(m) => r is Ok && r->Ok_0@ == m && r->Ok_0.wf(),
                Err(f) => r is Err && reports(r->Err_0, f),
            },
    {
        if data.len() < 3 {
            return Err(DdcCiProtocolError::ParserError(String::new()));
        }
        let target = data[0];
        let sender = data[1];
        let length_byte = data[2];
        if length_byte & LENGTH_PREFIX != LENGTH_PREFIX {
            if length_byte == DdcOpcode::TimingReply.to_byte() {
                return Err(DdcCiProtocolError::Unimplemented);
            } else {
                return Err(DdcCiProtocolError::InvalidMessageFormat);
            }
        }
        let n: usize = (length_byte & 0x7f) as usize;
        if data.len() < n + 4 {
            return Err(DdcCiProtocolError::ParserError(String::new()));
        }
        if n == 0 {
            let message = DdcCiMessage {
                target,
                sender,
                opcode: None,
                vcp_feature: None,
                offset: None,
                data: Vec::new(),
            };
            assert(message@.data =~= Seq::<u8>::empty());
            if data[3] == message.compute_checksum() {
                return Ok(message);
            } else {
                return Err(DdcCiProtocolError::InvalidChecksum);
            }
        }
        let opcode = DdcOpcode::from_byte(data[3]);
        if let DdcOpcode::ResetVcp = opcode {
            return Err(DdcCiProtocolError::Unimplemented);
        }
        let has_feature = opcode.has_vcp_feature() && n - 1 >= 1;
        let feature_len: usize = if has_feature {
            1
        } else {
            0
        };
        let has_offset = opcode.has_offset() && n - 1 - feature_len >= 2;
        let start: usize = 4 + feature_len + if has_offset {
            2
        } else {
            0
        };
        let end: usize = 3 + n;
        if end - start > DDC_MAX_DATA_FRAGMENT_LENGTH {
            return Err(DdcCiProtocolError::InvalidLength);
        }
        let vcp_feature = if has_feature {
            Some(VcpFeatureCode::from_byte(data[4]))
        } else {
            None
        };
        let offset = if has_offset {
            Some(((data[start - 2] as u16) << 8u16) | (data[start - 1] as u16))
        } else {
            None
        };
        let mut payload: Vec<u8> = Vec::new();
        let mut j: usize = start;
        while j < end
            invariant
                start <= j <= end,
                end < data@.len(),
                payload@ == data@.subrange(start as int, j as int),
            decreases end - j,
        {
            payload.push(data[j]);
            j += 1;
            assert(payload@ =~= data@.subrange(start as int, j as int));
        }
        let message = DdcCiMessage { target, sender, opcode: Some(opcode), vcp_feature, offset, data: payload };
        if data[end] == message.compute_checksum() {
            Ok(message)
        } else {
            Err(DdcCiProtocolError::InvalidChecksum)
        }
    }
}


/// A message that parsing gives back: an opcode that reads back as itself
/// (and is not the reset command, which is not decoded), a feature field and
/// an offset exactly where the opcode has them, and at most a fragment of
/// data. Without an opcode the message is the bare addresses.
pub open spec fn is_valid_message(m: MessageView) -> bool {
    &&& m.data.len() <= DDC_MAX_DATA_FRAGMENT_LENGTH
    &&& match m.opcode {
        None => m.vcp_feature is None && m.offset is None && m.data.len() == 0,
        Some(op) => {
            &&& op.is_canonical()
            &&& !(op is ResetVcp)
            &&& (m.vcp_feature is Some <==> opcode_has_vcp_feature(op))
            &&& (m.offset is Some <==> opcode_has_offset(op))
            &&& (m.vcp_feature matches Some(f) ==> f.is_canonical())
        },
    }
}

proof fn lemma_length_byte(l: u8)
    requires
        l < 128,
    ensures
        (LENGTH_PREFIX | l) & LENGTH_PREFIX == LENGTH_PREFIX,
        (LENGTH_PREFIX | l) & 0x7f == l,
{
    assert((0x80u8 | l) & 0x80u8 == 0x80u8) by (bit_vector);
    assert((0x80u8 | l) & 0x7fu8 == l) by (bit_vector)
        requires
            l < 128,
    ;
}

proof fn lemma_offset_bytes(x: u16)
    ensures
        offset_of((x >> 8u16) as u8, (x & 0xff) as u8) == x,
{
    assert(((((x >> 8u16) as u8) as u16) << 8u16) | (((x & 0xffu16) as u8) as u16) == x)
        by (bit_vector);
}

/// Every valid message, host-sent or display-sent, parses back from its
/// encoding behind its own target address byte.
pub proof fn lemma_parse_encode_with_target(m: MessageView)
    requires
        is_valid_message(m),
    ensures
        parse_frame(seq![m.target] + encode(m)) == Ok::<MessageView, ParseFailure>(m),
{
    let t = m.target;
    let b = seq![m.target] + encode(m);
    let l = protocol_length(m) as int;
    assert(l <= 36);
    lemma_length_byte(l as u8);
    let body = opcode_bytes(m.opcode) + feature_bytes(m.vcp_feature) + offset_bytes(m.offset) + m.data;
    assert(frame_bytes(m) =~= seq![m.sender, LENGTH_PREFIX | (l as u8)] + body);
    assert(body.len() == l);
    assert(b.len() == 4 + l);
    assert(b[0] == t);
    assert(b[1] == m.sender);
    assert(b[2] == LENGTH_PREFIX | (l as u8));
    assert(b[3 + l] == checksum(m));
    assert forall|i: int| 0 <= i < l implies b[3 + i] == body[i] by {
        assert(b[3 + i] == encode(m)[2 + i]);
        assert(encode(m)[2 + i] == frame_bytes(m)[2 + i]);
    }
    let n = l as int;
    match m.opcode {
        None => {
            assert(m.data =~= Seq::<u8>::empty());
            let m2 = MessageView {
                target: b[0],
                sender: b[1],
                opcode: None,
                vcp_feature: None,
                offset: None,
                data: Seq::empty(),
            };
            assert(m2 == m);
        },
        Some(op) => {
            assert(b[3] == body[0]);
            assert(body[0] == opcode_byte(op));
            assert(opcode_of(b[3]) == op);
            let fv: int = if m.vcp_feature is Some { 1 } else { 0 };
            let fo: int = if m.offset is Some { 2 } else { 0 };
            assert(has_feature_field(op, n) == (m.vcp_feature is Some));
            assert(has_offset_field(op, n) == (m.offset is Some));
            let start = data_start(op, n);
            assert(start == 4 + fv + fo);
            assert(3 + n - start == m.data.len());
            let vf = if has_feature_field(op, n) {
                Some(feature_code_of(b[4]))
            } else {
                None
            };
            let of = if has_offset_field(op, n) {
                Some(offset_of(b[start - 2], b[start - 1]))
            } else {
                None
            };
            match m.vcp_feature {
                Some(f) => {
                    assert(b[4] == body[1]);
                    assert(body[1] == feature_code_byte(f));
                },
                None => {},
            }
            assert(vf == m.vcp_feature);
            match m.offset {
                Some(o) => {
                    assert(b[start - 2] == body[1 + fv]);
                    assert(b[start - 1] == body[2 + fv]);
                    assert(body[1 + fv] == (o >> 8u16) as u8);
                    assert(body[2 + fv] == (o & 0xff) as u8);
                    lemma_offset_bytes(o);
                },
                None => {},
            }
            assert(of == m.offset);
            assert forall|i: int| 0 <= i < m.data.len() implies b.subrange(start, 3 + n)[i]
                == m.data[i] by {
                assert(b[start + i] == body[start - 3 + i]);
            }
            assert(b.subrange(start, 3 + n) =~= m.data);
            let m2 = MessageView {
                target: b[0],
                sender: b[1],
                opcode: Some(op),
                vcp_feature: vf,
                offset: of,
                data: b.subrange(start, 3 + n),
            };
            assert(m2 == m);
        },
    }
}

/// Every valid message that the display sends (its target has the read bit
/// set) parses back from its wire form, that is its encoding behind the read
/// address byte.
pub proof fn lemma_parse_encode(m: MessageView)
    requires
        is_valid_message(m),
        m.target & 1 == 1,
    ensures
        parse_frame(seq![read_address_byte(m.target)] + encode(m)) == Ok::<MessageView, ParseFailure>(m),
{
    let t = m.target;
    assert(((t >> 1u8) << 1u8) | 1u8 == t) by (bit_vector)
        requires
            t & 1 == 1,
    ;
    lemma_parse_encode_with_target(m);
}

/// The checksum byte of every buffer that parses is the checksum byte of the
/// parsed message's encoding; for a buffer that ends with its frame, that is
/// the buffer's last byte.
pub proof fn lemma_parsed_checksum(b: Seq<u8>)
    requires
        parse_frame(b) is Ok,
    ensures
        encode(parse_frame(b)->Ok_0).last() == b[3 + (b[2] & 0x7f) as int],
        b.len() == 4 + (b[2] & 0x7f) ==> encode(parse_frame(b)->Ok_0).last() == b.last(),
{
}

#[derive(Debug, Clone, Copy, PartialEq, Eq, Structural)]
pub enum ResultCode {
    NoError,
    UnsupportedCode,
}

#[derive(Debug, Clone, Copy, PartialEq, Eq, Structural)]
pub enum VcpType {
    SetParameter,
    Momentary,
}

/// The decoded data of a VCP reply.
#[derive(Debug, Clone, Copy, PartialEq, Eq, Structural)]
pub struct FeatureReplyMessage {
    pub result_code: ResultCode,
    pub vcp_feature: VcpFeatureCode,
    pub type_code: VcpType,
    pub vcp_data: u32,
}

impl FeatureReplyMessage {
    pub fn result_code(&self) -> (r: &ResultCode)
        ensures
            *r == self.result_code,
    {
        &self.result_code
    }

    pub fn vcp_feature(&self) -> (r: VcpFeatureCode)
        ensures
            r == self.vcp_feature,
    {
        self.vcp_feature
    }

    pub fn vcp_data(&self) -> (r: u32)
        ensures
            r == self.vcp_data,
    {
        self.vcp_data
    }

    pub fn type_code(&self) -> (r: &VcpType)
        ensures
            *r == self.type_code,
    {
        &self.type_code
    }
}

/// The word MH:ML:VH:VL, most significant byte first.
pub open spec fn word_of(mh: u8, ml: u8, vh: u8, vl: u8) -> u32 {
    ((mh as u32) << 24u32) | ((ml as u32) << 16u32) | ((vh as u32) << 8u32) | (vl as u32)
}

/// A VCP reply's data: result code (0 or 1), feature code, VCP type (0 or 1)
/// and the four value bytes MH, ML, VH, VL. Bytes after these are ignored.
pub open spec fn feature_reply_of(b: Seq<u8>) -> Option<FeatureReplyMessage> {
    if b.len() < 7 || b[0] > 1 || b[2] > 1 {
        None
    } else {
        Some(
            FeatureReplyMessage {
                result_code: if b[0] == 0 {
                    ResultCode::NoError
                } else {
                    ResultCode::UnsupportedCode
                },
                vcp_feature: feature_code_of(b[1]),
                type_code: if b[2] == 0 {
                    VcpType::SetParameter
                } else {
                    VcpType::Momentary
                },
                vcp_data: word_of(b[3], b[4], b[5], b[6]),
            },
        )
    }
}

pub fn parse_feature_reply(i: &[u8]) -> (r: Result<FeatureReplyMessage, DdcCiProtocolError>)
    ensures
        match feature_reply_of(i@) {
            Some(m) => r == Ok::<FeatureReplyMessage, DdcCiProtocolError>(m),
            None => r is Err && r->Err_0 is ParserError,
        },
{
    if i.len() < 7 {
        return Err(DdcCiProtocolError::ParserError(String::new()));
    }
    let result_code = match i[0] {
        0x00 => ResultCode::NoError,
        0x01 => ResultCode::UnsupportedCode,
        _ => {
            return Err(DdcCiProtocolError::ParserError(String::new()));
        },
    };
    let type_code = match i[2] {
        0x00 => VcpType::SetParameter,
        0x01 => VcpType::Momentary,
        _ => {
            return Err(DdcCiProtocolError::ParserError(String::new()));
        },
    };
    Ok(
        FeatureReplyMessage {
            result_code,
            vcp_feature: VcpFeatureCode::from_byte(i[1]),
            type_code,
            vcp_data: ((i[3] as u32) << 24u32) | ((i[4] as u32) << 16u32) | ((i[5] as u32) << 8u32)
                | (i[6] as u32),
        },
    )
}

} // verus!
