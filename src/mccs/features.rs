//! VCP feature codes and the values that travel in VCP requests and replies.
use vstd::prelude::*;

verus! {

/// VCP feature code
#[derive(Debug, Clone, Copy, PartialEq, Eq, Structural)]
pub enum VcpFeatureCode {
    /// doubles as the value of ActiveControl when its FIFO is empty
    CodePage,
    NewControlValue,
    Luminance,
    Contrast,
    ActiveControl,
    OsdLanguage,
    InputSelect,
    Unimplemented(u8),
    Unknown,
}

/// The byte that stands for a feature code on the wire.
pub open spec fn feature_code_byte(c: VcpFeatureCode) -> u8 {
    match c {
        VcpFeatureCode::CodePage => 0x00,
        VcpFeatureCode::NewControlValue => 0x02,
        VcpFeatureCode::Luminance => 0x10,
        VcpFeatureCode::Contrast => 0x12,
        VcpFeatureCode::ActiveControl => 0x52,
        VcpFeatureCode::InputSelect => 0x60,
        VcpFeatureCode::OsdLanguage => 0xcc,
        VcpFeatureCode::Unimplemented(b) => b,
        VcpFeatureCode::Unknown => 0x00,
    }
}

/// The feature code that a wire byte names.
pub open spec fn feature_code_of(b: u8) -> VcpFeatureCode {
    match b {
        0x00 => VcpFeatureCode::CodePage,
        0x02 => VcpFeatureCode::NewControlValue,
        0x10 => VcpFeatureCode::Luminance,
        0x12 => VcpFeatureCode::Contrast,
        0x52 => VcpFeatureCode::ActiveControl,
        0x60 => VcpFeatureCode::InputSelect,
        0xcc => VcpFeatureCode::OsdLanguage,
        _ => VcpFeatureCode::Unimplemented(b),
    }
}

impl VcpFeatureCode {
    /// One of the codes this library gives a name to.
    pub open spec fn is_named(self) -> bool {
        !(self is Unimplemented) && !(self is Unknown)
    }

    /// Reading the code's byte back gives the code itself.
    pub open spec fn is_canonical(self) -> bool {
        feature_code_of(feature_code_byte(self)) == self
    }

    pub fn to_byte(self) -> (r: u8)
        ensures
            r == feature_code_byte(self),
    {
        match self {
            VcpFeatureCode::CodePage => 0x00,
            VcpFeatureCode::NewControlValue => 0x02,
            VcpFeatureCode::Luminance => 0x10,
            VcpFeatureCode::Contrast => 0x12,
            VcpFeatureCode::ActiveControl => 0x52,
            VcpFeatureCode::InputSelect => 0x60,
            VcpFeatureCode::OsdLanguage => 0xcc,
            VcpFeatureCode::Unimplemented(b) => b,
            VcpFeatureCode::Unknown => 0x00,
        }
    }

    pub fn from_byte(b: u8) -> (r: Self)
        ensures
            r == feature_code_of(b),
    {
        match b {
            0x00 => VcpFeatureCode::CodePage,
            0x02 => VcpFeatureCode::NewControlValue,
            0x10 => VcpFeatureCode::Luminance,
            0x12 => VcpFeatureCode::Contrast,
            0x52 => VcpFeatureCode::ActiveControl,
            0x60 => VcpFeatureCode::InputSelect,
            0xcc => VcpFeatureCode::OsdLanguage,
            _ => VcpFeatureCode::Unimplemented(b),
        }
    }
}

impl From<u8> for VcpFeatureCode {
    fn from(value: u8) -> Self {
        Self::from_byte(value)
    }
}

impl vstd::std_specs::convert::FromSpecImpl<u8> for VcpFeatureCode {
    open spec fn obeys_from_spec() -> bool {
        true
    }

    open spec fn from_spec(v: u8) -> Self {
        feature_code_of(v)
    }
}

impl From<VcpFeatureCode> for u8 {
    fn from(value: VcpFeatureCode) -> Self {
        value.to_byte()
    }
}

impl vstd::std_specs::convert::FromSpecImpl<VcpFeatureCode> for u8 {
    open spec fn obeys_from_spec() -> bool {
        true
    }

    open spec fn from_spec(v: VcpFeatureCode) -> Self {
        feature_code_byte(v)
    }
}

/// Every named feature code survives a trip through its wire byte.
pub proof fn lemma_feature_code_round_trip(v: VcpFeatureCode)
    requires
        v.is_named(),
    ensures
        feature_code_of(feature_code_byte(v)) == v,
{
}

/// A value that can be read or written through a VCP feature.
///
/// Every such value fits in 32 bits, split on the wire into the four bytes
/// MH, ML, VH and VL.
pub trait VcpValue: Sized + Copy {
    /// The feature code under which the value is read and written.
    spec fn spec_feature() -> VcpFeatureCode;

    /// The 32 bit word that stands for the value.
    spec fn spec_word(self) -> u32;

    /// The value that a word read from a monitor stands for, if any.
    spec fn spec_decode(w: u32) -> Option<Self>;

    fn vcp_feature() -> (r: VcpFeatureCode)
        ensures
            r == Self::spec_feature(),
    ;

    fn to_word(self) -> (r: u32)
        ensures
            r == self.spec_word(),
    ;

    fn from_word(w: u32) -> (r: Option<Self>)
        ensures
            r == Self::spec_decode(w),
    ;

    fn mh(&self) -> (r: u8)
        ensures
            r == (self.spec_word() >> 24u32) as u8,
    {
        (self.to_word() >> 24u32) as u8
    }

    fn ml(&self) -> (r: u8)
        ensures
            r == ((self.spec_word() >> 16u32) & 0xff) as u8,
    {
        ((self.to_word() >> 16u32) & 0xff) as u8
    }

    fn vh(&self) -> (r: u8)
        ensures
            r == ((self.spec_word() >> 8u32) & 0xff) as u8,
    {
        ((self.to_word() >> 8u32) & 0xff) as u8
    }

    fn vl(&self) -> (r: u8)
        ensures
            r == (self.spec_word() & 0xff) as u8,
    {
        (self.to_word() & 0xff) as u8
    }
}

impl VcpValue for VcpFeatureCode {
    open spec fn spec_feature() -> VcpFeatureCode {
        VcpFeatureCode::ActiveControl
    }

    open spec fn spec_word(self) -> u32 {
        feature_code_byte(self) as u32
    }

    open spec fn spec_decode(w: u32) -> Option<Self> {
        Some(feature_code_of((w & 0xff) as u8))
    }

    fn vcp_feature() -> (r: VcpFeatureCode) {
        VcpFeatureCode::ActiveControl
    }

    fn to_word(self) -> (r: u32) {
        self.to_byte() as u32
    }

    fn from_word(w: u32) -> (r: Option<Self>) {
        Some(Self::from_byte((w & 0xff) as u8))
    }
}

/// A value of a feature that this library has no type for.
#[derive(Debug, Clone, Copy, PartialEq, Eq, Structural)]
pub struct AnonymousVcpValue(pub u32);

impl VcpValue for AnonymousVcpValue {
    open spec fn spec_feature() -> VcpFeatureCode {
        VcpFeatureCode::Unknown
    }

    open spec fn spec_word(self) -> u32 {
        self.0
    }

    open spec fn spec_decode(w: u32) -> Option<Self> {
        Some(AnonymousVcpValue(w))
    }

    fn vcp_feature() -> (r: VcpFeatureCode) {
        VcpFeatureCode::Unknown
    }

    fn to_word(self) -> (r: u32) {
        self.0
    }

    fn from_word(w: u32) -> (r: Option<Self>) {
        Some(AnonymousVcpValue(w))
    }
}

/// State of the monitor's queue of changed controls.
#[derive(Debug, Clone, Copy, PartialEq, Eq, Structural)]
pub enum NewControlValue {
    NewControlValuesPresent,
    Finished,
}

impl VcpValue for NewControlValue {
    open spec fn spec_feature() -> VcpFeatureCode {
        VcpFeatureCode::NewControlValue
    }

    open spec fn spec_word(self) -> u32 {
        match self {
            NewControlValue::NewControlValuesPresent => 0x02,
            NewControlValue::Finished => 0x01,
        }
    }

    /// Only 0x01 and 0x02 (in the low nibble) are allowed; anything else is a
    /// protocol violation.
    open spec fn spec_decode(w: u32) -> Option<Self> {
        if w & 0x0f == 0x01 {
            Some(NewControlValue::Finished)
        } else if w & 0x0f == 0x02 {
            Some(NewControlValue::NewControlValuesPresent)
        } else {
            None
        }
    }

    fn vcp_feature() -> (r: VcpFeatureCode) {
        VcpFeatureCode::NewControlValue
    }

    fn to_word(self) -> (r: u32) {
        match self {
            NewControlValue::NewControlValuesPresent => 0x02,
            NewControlValue::Finished => 0x01,
        }
    }

    fn from_word(w: u32) -> (r: Option<Self>) {
        let nibble = w & 0x0f;
        if nibble == 0x01 {
            Some(NewControlValue::Finished)
        } else if nibble == 0x02 {
            Some(NewControlValue::NewControlValuesPresent)
        } else {
            None
        }
    }
}

/// The word of a continuous value: maximum in the high half, current value in
/// the low half.
pub open spec fn continuous_word(max: u16, val: u16) -> u32 {
    ((max as u32) << 16u32) | (val as u32)
}

/// Maximum and current value decoded from a word. Only the low byte of the
/// current value (VL) is taken, as the monitors this library was written for
/// report it.
pub open spec fn continuous_max(w: u32) -> u16 {
    (w >> 16u32) as u16
}

pub open spec fn continuous_val(w: u32) -> u16 {
    (w & 0xff) as u16
}

/// Screen brightness.
#[derive(Debug, Clone, Copy, PartialEq, Eq, Structural)]
pub struct LuminanceValue {
    pub max: u16,
    pub val: u16,
}

impl VcpValue for LuminanceValue {
    open spec fn spec_feature() -> VcpFeatureCode {
        VcpFeatureCode::Luminance
    }

    open spec fn spec_word(self) -> u32 {
        continuous_word(self.max, self.val)
    }

    open spec fn spec_decode(w: u32) -> Option<Self> {
        Some(LuminanceValue { max: continuous_max(w), val: continuous_val(w) })
    }

    fn vcp_feature() -> (r: VcpFeatureCode) {
        VcpFeatureCode::Luminance
    }

    fn to_word(self) -> (r: u32) {
        ((self.max as u32) << 16u32) | (self.val as u32)
    }

    fn from_word(w: u32) -> (r: Option<Self>) {
        Some(LuminanceValue { max: (w >> 16u32) as u16, val: (w & 0xff) as u16 })
    }
}

/// Screen contrast.
#[derive(Debug, Clone, Copy, PartialEq, Eq, Structural)]
pub struct ContrastValue {
    pub max: u16,
    pub val: u16,
}

impl ContrastValue {
    pub fn max(&self) -> (r: u16)
        ensures
            r == self.max,
    {
        self.max
    }

    pub fn val(&self) -> (r: u16)
        ensures
            r == self.val,
    {
        self.val
    }
}

impl VcpValue for ContrastValue {
    open spec fn spec_feature() -> VcpFeatureCode {
        VcpFeatureCode::Contrast
    }

    open spec fn spec_word(self) -> u32 {
        continuous_word(self.max, self.val)
    }

    open spec fn spec_decode(w: u32) -> Option<Self> {
        Some(ContrastValue { max: continuous_max(w), val: continuous_val(w) })
    }

    fn vcp_feature() -> (r: VcpFeatureCode) {
        VcpFeatureCode::Contrast
    }

    fn to_word(self) -> (r: u32) {
        ((self.max as u32) << 16u32) | (self.val as u32)
    }

    fn from_word(w: u32) -> (r: Option<Self>) {
        Some(ContrastValue { max: (w >> 16u32) as u16, val: (w & 0xff) as u16 })
    }
}

// Words to values and back, for the value types that every word decodes to
// (a word for NewControlValue may be a protocol violation, so it only
// converts one way).

impl From<u32> for VcpFeatureCode {
    fn from(value: u32) -> Self {
        match Self::from_word(value) {
            Some(v) => v,
            None => {
                assert(false);
                Self::from_word(0).unwrap()
            },
        }
    }
}

impl vstd::std_specs::convert::FromSpecImpl<u32> for VcpFeatureCode {
    open spec fn obeys_from_spec() -> bool {
        true
    }

    open spec fn from_spec(v: u32) -> Self {
        feature_code_of((v & 0xff) as u8)
    }
}

impl From<VcpFeatureCode> for u32 {
    fn from(value: VcpFeatureCode) -> Self {
        value.to_word()
    }
}

impl vstd::std_specs::convert::FromSpecImpl<VcpFeatureCode> for u32 {
    open spec fn obeys_from_spec() -> bool {
        true
    }

    open spec fn from_spec(v: VcpFeatureCode) -> Self {
        v.spec_word()
    }
}

impl From<u32> for AnonymousVcpValue {
    fn from(value: u32) -> Self {
        match Self::from_word(value) {
            Some(v) => v,
            None => {
                assert(false);
                Self::from_word(0).unwrap()
            },
        }
    }
}

impl vstd::std_specs::convert::FromSpecImpl<u32> for AnonymousVcpValue {
    open spec fn obeys_from_spec() -> bool {
        true
    }

    open spec fn from_spec(v: u32) -> Self {
        AnonymousVcpValue(v)
    }
}

impl From<AnonymousVcpValue> for u32 {
    fn from(value: AnonymousVcpValue) -> Self {
        value.to_word()
    }
}

impl vstd::std_specs::convert::FromSpecImpl<AnonymousVcpValue> for u32 {
    open spec fn obeys_from_spec() -> bool {
        true
    }

    open spec fn from_spec(v: AnonymousVcpValue) -> Self {
        v.spec_word()
    }
}

impl From<u32> for LuminanceValue {
    fn from(value: u32) -> Self {
        match Self::from_word(value) {
            Some(v) => v,
            None => {
                assert(false);
                Self::from_word(0).unwrap()
            },
        }
    }
}

impl vstd::std_specs::convert::FromSpecImpl<u32> for LuminanceValue {
    open spec fn obeys_from_spec() -> bool {
        true
    }

    open spec fn from_spec(v: u32) -> Self {
        LuminanceValue { max: continuous_max(v), val: continuous_val(v) }
    }
}

impl From<LuminanceValue> for u32 {
    fn from(value: LuminanceValue) -> Self {
        value.to_word()
    }
}

impl vstd::std_specs::convert::FromSpecImpl<LuminanceValue> for u32 {
    open spec fn obeys_from_spec() -> bool {
        true
    }

    open spec fn from_spec(v: LuminanceValue) -> Self {
        v.spec_word()
    }
}

impl From<u32> for ContrastValue {
    fn from(value: u32) -> Self {
        match Self::from_word(value) {
            Some(v) => v,
            None => {
                assert(false);
                Self::from_word(0).unwrap()
            },
        }
    }
}

impl vstd::std_specs::convert::FromSpecImpl<u32> for ContrastValue {
    open spec fn obeys_from_spec() -> bool {
        true
    }

    open spec fn from_spec(v: u32) -> Self {
        ContrastValue { max: continuous_max(v), val: continuous_val(v) }
    }
}

impl From<ContrastValue> for u32 {
    fn from(value: ContrastValue) -> Self {
        value.to_word()
    }
}

impl vstd::std_specs::convert::FromSpecImpl<ContrastValue> for u32 {
    open spec fn obeys_from_spec() -> bool {
        true
    }

    open spec fn from_spec(v: ContrastValue) -> Self {
        v.spec_word()
    }
}

impl From<NewControlValue> for u32 {
    fn from(value: NewControlValue) -> Self {
        value.to_word()
    }
}

impl vstd::std_specs::convert::FromSpecImpl<NewControlValue> for u32 {
    open spec fn obeys_from_spec() -> bool {
        true
    }

    open spec fn from_spec(v: NewControlValue) -> Self {
        v.spec_word()
    }
}

/// On screen display language.
#[derive(Debug, Clone, Copy, PartialEq, Eq, Structural)]
pub enum OsdLanguages {
    Ignored,
    ChineseTraditional,
    English,
    French,
    German,
    Italian,
    Japanese,
    Korean,
    PortuguesePortugal,
    Russian,
    Spanish,
    Swedish,
    Turkish,
    ChineseSimplified,
    PortugueseBrazil,
    Arabic,
    Bulgarian,
    Croatian,
    Czech,
    Danish,
    Dutch,
    Estonian,
    Finnish,
    Greek,
    Hebrew,
    Hindi,
    Hungarian,
    Lativan,
    Lithuanian,
    Norwegian,
    Polish,
    Romanian,
    Serbian,
    Slovak,
    Slovenian,
    Thai,
    Ukrainian,
    Vietnamese,
    UndefinedLanguage(u32),
}

/// The language that the low 16 bits of a word name.
pub open spec fn osd_language_of(w: u32) -> OsdLanguages {
    let x = w & 0xffff;
    match x {
        0x00 => OsdLanguages::Ignored,
        0x01 => OsdLanguages::ChineseTraditional,
        0x02 => OsdLanguages::English,
        0x03 => OsdLanguages::French,
        0x04 => OsdLanguages::German,
        0x05 => OsdLanguages::Italian,
        0x06 => OsdLanguages::Japanese,
        0x07 => OsdLanguages::Korean,
        0x08 => OsdLanguages::PortuguesePortugal,
        0x09 => OsdLanguages::Russian,
        0x0A => OsdLanguages::Spanish,
        0x0B => OsdLanguages::Swedish,
        0x0C => OsdLanguages::Turkish,
        0x0D => OsdLanguages::ChineseSimplified,
        0x0E => OsdLanguages::PortugueseBrazil,
        0x0F => OsdLanguages::Arabic,
        0x10 => OsdLanguages::Bulgarian,
        0x11 => OsdLanguages::Croatian,
        0x12 => OsdLanguages::Czech,
        0x13 => OsdLanguages::Danish,
        0x14 => OsdLanguages::Dutch,
        0x15 => OsdLanguages::Estonian,
        0x16 => OsdLanguages::Finnish,
        0x17 => OsdLanguages::Greek,
        0x18 => OsdLanguages::Hebrew,
        0x19 => OsdLanguages::Hindi,
        0x1A => OsdLanguages::Hungarian,
        0x1B => OsdLanguages::Lativan,
        0x1C => OsdLanguages::Lithuanian,
        0x1D => OsdLanguages::Norwegian,
        0x1E => OsdLanguages::Polish,
        0x1F => OsdLanguages::Romanian,
        0x20 => OsdLanguages::Serbian,
        0x21 => OsdLanguages::Slovak,
        0x22 => OsdLanguages::Slovenian,
        0x23 => OsdLanguages::Thai,
        0x24 => OsdLanguages::Ukrainian,
        0x25 => OsdLanguages::Vietnamese,
        _ => OsdLanguages::UndefinedLanguage(x),
    }
}

pub open spec fn osd_language_word(l: OsdLanguages) -> u32 {
    match l {
        OsdLanguages::Ignored => 0x00,
        OsdLanguages::ChineseTraditional => 0x01,
        OsdLanguages::English => 0x02,
        OsdLanguages::French => 0x03,
        OsdLanguages::German => 0x04,
        OsdLanguages::Italian => 0x05,
        OsdLanguages::Japanese => 0x06,
        OsdLanguages::Korean => 0x07,
        OsdLanguages::PortuguesePortugal => 0x08,
        OsdLanguages::Russian => 0x09,
        OsdLanguages::Spanish => 0x0A,
        OsdLanguages::Swedish => 0x0B,
        OsdLanguages::Turkish => 0x0C,
        OsdLanguages::ChineseSimplified => 0x0D,
        OsdLanguages::PortugueseBrazil => 0x0E,
        OsdLanguages::Arabic => 0x0F,
        OsdLanguages::Bulgarian => 0x10,
        OsdLanguages::Croatian => 0x11,
        OsdLanguages::Czech => 0x12,
        OsdLanguages::Danish => 0x13,
        OsdLanguages::Dutch => 0x14,
        OsdLanguages::Estonian => 0x15,
        OsdLanguages::Finnish => 0x16,
        OsdLanguages::Greek => 0x17,
        OsdLanguages::Hebrew => 0x18,
        OsdLanguages::Hindi => 0x19,
        OsdLanguages::Hungarian => 0x1A,
        OsdLanguages::Lativan => 0x1B,
        OsdLanguages::Lithuanian => 0x1C,
        OsdLanguages::Norwegian => 0x1D,
        OsdLanguages::Polish => 0x1E,
        OsdLanguages::Romanian => 0x1F,
        OsdLanguages::Serbian => 0x20,
        OsdLanguages::Slovak => 0x21,
        OsdLanguages::Slovenian => 0x22,
        OsdLanguages::Thai => 0x23,
        OsdLanguages::Ukrainian => 0x24,
        OsdLanguages::Vietnamese => 0x25,
        OsdLanguages::UndefinedLanguage(x) => x,
    }
}

impl OsdLanguages {
    pub fn from_u32(w: u32) -> (r: Self)
        ensures
            r == osd_language_of(w),
    {
        let x = w & 0xffff;
        match x {
        0x00 => OsdLanguages::Ignored,
        0x01 => OsdLanguages::ChineseTraditional,
        0x02 => OsdLanguages::English,
        0x03 => OsdLanguages::French,
        0x04 => OsdLanguages::German,
        0x05 => OsdLanguages::Italian,
        0x06 => OsdLanguages::Japanese,
        0x07 => OsdLanguages::Korean,
        0x08 => OsdLanguages::PortuguesePortugal,
        0x09 => OsdLanguages::Russian,
        0x0A => OsdLanguages::Spanish,
        0x0B => OsdLanguages::Swedish,
        0x0C => OsdLanguages::Turkish,
        0x0D => OsdLanguages::ChineseSimplified,
        0x0E => OsdLanguages::PortugueseBrazil,
        0x0F => OsdLanguages::Arabic,
        0x10 => OsdLanguages::Bulgarian,
        0x11 => OsdLanguages::Croatian,
        0x12 => OsdLanguages::Czech,
        0x13 => OsdLanguages::Danish,
        0x14 => OsdLanguages::Dutch,
        0x15 => OsdLanguages::Estonian,
        0x16 => OsdLanguages::Finnish,
        0x17 => OsdLanguages::Greek,
        0x18 => OsdLanguages::Hebrew,
        0x19 => OsdLanguages::Hindi,
        0x1A => OsdLanguages::Hungarian,
        0x1B => OsdLanguages::Lativan,
        0x1C => OsdLanguages::Lithuanian,
        0x1D => OsdLanguages::Norwegian,
        0x1E => OsdLanguages::Polish,
        0x1F => OsdLanguages::Romanian,
        0x20 => OsdLanguages::Serbian,
        0x21 => OsdLanguages::Slovak,
        0x22 => OsdLanguages::Slovenian,
        0x23 => OsdLanguages::Thai,
        0x24 => OsdLanguages::Ukrainian,
        0x25 => OsdLanguages::Vietnamese,
        _ => OsdLanguages::UndefinedLanguage(x),
        }
    }

    pub fn to_u32(self) -> (r: u32)
        ensures
            r == osd_language_word(self),
    {
        match self {
        OsdLanguages::Ignored => 0x00,
        OsdLanguages::ChineseTraditional => 0x01,
        OsdLanguages::English => 0x02,
        OsdLanguages::French => 0x03,
        OsdLanguages::German => 0x04,
        OsdLanguages::Italian => 0x05,
        OsdLanguages::Japanese => 0x06,
        OsdLanguages::Korean => 0x07,
        OsdLanguages::PortuguesePortugal => 0x08,
        OsdLanguages::Russian => 0x09,
        OsdLanguages::Spanish => 0x0A,
        OsdLanguages::Swedish => 0x0B,
        OsdLanguages::Turkish => 0x0C,
        OsdLanguages::ChineseSimplified => 0x0D,
        OsdLanguages::PortugueseBrazil => 0x0E,
        OsdLanguages::Arabic => 0x0F,
        OsdLanguages::Bulgarian => 0x10,
        OsdLanguages::Croatian => 0x11,
        OsdLanguages::Czech => 0x12,
        OsdLanguages::Danish => 0x13,
        OsdLanguages::Dutch => 0x14,
        OsdLanguages::Estonian => 0x15,
        OsdLanguages::Finnish => 0x16,
        OsdLanguages::Greek => 0x17,
        OsdLanguages::Hebrew => 0x18,
        OsdLanguages::Hindi => 0x19,
        OsdLanguages::Hungarian => 0x1A,
        OsdLanguages::Lativan => 0x1B,
        OsdLanguages::Lithuanian => 0x1C,
        OsdLanguages::Norwegian => 0x1D,
        OsdLanguages::Polish => 0x1E,
        OsdLanguages::Romanian => 0x1F,
        OsdLanguages::Serbian => 0x20,
        OsdLanguages::Slovak => 0x21,
        OsdLanguages::Slovenian => 0x22,
        OsdLanguages::Thai => 0x23,
        OsdLanguages::Ukrainian => 0x24,
        OsdLanguages::Vietnamese => 0x25,
        OsdLanguages::UndefinedLanguage(x) => x,
        }
    }
}

impl From<u32> for OsdLanguages {
    fn from(value: u32) -> Self {
        Self::from_u32(value)
    }
}

impl vstd::std_specs::convert::FromSpecImpl<u32> for OsdLanguages {
    open spec fn obeys_from_spec() -> bool {
        true
    }

    open spec fn from_spec(v: u32) -> Self {
        osd_language_of(v)
    }
}

impl From<OsdLanguages> for u32 {
    fn from(value: OsdLanguages) -> Self {
        value.to_u32()
    }
}

impl vstd::std_specs::convert::FromSpecImpl<OsdLanguages> for u32 {
    open spec fn obeys_from_spec() -> bool {
        true
    }

    open spec fn from_spec(v: OsdLanguages) -> Self {
        osd_language_word(v)
    }
}

impl VcpValue for OsdLanguages {
    open spec fn spec_feature() -> VcpFeatureCode {
        VcpFeatureCode::OsdLanguage
    }

    open spec fn spec_word(self) -> u32 {
        osd_language_word(self)
    }

    open spec fn spec_decode(w: u32) -> Option<Self> {
        Some(osd_language_of(w))
    }

    fn vcp_feature() -> (r: VcpFeatureCode) {
        VcpFeatureCode::OsdLanguage
    }

    fn to_word(self) -> (r: u32) {
        self.to_u32()
    }

    fn from_word(w: u32) -> (r: Option<Self>) {
        Some(Self::from_u32(w))
    }
}

/// Input source of the monitor.
#[derive(Debug, Clone, Copy, PartialEq, Eq, Structural)]
pub enum InputSource {
    Analog1,
    Analog2,
    Dvi1,
    Dvi2,
    Composite1,
    Composite2,
    SVideo1,
    SVideo2,
    Tuner1,
    Tuner2,
    Tuner3,
    Component1,
    Component2,
    Component3,
    DisplayPort1,
    DisplayPort2,
    Hdmi1,
    Hdmi2,
    Reserved(u32),
}

/// The input source that the low byte of a word names.
pub open spec fn input_source_of(w: u32) -> InputSource {
    let x = w & 0xff;
    match x {
        0x01 => InputSource::Analog1,
        0x02 => InputSource::Analog2,
        0x03 => InputSource::Dvi1,
        0x04 => InputSource::Dvi2,
        0x05 => InputSource::Composite1,
        0x06 => InputSource::Composite2,
        0x07 => InputSource::SVideo1,
        0x08 => InputSource::SVideo2,
        0x09 => InputSource::Tuner1,
        0x0A => InputSource::Tuner2,
        0x0B => InputSource::Tuner3,
        0x0C => InputSource::Component1,
        0x0D => InputSource::Component2,
        0x0E => InputSource::Component3,
        0x0F => InputSource::DisplayPort1,
        0x10 => InputSource::DisplayPort2,
        0x11 => InputSource::Hdmi1,
        0x12 => InputSource::Hdmi2,
        _ => InputSource::Reserved(x),
    }
}

pub open spec fn input_source_word(s: InputSource) -> u32 {
    match s {
        InputSource::Analog1 => 0x01,
        InputSource::Analog2 => 0x02,
        InputSource::Dvi1 => 0x03,
        InputSource::Dvi2 => 0x04,
        InputSource::Composite1 => 0x05,
        InputSource::Composite2 => 0x06,
        InputSource::SVideo1 => 0x07,
        InputSource::SVideo2 => 0x08,
        InputSource::Tuner1 => 0x09,
        InputSource::Tuner2 => 0x0A,
        InputSource::Tuner3 => 0x0B,
        InputSource::Component1 => 0x0C,
        InputSource::Component2 => 0x0D,
        InputSource::Component3 => 0x0E,
        InputSource::DisplayPort1 => 0x0F,
        InputSource::DisplayPort2 => 0x10,
        InputSource::Hdmi1 => 0x11,
        InputSource::Hdmi2 => 0x12,
        InputSource::Reserved(x) => x,
    }
}

impl InputSource {
    pub fn from_u32(w: u32) -> (r: Self)
        ensures
            r == input_source_of(w),
    {
        let x = w & 0xff;
        match x {
        0x01 => InputSource::Analog1,
        0x02 => InputSource::Analog2,
        0x03 => InputSource::Dvi1,
        0x04 => InputSource::Dvi2,
        0x05 => InputSource::Composite1,
        0x06 => InputSource::Composite2,
        0x07 => InputSource::SVideo1,
        0x08 => InputSource::SVideo2,
        0x09 => InputSource::Tuner1,
        0x0A => InputSource::Tuner2,
        0x0B => InputSource::Tuner3,
        0x0C => InputSource::Component1,
        0x0D => InputSource::Component2,
        0x0E => InputSource::Component3,
        0x0F => InputSource::DisplayPort1,
        0x10 => InputSource::DisplayPort2,
        0x11 => InputSource::Hdmi1,
        0x12 => InputSource::Hdmi2,
        _ => InputSource::Reserved(x),
        }
    }

    pub fn to_u32(self) -> (r: u32)
        ensures
            r == input_source_word(self),
    {
        match self {
        InputSource::Analog1 => 0x01,
        InputSource::Analog2 => 0x02,
        InputSource::Dvi1 => 0x03,
        InputSource::Dvi2 => 0x04,
        InputSource::Composite1 => 0x05,
        InputSource::Composite2 => 0x06,
        InputSource::SVideo1 => 0x07,
        InputSource::SVideo2 => 0x08,
        InputSource::Tuner1 => 0x09,
        InputSource::Tuner2 => 0x0A,
        InputSource::Tuner3 => 0x0B,
        InputSource::Component1 => 0x0C,
        InputSource::Component2 => 0x0D,
        InputSource::Component3 => 0x0E,
        InputSource::DisplayPort1 => 0x0F,
        InputSource::DisplayPort2 => 0x10,
        InputSource::Hdmi1 => 0x11,
        InputSource::Hdmi2 => 0x12,
        InputSource::Reserved(x) => x,
        }
    }
}

impl From<u32> for InputSource {
    fn from(value: u32) -> Self {
        Self::from_u32(value)
    }
}

impl vstd::std_specs::convert::FromSpecImpl<u32> for InputSource {
    open spec fn obeys_from_spec() -> bool {
        true
    }

    open spec fn from_spec(v: u32) -> Self {
        input_source_of(v)
    }
}

impl From<InputSource> for u32 {
    fn from(value: InputSource) -> Self {
        value.to_u32()
    }
}

impl vstd::std_specs::convert::FromSpecImpl<InputSource> for u32 {
    open spec fn obeys_from_spec() -> bool {
        true
    }

    open spec fn from_spec(v: InputSource) -> Self {
        input_source_word(v)
    }
}

impl VcpValue for InputSource {
    open spec fn spec_feature() -> VcpFeatureCode {
        VcpFeatureCode::InputSelect
    }

    open spec fn spec_word(self) -> u32 {
        input_source_word(self)
    }

    open spec fn spec_decode(w: u32) -> Option<Self> {
        Some(input_source_of(w))
    }

    fn vcp_feature() -> (r: VcpFeatureCode) {
        VcpFeatureCode::InputSelect
    }

    fn to_word(self) -> (r: u32) {
        self.to_u32()
    }

    fn from_word(w: u32) -> (r: Option<Self>) {
        Some(Self::from_u32(w))
    }
}


/// The values that a monitor lists as allowed for a discrete feature.
#[derive(Debug, Clone, PartialEq)]
pub struct DiscreteValues<V: VcpValue> {
    discrete_values: Vec<V>,
}

impl<V: VcpValue> View for DiscreteValues<V> {
    type V = Seq<V>;

    closed spec fn view(&self) -> Seq<V> {
        self.discrete_values@
    }
}

impl<V: VcpValue> DiscreteValues<V> {
    pub fn new() -> (r: Self)
        ensures
            r@ == Seq::<V>::empty(),
    {
        DiscreteValues { discrete_values: Vec::new() }
    }

    pub fn add_discrete_value(&mut self, val: V)
        ensures
            final(self)@ == old(self)@.push(val),
    {
        self.discrete_values.push(val);
    }

    pub fn values(&self) -> (r: &[V])
        ensures
            r@ == self@,
    {
        self.discrete_values.as_slice()
    }
}

impl<V: VcpValue> Default for DiscreteValues<V> {
    fn default() -> (r: Self)
        ensures
            r@ == Seq::<V>::empty(),
    {
        Self::new()
    }
}

/// What a monitor reports of one VCP feature in its capability string.
#[derive(Debug, Clone, PartialEq)]
pub enum VcpCapability {
    Language(DiscreteValues<OsdLanguages>),
    DisplayInput(DiscreteValues<InputSource>),
    Continuous(VcpFeatureCode),
    UnimplementedDiscrete(VcpFeatureCode, DiscreteValues<AnonymousVcpValue>),
    Unimplemented(VcpFeatureCode),
}

#[derive(Debug, Clone, Copy, PartialEq, Eq, Structural)]
pub enum VcpCapabilityError {
    /// The `Unknown` feature code has no capability.
    UnknownCapability,
    /// The library has no typed capability for the code; build one of the
    /// unimplemented variants instead.
    UnimplementedVcpMapping,
}

/// The capability kind that a feature code gets, if this library has one.
pub open spec fn capability_kind_of(code: VcpFeatureCode) -> Result<VcpCapabilityKind, VcpCapabilityError> {
    match code {
        VcpFeatureCode::OsdLanguage => Ok(VcpCapabilityKind::Language),
        VcpFeatureCode::InputSelect => Ok(VcpCapabilityKind::DisplayInput),
        VcpFeatureCode::Unknown => Err(VcpCapabilityError::UnknownCapability),
        VcpFeatureCode::Contrast => Ok(VcpCapabilityKind::Continuous),
        VcpFeatureCode::Luminance => Ok(VcpCapabilityKind::Continuous),
        _ => Err(VcpCapabilityError::UnimplementedVcpMapping),
    }
}

/// The variant of a capability, without its values.
#[derive(Debug, Clone, Copy, PartialEq, Eq, Structural)]
pub enum VcpCapabilityKind {
    Language,
    DisplayInput,
    Continuous,
    UnimplementedDiscrete,
    Unimplemented,
}

impl VcpCapability {
    pub open spec fn kind(&self) -> VcpCapabilityKind {
        match self {
            VcpCapability::Language(_) => VcpCapabilityKind::Language,
            VcpCapability::DisplayInput(_) => VcpCapabilityKind::DisplayInput,
            VcpCapability::Continuous(_) => VcpCapabilityKind::Continuous,
            VcpCapability::UnimplementedDiscrete(..) => VcpCapabilityKind::UnimplementedDiscrete,
            VcpCapability::Unimplemented(_) => VcpCapabilityKind::Unimplemented,
        }
    }

    /// The feature code that the capability describes.
    pub open spec fn code(&self) -> VcpFeatureCode {
        match self {
            VcpCapability::Language(_) => VcpFeatureCode::OsdLanguage,
            VcpCapability::DisplayInput(_) => VcpFeatureCode::InputSelect,
            VcpCapability::Continuous(c) => *c,
            VcpCapability::UnimplementedDiscrete(c, _) => *c,
            VcpCapability::Unimplemented(c) => *c,
        }
    }

    /// The words of the allowed values, in the order they were listed; empty
    /// for a capability without discrete values.
    pub open spec fn value_words(&self) -> Seq<u32> {
        match self {
            VcpCapability::Language(d) => d@.map_values(|l: OsdLanguages| osd_language_word(l)),
            VcpCapability::DisplayInput(d) => d@.map_values(|s: InputSource| input_source_word(s)),
            VcpCapability::UnimplementedDiscrete(_, d) => d@.map_values(|a: AnonymousVcpValue| a.0),
            _ => Seq::empty(),
        }
    }

    pub fn from_feature_code(code: VcpFeatureCode) -> (r: Result<Self, VcpCapabilityError>)
        ensures
            match capability_kind_of(code) {
                Ok(k) => r is Ok && r->Ok_0.kind() == k && r->Ok_0.code() == code
                    && r->Ok_0.value_words().len() == 0,
                Err(e) => r == Err::<Self, VcpCapabilityError>(e),
            },
    {
        match code {
            VcpFeatureCode::OsdLanguage => Ok(VcpCapability::Language(DiscreteValues::new())),
            VcpFeatureCode::InputSelect => Ok(VcpCapability::DisplayInput(DiscreteValues::new())),
            VcpFeatureCode::Unknown => Err(VcpCapabilityError::UnknownCapability),
            VcpFeatureCode::Contrast => Ok(VcpCapability::Continuous(code)),
            VcpFeatureCode::Luminance => Ok(VcpCapability::Continuous(code)),
            _ => Err(VcpCapabilityError::UnimplementedVcpMapping),
        }
    }

    /// Appends an allowed value; a capability without discrete values is left
    /// as it is.
    pub fn add_discrete_value(&mut self, value: u32)
        ensures
            final(self).kind() == old(self).kind(),
            final(self).code() == old(self).code(),
            match *old(self) {
                VcpCapability::Language(d) => *final(self) matches VcpCapability::Language(e)
                    && e@ == d@.push(osd_language_of(value)),
                VcpCapability::DisplayInput(d) => *final(self) matches VcpCapability::DisplayInput(e)
                    && e@ == d@.push(input_source_of(value)),
                VcpCapability::UnimplementedDiscrete(c, d) => *final(self) matches VcpCapability::UnimplementedDiscrete(c2, e)
                    && c2 == c && e@ == d@.push(AnonymousVcpValue(value)),
                _ => *final(self) == *old(self),
            },
    {
        match self {
            VcpCapability::Language(languages) => languages.add_discrete_value(OsdLanguages::from_u32(value)),
            VcpCapability::DisplayInput(inputs) => inputs.add_discrete_value(InputSource::from_u32(value)),
            VcpCapability::UnimplementedDiscrete(_, values) => values.add_discrete_value(AnonymousVcpValue(value)),
            _ => {},
        }
    }
}


/// A typed value read from a monitor.
#[derive(Debug, Clone, Copy, PartialEq, Eq, Structural)]
pub enum VcpFeatureValue {
    CodePage(u32),
    NewControlValue(NewControlValue),
    Luminance(LuminanceValue),
    Contrast(ContrastValue),
    Fifo(VcpFeatureCode),
    OsdLanguage(OsdLanguages),
    InputSelect(InputSource),
    Unimplemented(u8, u32),
}

impl VcpFeatureCode {
    /// The codes whose value this library reads into a typed value.
    pub open spec fn is_readable(self) -> bool {
        self is NewControlValue || self is Luminance || self is Contrast || self is OsdLanguage
            || self is InputSelect
    }
}

/// Every named language survives a trip through its word, and every word in
/// the named range survives a trip through its language.
pub proof fn lemma_osd_language_round_trip(l: OsdLanguages, w: u32)
    requires
        !(l is UndefinedLanguage),
        w <= 0x25,
    ensures
        osd_language_of(osd_language_word(l)) == l,
        osd_language_word(osd_language_of(w)) == w,
{
    assert(w & 0xffff == w) by (bit_vector)
        requires
            w <= 0x25,
    ;
    let x = osd_language_word(l);
    assert(x <= 0x25);
    assert(x & 0xffff == x) by (bit_vector)
        requires
            x <= 0x25,
    ;
}

/// Every named input source survives a trip through its word, and every word
/// in the named range survives a trip through its input source.
pub proof fn lemma_input_source_round_trip(s: InputSource, w: u32)
    requires
        !(s is Reserved),
        0x01 <= w <= 0x12,
    ensures
        input_source_of(input_source_word(s)) == s,
        input_source_word(input_source_of(w)) == w,
{
    assert(w & 0xff == w) by (bit_vector)
        requires
            w <= 0x12,
    ;
    let x = input_source_word(s);
    assert(x <= 0x12);
    assert(x & 0xff == x) by (bit_vector)
        requires
            x <= 0x12,
    ;
}


} // verus!
