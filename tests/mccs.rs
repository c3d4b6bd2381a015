use libmonitor::ddc::ci::DdcOpcode;
use libmonitor::mccs::capabilities::{parse_capabilities, CapabilityParseError, Value};
use libmonitor::mccs::features::{
    AnonymousVcpValue, ContrastValue, DiscreteValues, InputSource, LuminanceValue,
    NewControlValue, OsdLanguages, VcpCapability, VcpCapabilityError, VcpFeatureCode, VcpValue,
};
use libmonitor::mccs::{DisplayTechnology, Protocol, UnknownData, UnknownTag, Version};

#[test]
fn feature_codes_round_trip() {
    let named = [
        VcpFeatureCode::CodePage,
        VcpFeatureCode::NewControlValue,
        VcpFeatureCode::Luminance,
        VcpFeatureCode::Contrast,
        VcpFeatureCode::ActiveControl,
        VcpFeatureCode::OsdLanguage,
        VcpFeatureCode::InputSelect,
    ];
    for v in named {
        assert_eq!(VcpFeatureCode::from(u8::from(v)), v);
    }
    assert_eq!(u8::from(VcpFeatureCode::OsdLanguage), 0xcc);
    assert_eq!(VcpFeatureCode::from(0x42u8), VcpFeatureCode::Unimplemented(0x42));
    assert_eq!(VcpFeatureCode::from(u8::from(VcpFeatureCode::Unknown)), VcpFeatureCode::CodePage);
}

#[test]
fn input_sources_round_trip() {
    for w in 0x01..=0x12u32 {
        let s = InputSource::from(w);
        assert!(!matches!(s, InputSource::Reserved(_)));
        assert_eq!(u32::from(s), w);
        assert_eq!(InputSource::from(u32::from(s)), s);
    }
    assert_eq!(InputSource::from(0x0fu32), InputSource::DisplayPort1);
    assert_eq!(InputSource::from(0x13u32), InputSource::Reserved(0x13));
    assert_eq!(InputSource::from(0x0111u32), InputSource::Hdmi1);
}

#[test]
fn languages_round_trip() {
    for w in 0x00..=0x25u32 {
        let l = OsdLanguages::from(w);
        assert!(!matches!(l, OsdLanguages::UndefinedLanguage(_)));
        assert_eq!(u32::from(l), w);
        assert_eq!(OsdLanguages::from(u32::from(l)), l);
    }
    assert_eq!(OsdLanguages::from(0x02u32), OsdLanguages::English);
    assert_eq!(OsdLanguages::from(0x26u32), OsdLanguages::UndefinedLanguage(0x26));
}

#[test]
fn new_control_value_words() {
    assert_eq!(NewControlValue::from_word(0x02), Some(NewControlValue::NewControlValuesPresent));
    assert_eq!(NewControlValue::from_word(0x01), Some(NewControlValue::Finished));
    assert_eq!(NewControlValue::from_word(0x03), None);
    assert_eq!(NewControlValue::Finished.to_word(), 0x01);
}

#[test]
fn continuous_values_take_low_byte() {
    let l = LuminanceValue::from_word(0x0064_1232).unwrap();
    assert_eq!(l, LuminanceValue { max: 0x64, val: 0x32 });
    assert_eq!(l.to_word(), 0x0064_0032);
    let c = ContrastValue::from_word(0x0050_0028).unwrap();
    assert_eq!(c.max(), 0x50);
    assert_eq!(c.val(), 0x28);
}

#[test]
fn value_bytes() {
    let v = AnonymousVcpValue(0x1234_5678);
    assert_eq!(v.mh(), 0x12);
    assert_eq!(v.ml(), 0x34);
    assert_eq!(v.vh(), 0x56);
    assert_eq!(v.vl(), 0x78);
    assert_eq!(LuminanceValue::vcp_feature(), VcpFeatureCode::Luminance);
}

#[test]
fn capability_from_feature_code() {
    assert!(matches!(VcpCapability::from_feature_code(VcpFeatureCode::OsdLanguage), Ok(VcpCapability::Language(_))));
    assert_eq!(
        VcpCapability::from_feature_code(VcpFeatureCode::Luminance),
        Ok(VcpCapability::Continuous(VcpFeatureCode::Luminance))
    );
    assert_eq!(
        VcpCapability::from_feature_code(VcpFeatureCode::Unknown),
        Err(VcpCapabilityError::UnknownCapability)
    );
    assert_eq!(
        VcpCapability::from_feature_code(VcpFeatureCode::ActiveControl),
        Err(VcpCapabilityError::UnimplementedVcpMapping)
    );
    let mut c = VcpCapability::from_feature_code(VcpFeatureCode::InputSelect).unwrap();
    c.add_discrete_value(0x11);
    match c {
        VcpCapability::DisplayInput(d) => assert_eq!(d.values(), &[InputSource::Hdmi1]),
        _ => panic!("wrong capability"),
    }
    let mut d: DiscreteValues<OsdLanguages> = DiscreteValues::default();
    d.add_discrete_value(OsdLanguages::German);
    assert_eq!(d.values(), &[OsdLanguages::German]);
}

#[test]
fn capability_string_parse() {
    let caps = parse_capabilities(
        b"(prot(monitor)type(lcd)model(XYZ)cmds(01 02 03)mccs_ver(2.1)vcp(10 12 60(0F 10 11)))",
    )
    .unwrap();
    assert_eq!(caps.protocol, Some(Protocol::Monitor));
    assert_eq!(caps.ty, Some(DisplayTechnology::Lcd));
    assert_eq!(caps.model, Some("XYZ".to_string()));
    assert_eq!(caps.commands, vec![DdcOpcode::VcpRequest, DdcOpcode::VcpReply, DdcOpcode::SetVcp]);
    assert_eq!(caps.mccs_version, Some(Version::new(2, 1)));
    assert_eq!(caps.vcp_features.len(), 3);
    assert_eq!(caps.vcp_features[0], VcpCapability::Continuous(VcpFeatureCode::Luminance));
    assert_eq!(caps.vcp_features[1], VcpCapability::Continuous(VcpFeatureCode::Contrast));
    match &caps.vcp_features[2] {
        VcpCapability::DisplayInput(d) => assert_eq!(
            d.values(),
            &[InputSource::DisplayPort1, InputSource::DisplayPort2, InputSource::Hdmi1]
        ),
        other => panic!("unexpected capability {other:?}"),
    }
    assert!(caps.unknown_tags.is_empty());
}

#[test]
fn capability_string_other_forms() {
    let caps = parse_capabilities(b" prot(display) edid bin(3(a)b)");
    assert_eq!(caps.err(), Some(CapabilityParseError::InvalidData));
    let caps = parse_capabilities(
        b" prot(display) type(LED) mswhql(1) mccs_ver(0201) vcp(02 cc(02 03) e0(01)) asset_eep(40) edid bin(3(a)b)) ",
    )
    .unwrap();
    assert_eq!(caps.protocol, Some(Protocol::Display));
    assert_eq!(caps.ty, Some(DisplayTechnology::Led));
    assert_eq!(caps.ms_whql, Some(1));
    assert_eq!(caps.mccs_version, Some(Version::new(2, 1)));
    assert_eq!(caps.vcp_features[0], VcpCapability::Unimplemented(VcpFeatureCode::NewControlValue));
    match &caps.vcp_features[1] {
        VcpCapability::Language(d) => assert_eq!(d.values(), &[OsdLanguages::English, OsdLanguages::French]),
        other => panic!("unexpected capability {other:?}"),
    }
    match &caps.vcp_features[2] {
        VcpCapability::UnimplementedDiscrete(code, d) => {
            assert_eq!(*code, VcpFeatureCode::Unimplemented(0xe0));
            assert_eq!(d.values(), &[AnonymousVcpValue(1)]);
        }
        other => panic!("unexpected capability {other:?}"),
    }
    assert_eq!(caps.unknown_tags.len(), 2);
    assert_eq!(caps.unknown_tags[0].name, "asset_eep");
    assert_eq!(caps.unknown_tags[0].data, UnknownData::String("40".to_string()));
    assert_eq!(caps.unknown_tags[1].name, "edid");
    assert_eq!(caps.unknown_tags[1].data, UnknownData::Binary(b"a)b".to_vec()));
}

#[test]
fn capability_string_unknown_values() {
    let caps = parse_capabilities(b"(prot(foo)type(oled)model(A B))").unwrap();
    assert_eq!(caps.protocol, Some(Protocol::Unknown("foo".to_string())));
    assert_eq!(caps.ty, Some(DisplayTechnology::Unknown("oled".to_string())));
    assert_eq!(caps.model, Some("A B".to_string()));
    let caps = parse_capabilities(b"(x(\xff))").unwrap();
    assert_eq!(caps.unknown_tags[0].data, UnknownData::StringBytes(vec![0xff]));
}

#[test]
fn capability_string_errors() {
    assert!(parse_capabilities(b"(prot(monitor)").is_err());
    assert!(parse_capabilities(b"(cmds(0G))").is_err());
    assert!(parse_capabilities(b"(mswhql(12))").is_err());
    assert!(parse_capabilities(b"(mccs_ver(2.300))").is_err());
    assert!(parse_capabilities(b"(vcp(10(01 02))").is_err());
    assert!(parse_capabilities(b"(prot(\xff))").is_err());
    assert!(parse_capabilities(b"((x))").is_err());
}

#[test]
fn capability_entries() {
    let vs = Value::parse_capabilities(b"(prot(monitor) vcp(10 12(01)))").unwrap();
    assert_eq!(vs.len(), 2);
    assert_eq!(vs[0].tag(), "prot");
    assert_eq!(vs[1], Value::String { tag: "vcp".to_string(), value: b"10 12(01)".to_vec() });
    let v = Value::parse("model(XYZ)").unwrap();
    assert_eq!(v.tag(), "model");
    let v = Value::parse_bytes(b"edid bin(2(()))").unwrap();
    assert_eq!(v, Value::Binary { tag: "edid".to_string(), data: b"()".to_vec() });
    assert!(Value::parse("model(XYZ) extra").is_err());
}

#[test]
fn version_new() {
    let v = Version::new(2, 2);
    assert_eq!((v.major, v.minor), (2, 2));
}

#[test]
fn protocol_and_technology_text() {
    assert_eq!(Protocol::from_text("monitor"), Protocol::Monitor);
    assert_eq!(Protocol::from_text("display"), Protocol::Display);
    assert_eq!(Protocol::from_text("Monitor"), Protocol::Unknown("Monitor".to_string()));
    assert_eq!(Protocol::Unknown("x".to_string()).to_text(), "x");
    assert_eq!(Protocol::Monitor.to_text(), "monitor");
    assert_eq!(DisplayTechnology::from_text("CRT"), DisplayTechnology::Crt);
    assert_eq!(DisplayTechnology::from_text("Lcd"), DisplayTechnology::Lcd);
    assert_eq!(DisplayTechnology::from_text("oled"), DisplayTechnology::Unknown("oled".to_string()));
    assert_eq!(DisplayTechnology::Led.to_text(), "led");
}

#[test]
fn words_convert_to_values() {
    assert_eq!(VcpFeatureCode::from(0x0110u32), VcpFeatureCode::Luminance);
    assert_eq!(u32::from(VcpFeatureCode::InputSelect), 0x60);
    assert_eq!(LuminanceValue::from(0x0064_0032u32), LuminanceValue { max: 100, val: 50 });
    assert_eq!(u32::from(ContrastValue { max: 100, val: 70 }), 0x0064_0046);
    assert_eq!(u32::from(NewControlValue::NewControlValuesPresent), 0x02);
    assert_eq!(AnonymousVcpValue::from(7u32), AnonymousVcpValue(7));
}

#[test]
fn unknown_tag_back_to_entry() {
    let caps = parse_capabilities(b"(asset_eep(40) edid bin(2(xy)) raw(\xfe))").unwrap();
    assert_eq!(
        Value::from_unknown_tag(&caps.unknown_tags[0]),
        Value::String { tag: "asset_eep".to_string(), value: b"40".to_vec() }
    );
    assert_eq!(
        Value::from_unknown_tag(&caps.unknown_tags[1]),
        Value::Binary { tag: "edid".to_string(), data: b"xy".to_vec() }
    );
    assert_eq!(
        Value::from_unknown_tag(&caps.unknown_tags[2]),
        Value::String { tag: "raw".to_string(), value: vec![0xfe] }
    );
}

#[test]
fn value_to_unknown_tag() {
    let t = UnknownTag::from_value(Value::String { tag: "a".to_string(), value: b"xy".to_vec() });
    assert_eq!(t, UnknownTag { name: "a".to_string(), data: UnknownData::String("xy".to_string()) });
    let t = UnknownTag::from_value(Value::String { tag: "b".to_string(), value: vec![0xff] });
    assert_eq!(t.data, UnknownData::StringBytes(vec![0xff]));
    let t = UnknownTag::from_value(Value::Binary { tag: "c".to_string(), data: vec![1, 2] });
    assert_eq!(t.data, UnknownData::Binary(vec![1, 2]));
}
