use illustrator::pipl::{
    build_pipl, encode_pipl, pf_version, OutFlags, OutFlags2, PiplError, PluginKind, Property,
    Stage, Tag, DEEP_COLOR_AWARE, I_EXPAND_BUFFER, I_HAVE_EXTERNAL_DEPENDENCIES, I_USE_3D_CAMERA,
    I_USE_3D_LIGHTS, SUPPORTS_GET_FLATTENED_SEQUENCE_DATA, SUPPORTS_QUERY_DYNAMIC_FLAGS,
    SUPPORTS_SMART_RENDER, SUPPORTS_THREADED_RENDERING,
};

fn effect() -> Vec<Property> {
    vec![
        Property::Kind(PluginKind::AEEffect),
        Property::Name("Resizer"),
        Property::Category("Sample Plug-ins"),
        Property::CodeMacARM64("EffectMain"),
        Property::PiplVersion { major: 2, minor: 0 },
        Property::EffectSpecVersion { major: 13, minor: 28 },
        Property::EffectVersion { version: 2, subversion: 4, bugversion: 0, stage: Stage::Develop, build: 1 },
        Property::InfoFlags(3),
        Property::GlobalOutFlags(OutFlags { bits: DEEP_COLOR_AWARE | I_EXPAND_BUFFER | I_HAVE_EXTERNAL_DEPENDENCIES }),
        Property::GlobalOutFlags2(OutFlags2 {
            bits: SUPPORTS_QUERY_DYNAMIC_FLAGS | I_USE_3D_CAMERA | I_USE_3D_LIGHTS | SUPPORTS_SMART_RENDER
                | SUPPORTS_THREADED_RENDERING | SUPPORTS_GET_FLATTENED_SEQUENCE_DATA,
        }),
        Property::MatchName("ADBE Resizer"),
        Property::ReservedInfo(0),
        Property::SupportUrl("https://www.adobe.com"),
    ]
}

#[test]
fn version_word_packs_fields() {
    assert_eq!(pf_version(2, 4, 0, Stage::Develop, 1), 0x12_0001);
    assert_eq!(pf_version(9, 1, 2, Stage::Release, 5), (1 << 26) | (1 << 19) | (1 << 15) | (2 << 11) | (3 << 9) | 5);
    assert_eq!(pf_version(2, 4, 0, Stage::Develop, 1), pipl::pf_version(2, 4, 0, pipl::Stage::Develop, 1));
    assert_eq!(pf_version(9, 1, 2, Stage::Beta, 5), pipl::pf_version(9, 1, 2, pipl::Stage::Beta, 5));
}

#[test]
fn out_flags_combine_in_any_order() {
    let a = OutFlags { bits: DEEP_COLOR_AWARE };
    let b = OutFlags { bits: I_EXPAND_BUFFER };
    assert_eq!(a.union(b), b.union(a));
    assert_eq!(a.union(b).bits, DEEP_COLOR_AWARE | I_EXPAND_BUFFER);
    assert_eq!(a.union(a), a);
    let c = OutFlags2 { bits: I_USE_3D_CAMERA };
    assert_eq!(c.union(OutFlags2 { bits: 0 }), c);
}

#[test]
fn valid_effect_builds() {
    let bytes = build_pipl(&effect()).unwrap();
    assert_eq!(&bytes[..8], &[0, 0, 0, 0, 0, 0, 0, 13]);
    // first property: kind
    assert_eq!(&bytes[8..28], b"8BIMkind\0\0\0\0\0\0\0\x04eFKT");
    // second property: name, a length-prefixed string
    assert_eq!(&bytes[28..52], b"8BIMname\0\0\0\0\0\0\0\x08\x07Resizer");
    // info flags: two bytes and two of padding
    let at = bytes.windows(4).position(|w| w == b"eINF").unwrap();
    assert_eq!(&bytes[at + 4..at + 16], &[0, 0, 0, 0, 0, 0, 0, 2, 0, 3, 0, 0]);
    // match name: 13 bytes and three of padding
    let at = bytes.windows(4).position(|w| w == b"eMNA").unwrap();
    assert_eq!(&bytes[at + 8..at + 12], &[0, 0, 0, 13]);
    assert_eq!(&bytes[at + 12..at + 28], b"\x0cADBE Resizer\0\0\0");
    assert_eq!(bytes.len() % 4, 0);
}

#[test]
fn aligned_properties_match_pipl_crate() {
    let mine = vec![
        Property::Kind(PluginKind::AEEffect),
        Property::Name("Resizer"),
        Property::Category("Sample Plug-ins"),
        Property::PiplVersion { major: 2, minor: 0 },
        Property::EffectSpecVersion { major: 13, minor: 28 },
        Property::EffectVersion { version: 2, subversion: 4, bugversion: 0, stage: Stage::Develop, build: 1 },
        Property::GlobalOutFlags(OutFlags { bits: DEEP_COLOR_AWARE | I_EXPAND_BUFFER }),
        Property::GlobalOutFlags2(OutFlags2 { bits: SUPPORTS_SMART_RENDER }),
        Property::ReservedInfo(7),
    ];
    let theirs = vec![
        pipl::Property::Kind(pipl::PIPLType::AEEffect),
        pipl::Property::Name("Resizer"),
        pipl::Property::Category("Sample Plug-ins"),
        pipl::Property::AE_PiPL_Version { major: 2, minor: 0 },
        pipl::Property::AE_Effect_Spec_Version { major: 13, minor: 28 },
        pipl::Property::AE_Effect_Version { version: 2, subversion: 4, bugversion: 0, stage: pipl::Stage::Develop, build: 1 },
        pipl::Property::AE_Effect_Global_OutFlags(pipl::OutFlags::DeepColorAware | pipl::OutFlags::IExpandBuffer),
        pipl::Property::AE_Effect_Global_OutFlags_2(pipl::OutFlags2::SupportsSmartRender),
        pipl::Property::AE_Reserved_Info(7),
    ];
    assert_eq!(encode_pipl(&mine), pipl::build_pipl(theirs).unwrap());
}

#[test]
fn windows_entry_point_is_a_c_string() {
    let bytes = encode_pipl(&vec![Property::CodeWin64X86("Main")]);
    assert_eq!(&bytes[8..], b"8BIM8664\0\0\0\0\0\0\0\x05Main\0\0\0\0");
}

#[test]
fn duplicate_property_is_refused() {
    let mut ps = effect();
    ps.push(Property::Name("Again"));
    assert_eq!(build_pipl(&ps), Err(PiplError::Duplicate(Tag::Name)));
}

#[test]
fn missing_kind_or_name_is_refused() {
    let ps: Vec<Property> = effect().into_iter().filter(|p| !matches!(p, Property::Kind(_))).collect();
    assert_eq!(build_pipl(&ps), Err(PiplError::Missing(Tag::Kind)));
    let ps: Vec<Property> = effect().into_iter().filter(|p| !matches!(p, Property::Name(_))).collect();
    assert_eq!(build_pipl(&ps), Err(PiplError::Missing(Tag::Name)));
}

#[test]
fn missing_effect_property_is_refused() {
    let ps: Vec<Property> = effect().into_iter().filter(|p| !matches!(p, Property::InfoFlags(_))).collect();
    assert_eq!(build_pipl(&ps), Err(PiplError::Missing(Tag::InfoFlags)));
}

#[test]
fn descriptor_without_entry_point_is_refused() {
    let ps: Vec<Property> = effect().into_iter().filter(|p| !matches!(p, Property::CodeMacARM64(_))).collect();
    assert_eq!(build_pipl(&ps), Err(PiplError::NoCodeEntry));
}

#[test]
fn effect_property_on_other_kind_is_refused() {
    let ps = vec![
        Property::Kind(PluginKind::AIGeneral),
        Property::Name("Tool"),
        Property::CodeMacIntel64("PluginMain"),
        Property::ReservedInfo(0),
    ];
    assert_eq!(build_pipl(&ps), Err(PiplError::UnexpectedForKind(Tag::ReservedInfo)));
    let ok = vec![Property::Kind(PluginKind::AIGeneral), Property::Name("Tool"), Property::CodeMacIntel64("PluginMain")];
    assert!(build_pipl(&ok).is_ok());
}

#[test]
fn overlong_text_is_refused() {
    let long: &'static str = Box::leak("c".repeat(300).into_boxed_str());
    let mut ps = effect();
    ps[2] = Property::Category(long);
    assert_eq!(build_pipl(&ps), Err(PiplError::TextTooLong(Tag::Category)));
}

#[test]
fn final_stage_is_refused() {
    let mut ps = effect();
    ps[6] = Property::EffectVersion { version: 1, subversion: 0, bugversion: 0, stage: Stage::Final, build: 0 };
    assert_eq!(build_pipl(&ps), Err(PiplError::StageNotEncodable));
}
