use lui_core::{AtRuleKind, CssAtRule, CssProperty, CssPseudo, CssUnit};

#[test]
fn property_lookup_known_names() {
    assert_eq!(CssProperty::from_name("color"), CssProperty::Color);
    assert_eq!(CssProperty::from_name("z-index"), CssProperty::ZIndex);
    assert_eq!(CssProperty::from_name("-webkit-align-content"), CssProperty::WebkitAlignContent);
    assert_eq!(CssProperty::from_name("zoom"), CssProperty::Zoom);
}

#[test]
fn property_lookup_unknown_keeps_name() {
    assert_eq!(CssProperty::from_name("colour"), CssProperty::Unknown("colour".to_string()));
    assert_eq!(CssProperty::from_name("Color"), CssProperty::Unknown("Color".to_string()));
    assert_eq!(CssProperty::from_name("zzz"), CssProperty::Unknown("zzz".to_string()));
    assert_eq!(CssProperty::from_name("-"), CssProperty::Unknown("-".to_string()));
}

#[test]
fn property_empty_name_is_unknown() {
    assert_eq!(CssProperty::from_name(""), CssProperty::Unknown(String::new()));
    assert_eq!(CssProperty::Unknown("x".to_string()).name(), "");
}

#[test]
fn property_name_round_trip() {
    for p in [CssProperty::Margin, CssProperty::Display, CssProperty::Color, CssProperty::Zoom] {
        assert_eq!(CssProperty::from_name(p.name()), p);
    }
}

#[test]
fn property_syntax_initial_inherited() {
    assert_eq!(CssProperty::Color.syntax(), "<color>");
    assert_eq!(CssProperty::Color.initial(), "CanvasText");
    assert!(CssProperty::Color.inherited());
    assert_eq!(CssProperty::Margin.syntax(), "<'margin-top'>{1,4}");
    assert_eq!(CssProperty::Margin.initial(), "0");
    assert!(!CssProperty::Margin.inherited());
    assert_eq!(CssProperty::ZIndex.syntax(), "auto | <integer> | inherit");
    assert_eq!(CssProperty::ZIndex.initial(), "auto");
    assert_eq!(CssProperty::Zoom.syntax(), "<number [0,∞]> | <percentage [0,∞]>");
    assert_eq!(CssProperty::Zoom.initial(), "1");
    assert_eq!(CssProperty::WebkitAlignContent.initial(), "");
    let unknown = CssProperty::Unknown("foo".to_string());
    assert_eq!(unknown.clone().syntax(), "");
    assert_eq!(unknown.clone().initial(), "");
    assert!(!unknown.inherited());
}

#[test]
fn property_clone_is_equal() {
    let p = CssProperty::Unknown("my-prop".to_string());
    assert_eq!(p.clone(), p);
    assert_eq!(CssProperty::Zoom.clone(), CssProperty::Zoom);
    assert_eq!(CssProperty::WebkitAlignContent.clone(), CssProperty::WebkitAlignContent);
}

#[test]
fn pseudo_lookup() {
    assert_eq!(CssPseudo::from_name("::after"), CssPseudo::After);
    assert_eq!(CssPseudo::from_name(":where()"), CssPseudo::Where);
    assert_eq!(CssPseudo::from_name("::cue()"), CssPseudo::CueFn);
    assert_eq!(CssPseudo::from_name("::cue"), CssPseudo::Cue);
    assert_eq!(CssPseudo::After.name(), "::after");
    assert_eq!(CssPseudo::from_name(":nope"), CssPseudo::Unknown(":nope".to_string()));
}

#[test]
fn pseudo_nesting_selector_is_looked_up() {
    assert_eq!(CssPseudo::Ampersand.name(), "&");
    assert_eq!(CssPseudo::from_name("&"), CssPseudo::Ampersand);
    assert_eq!(CssPseudo::from_name(":xr-overlay"), CssPseudo::XrOverlay);
}

#[test]
fn at_rule_lookup_and_kind() {
    assert_eq!(CssAtRule::from_name("@media"), CssAtRule::Media);
    assert_eq!(CssAtRule::Media.name(), "@media");
    assert_eq!(CssAtRule::Media.kind(), AtRuleKind::Block);
    assert_eq!(CssAtRule::from_name("@import").kind(), AtRuleKind::Statement);
    assert_eq!(CssAtRule::from_name("@charset").kind(), AtRuleKind::Statement);
    assert_eq!(CssAtRule::from_name("@-webkit-keyframes"), CssAtRule::WebkitKeyframes);
    assert_eq!(CssAtRule::WebkitKeyframes.kind(), AtRuleKind::Block);
    assert_eq!(CssAtRule::from_name("@starting-style"), CssAtRule::StartingStyle);
    assert_eq!(CssAtRule::StartingStyle.kind(), AtRuleKind::Block);
    assert_eq!(CssAtRule::from_name("media"), CssAtRule::Unknown("media".to_string()));
    assert_eq!(CssAtRule::Unknown("@x".to_string()).kind(), AtRuleKind::Statement);
    assert_eq!(CssAtRule::Unknown("@x".to_string()).name(), "");
}

#[test]
fn unit_from_str_and_back() {
    assert_eq!(CssUnit::from_str("px"), CssUnit::Px);
    assert_eq!(CssUnit::from_str("Q"), CssUnit::Q);
    assert_eq!(CssUnit::from_str("kHz"), CssUnit::Khz);
    assert_eq!(CssUnit::from_str("khz"), CssUnit::Other("khz".to_string()));
    assert_eq!(CssUnit::from_str(""), CssUnit::Other(String::new()));
    assert_eq!(CssUnit::Dppx.as_str(), "dppx");
    assert_eq!(CssUnit::Other("furlong".to_string()).as_str(), "furlong");
    for s in ["px", "cm", "mm", "Q", "in", "pt", "pc", "em", "rem", "ex", "ch", "vw", "vh", "vmin", "vmax", "vi", "vb",
        "deg", "rad", "grad", "turn", "s", "ms", "Hz", "kHz", "dpi", "dpcm", "dppx", "fr", "weird"] {
        assert_eq!(CssUnit::from_str(s).as_str(), s);
    }
}

#[test]
fn unit_other_with_known_spelling_reads_back_known() {
    let u = CssUnit::Other("px".to_string());
    assert_eq!(CssUnit::from_str(u.as_str()), CssUnit::Px);
}

#[test]
fn property_names_use_name_characters() {
    assert_eq!(CssProperty::ZIndex.name(), "z-index");
    assert_eq!(CssProperty::WebkitAlignContent.name(), "-webkit-align-content");
    assert_eq!(CssProperty::Unknown("x".to_string()).name(), "");
    for p in [CssProperty::Color, CssProperty::ZIndex, CssProperty::WebkitAlignContent, CssProperty::Zoom] {
        let n = p.name();
        assert!(!n.is_empty());
        assert!(n.chars().all(|c| c.is_ascii_lowercase() || c.is_ascii_digit() || c == '-'));
    }
}
