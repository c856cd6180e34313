use nitai::emulation::{
    build_emulation, normalize_label, parse_emulation_os, parse_emulation_preset, preset_options,
    EmulationChoice, EmulationError, EmulationOptions, EmulationOs,
};
use nitai::error::LabelError;

fn presets() -> Vec<String> {
    ["Chrome100", "Chrome105", "Firefox135", "SafariIos17_4_1", "SafariIos17_2"]
        .iter()
        .map(|s| s.to_string())
        .collect()
}

#[test]
fn parses_simple_preset() {
    let preset = parse_emulation_preset("chrome_105", &presets()).unwrap();
    assert_eq!(presets()[preset], "Chrome105");
}

#[test]
fn parses_camel_case_preset() {
    let preset = parse_emulation_preset("SafariIos17_4_1", &presets()).unwrap();
    assert_eq!(presets()[preset], "SafariIos17_4_1");
}

#[test]
fn parses_os_alias() {
    let cases = [
        ("osx", EmulationOs::MacOS),
        ("macos", EmulationOs::MacOS),
        ("windows", EmulationOs::Windows),
        ("win", EmulationOs::Windows),
        ("iphone", EmulationOs::IOS),
        ("ipad", EmulationOs::IOS),
        ("ios", EmulationOs::IOS),
        ("android", EmulationOs::Android),
        ("linux", EmulationOs::Linux),
        ("mac", EmulationOs::MacOS),
        ("win32", EmulationOs::Windows),
        ("win64", EmulationOs::Windows),
    ];

    for (input, expected) in cases {
        let os = parse_emulation_os(input).unwrap();
        assert_eq!(os, expected);
    }
}

#[test]
fn normalize_drops_punctuation_and_case() {
    assert_eq!(normalize_label("Chrome_105"), "chrome105");
    assert_eq!(normalize_label("  Safari-iOS 17.4.1 "), "safariios1741");
    assert_eq!(normalize_label(""), "");
    assert_eq!(normalize_label("é_ü"), "");
    assert_eq!(normalize_label("AZaz09"), "azaz09");
}

#[test]
fn os_labels_ignore_case_and_space() {
    assert_eq!(parse_emulation_os("  MacOS "), Ok(EmulationOs::MacOS));
    assert_eq!(parse_emulation_os("Win-64"), Ok(EmulationOs::Windows));
    assert_eq!(parse_emulation_os("   "), Err(LabelError::Empty));
    assert_eq!(parse_emulation_os(""), Err(LabelError::Empty));
    assert_eq!(parse_emulation_os("beos"), Err(LabelError::Unsupported));
}

#[test]
fn preset_errors() {
    assert_eq!(parse_emulation_preset(" \t", &presets()), Err(LabelError::Empty));
    assert_eq!(parse_emulation_preset("opera_1", &presets()), Err(LabelError::Unsupported));
    assert_eq!(parse_emulation_preset("chrome_105", &Vec::new()), Err(LabelError::Unsupported));
}

#[test]
fn preset_takes_first_match() {
    let list: Vec<String> = vec!["Edge-1".to_string(), "edge_1".to_string()];
    assert_eq!(parse_emulation_preset("EDGE1", &list), Ok(0));
}

#[test]
fn build_emulation_defaults_and_errors() {
    let chosen = build_emulation(&preset_options("firefox_135".to_string()), &presets()).unwrap();
    assert_eq!(
        chosen,
        EmulationChoice { preset: Some(2), os: None, skip_http2: false, skip_headers: false }
    );
    let full = EmulationOptions {
        preset: None,
        os: Some("linux".to_string()),
        skip_http2: Some(true),
        skip_headers: Some(false),
    };
    assert_eq!(
        build_emulation(&full, &presets()),
        Ok(EmulationChoice {
            preset: None,
            os: Some(EmulationOs::Linux),
            skip_http2: true,
            skip_headers: false
        })
    );
    let bad = EmulationOptions {
        preset: Some("nope".to_string()),
        os: Some("".to_string()),
        skip_http2: None,
        skip_headers: None,
    };
    assert_eq!(
        build_emulation(&bad, &presets()),
        Err(EmulationError::Preset(LabelError::Unsupported))
    );
    let bad_os = EmulationOptions {
        preset: Some("chrome100".to_string()),
        os: Some(" ".to_string()),
        skip_http2: None,
        skip_headers: None,
    };
    assert_eq!(build_emulation(&bad_os, &presets()), Err(EmulationError::Os(LabelError::Empty)));
}
