use camlet::appearance::{AppearanceSettings, OverlayShape, PreviewFitMode};
use camlet::language::AppLanguage;
use camlet::profile::{
    after_load_error, from_loaded, settings_path, startup_profile, without_config_directory,
};
use camlet::settings::{
    encode_settings, load_settings, parse_settings_json, AppSettings, CameraResolution,
    SettingsOrigin, DEFAULT_CAMERA_FPS,
};

#[test]
fn invalid_fields_fall_back_without_dropping_valid_fields() {
    let parsed = parse_settings_json(
        r#"{
            "language": "pt-BR",
            "cameraFps": 144,
            "cameraResolution": "cinema",
            "appearance": {
                "shape": "circle",
                "size": 10,
                "ringColor": "green",
                "ringAccentColor": "pink",
                "ringThickness": "huge",
                "cornerRoundness": 400,
                "fit": "stretch"
            }
        }"#,
    );

    assert_eq!(parsed.settings.language, AppLanguage::PortugueseBrazil);
    assert_eq!(parsed.settings.camera_fps, DEFAULT_CAMERA_FPS);
    assert_eq!(
        parsed.settings.camera_resolution,
        CameraResolution::default()
    );
    assert_eq!(
        parsed.settings.appearance,
        AppearanceSettings {
            shape: OverlayShape::Circle,
            ..AppearanceSettings::default()
        }
    );
    assert_eq!(parsed.repaired_fields.len(), 8);
}

#[test]
fn native_document_round_trips() {
    let mut settings = AppSettings::default();
    settings.appearance.fit = PreviewFitMode::Contain;
    let bytes = encode_settings(&settings).unwrap_or_else(|| unreachable!());
    let json = String::from_utf8(bytes).unwrap_or_else(|error| unreachable!("{error}"));
    let parsed = parse_settings_json(&json);
    assert_eq!(parsed.settings, settings);
    assert!(parsed.repaired_fields.is_empty());
}

#[test]
fn absent_file_loads_defaults_and_existing_file_loads_native_settings() {
    let first = load_settings(None);
    assert_eq!(first.parsed.settings, AppSettings::default());
    assert_eq!(first.origin, SettingsOrigin::Defaults);

    let settings = AppSettings {
        language: AppLanguage::PortugueseBrazil,
        ..AppSettings::default()
    };
    let bytes = encode_settings(&settings).unwrap_or_else(|| unreachable!());
    let text = String::from_utf8(bytes).unwrap_or_else(|error| unreachable!("{error}"));
    let second = load_settings(Some(&text));
    assert_eq!(second.parsed.settings, settings);
    assert_eq!(second.origin, SettingsOrigin::Native);
}

#[test]
fn corrupt_and_future_documents_are_recovered_deliberately() {
    let corrupt = parse_settings_json("{ not json");
    assert!(!corrupt.valid_json);
    assert_eq!(corrupt.settings, AppSettings::default());

    let future = parse_settings_json(r#"{"schemaVersion": 999}"#);
    assert_eq!(future.source_schema_version, Some(999));
    assert!(!future.compatible_for_write);
}

#[test]
fn overridden_profile_is_isolated_and_persistent() {
    assert_eq!(
        settings_path(Some("/tmp/profile"), Some("/home/u/.config")),
        Some("/tmp/profile/settings-v1.json".to_owned())
    );
    assert_eq!(
        settings_path(None, Some("/home/u/.config/")),
        Some("/home/u/.config/camlet/settings-v1.json".to_owned())
    );
    assert_eq!(settings_path(None, None), None);

    let first = from_loaded(
        "/tmp/profile/settings-v1.json".to_owned(),
        load_settings(None),
    );
    assert_eq!(first.origin, "defaults");
    assert!(first.writable);

    let mut settings = first.settings;
    settings.appearance.shape = OverlayShape::Diamond;
    let bytes = encode_settings(&settings).unwrap_or_else(|| unreachable!());
    let text = String::from_utf8(bytes).unwrap_or_else(|error| unreachable!("{error}"));
    let second = from_loaded(first.settings_path.unwrap_or_default(), load_settings(Some(&text)));
    assert_eq!(second.origin, "native");
    assert_eq!(second.settings.appearance.shape, OverlayShape::Diamond);

    let fallback = without_config_directory();
    assert!(!fallback.writable);
    assert_eq!(fallback.origin, "defaults-no-config-directory");
}

#[test]
fn arbitrary_text_never_escapes_bounds() {
    for input in ["", "null", "[]", "{\"appearance\":{\"size\":99999}}", "{\"window\":{\"width\":1}}", "\u{0}\u{ffff}", "{\"cameraFps\":-1}"] {
        let parsed = parse_settings_json(input);
        assert!((96..=640).contains(&parsed.settings.appearance.size));
        assert!(parsed.settings.appearance.ring_thickness <= 10);
        assert!(parsed.settings.appearance.corner_roundness <= 72);
        assert!([15, 24, 30, 60].contains(&parsed.settings.camera_fps));
        assert!(parsed.settings.window.width >= 176);
        assert!(parsed.settings.window.height >= 176);
    }
}

#[test]
fn written_document_keeps_the_schema_member_order() {
    let bytes = encode_settings(&AppSettings::default()).unwrap_or_else(|| unreachable!());
    let text = String::from_utf8(bytes).unwrap_or_else(|error| unreachable!("{error}"));
    assert!(text.starts_with("{\n  \"schemaVersion\": 1,\n  \"language\": "));
    assert!(text.ends_with("}\n"));
    let appearance = text.find("\"appearance\"").unwrap_or_else(|| unreachable!());
    let window = text.find("\"window\"").unwrap_or_else(|| unreachable!());
    assert!(appearance < window);
}

#[test]
fn compact_native_documents_read_back_too() {
    let mut settings = AppSettings::default();
    settings.appearance.shape = OverlayShape::Diamond;
    settings.selected_camera_device_id = Some("usb-1".to_owned());
    let bytes = encode_settings(&settings).unwrap_or_else(|| unreachable!());
    let value: serde_json::Value =
        serde_json::from_slice(&bytes).unwrap_or_else(|error| unreachable!("{error}"));
    let compact = serde_json::to_string(&value).unwrap_or_else(|error| unreachable!("{error}"));
    assert!(compact.starts_with("{\"schemaVersion\":1,\"language\":\"system\",\"selectedCameraDeviceId\":\"usb-1\",\"cameraFps\":30,\"cameraResolution\":\"640x480\",\"appearance\":{\"shape\":\"diamond\",\"size\":224,"));
    let parsed = parse_settings_json(&compact);
    assert_eq!(parsed.settings, settings);
    assert!(parsed.repaired_fields.is_empty());
    assert!(parsed.valid_json);
    assert!(parsed.compatible_for_write);
    assert_eq!(parsed.source_schema_version, Some(1));
}

#[test]
fn an_unreadable_profile_gives_way_to_unwritten_defaults() {
    let fallback = after_load_error();
    assert_eq!(fallback.settings, AppSettings::default());
    assert_eq!(fallback.settings_path, None);
    assert!(!fallback.writable);
    assert_eq!(fallback.origin, "defaults-after-error");

    let (profile, startup_error) = startup_profile(None);
    assert!(startup_error);
    assert_eq!(profile.origin, "defaults-after-error");

    let (kept, startup_error) = startup_profile(Some(without_config_directory()));
    assert!(!startup_error);
    assert_eq!(kept.origin, "defaults-no-config-directory");
}

#[test]
fn every_field_is_written_as_it_is_even_out_of_range() {
    let mut settings = AppSettings::default();
    settings.selected_camera_device_id = Some("   ".to_owned());
    settings.appearance.size = 9;
    settings.camera_fps = 7;
    settings.window.x = -40;
    let bytes = encode_settings(&settings).expect("writing a document succeeds");
    let text = String::from_utf8(bytes).unwrap_or_else(|error| unreachable!("{error}"));
    assert!(text.contains("\"selectedCameraDeviceId\": \"   \","));
    assert!(text.contains("\"cameraFps\": 7,"));
    assert!(text.contains("\"size\": 9,"));
    assert!(text.contains("\"x\": -40,"));
    assert!(text.ends_with("}\n"));
}
