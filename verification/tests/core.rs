use camlet::appearance::{
    normalize_ring_thickness, AppearanceSettings, HexColor, OverlayShape, ThemeId,
};
use camlet::geometry::{clamp_window_to_work_area, resize_square_window, WindowState, WorkArea};
use camlet::language::{
    catalog, english, portuguese_brazil, resolve_supported_language, AppLanguage,
    SupportedLanguage,
};
use camlet::menu::MenuModel;
use camlet::settings::AppSettings;
use camlet::state::{AppState, CameraOption};
use camlet::FrameSourceKind;

#[test]
fn original_camera_rectangle_is_the_default_shape() {
    assert_eq!(AppearanceSettings::default().shape, OverlayShape::Original);
}

#[test]
fn colors_parse_and_serialize_canonically() {
    let color = HexColor::parse("#7ce2c6").unwrap_or_else(|| unreachable!());
    assert_eq!(color.to_hex_string(), "#7CE2C6");
    assert_eq!(HexColor::parse("green"), None);
}

#[test]
fn every_theme_round_trips_through_appearance() {
    for id in ThemeId::ALL {
        let mut appearance = AppearanceSettings::default();
        appearance.apply_theme(id);
        assert_eq!(appearance.theme(), Some(id));
    }
}

#[test]
fn arbitrary_ring_width_is_clamped_and_snapped() {
    assert_eq!(normalize_ring_thickness(-5), 0);
    assert_eq!(normalize_ring_thickness(3), 2);
    assert_eq!(normalize_ring_thickness(14), 10);
}

#[test]
fn clamps_oversized_offscreen_window() {
    let result = clamp_window_to_work_area(
        WindowState {
            x: 4_000,
            y: -500,
            width: 900,
            height: 900,
        },
        WorkArea {
            x: 0,
            y: 0,
            width: 1_280,
            height: 720,
        },
    );
    assert_eq!(
        result,
        WindowState {
            x: 380,
            y: 0,
            width: 900,
            height: 720,
        }
    );
}

#[test]
fn resize_keeps_stable_anchor_and_limit() {
    assert_eq!(
        resize_square_window(WindowState::default(), 800, 300),
        WindowState {
            x: 48,
            y: 48,
            width: 300,
            height: 300,
        }
    );
}

#[test]
fn clamped_window_stays_inside_a_sample_of_work_areas() {
    for (x, y, width, height) in [(-5_000, -5_000, 1, 1), (4_999, 4_999, 1_999, 1_999), (0, 0, 200, 900)] {
        for (area_x, area_y, area_width, area_height) in
            [(-1_000, -1_000, 1, 1), (999, 999, 1_999, 1_999), (0, 0, 1_280, 720)]
        {
            let result = clamp_window_to_work_area(
                WindowState { x, y, width, height },
                WorkArea {
                    x: area_x,
                    y: area_y,
                    width: area_width,
                    height: area_height,
                },
            );
            let right = i64::from(result.x) + i64::from(result.width);
            let bottom = i64::from(result.y) + i64::from(result.height);
            assert!(result.x >= area_x);
            assert!(result.y >= area_y);
            assert!(right <= i64::from(area_x) + i64::from(area_width));
            assert!(bottom <= i64::from(area_y) + i64::from(area_height));
        }
    }
}

#[test]
fn resolves_language_prefixes_and_fallback() {
    assert_eq!(
        resolve_supported_language(Some("pt_PT")),
        SupportedLanguage::PortugueseBrazil
    );
    assert_eq!(
        resolve_supported_language(Some("en-US")),
        SupportedLanguage::English
    );
    assert_eq!(
        resolve_supported_language(Some("nl-NL")),
        SupportedLanguage::English
    );
}

#[test]
fn explicit_language_ignores_system_locale() {
    assert_eq!(catalog(AppLanguage::English, Some("pt-BR")), english());
    assert_eq!(
        catalog(AppLanguage::PortugueseBrazil, Some("en-US")),
        portuguese_brazil()
    );
}

#[test]
fn catalogs_have_stable_option_counts() {
    for catalog in [english(), portuguese_brazil()] {
        assert_eq!(catalog.themes.len(), 6);
        assert_eq!(catalog.shapes.len(), 6);
        assert_eq!(catalog.fit_modes.len(), 2);
    }
}

#[test]
fn system_language_follows_the_locale() {
    assert_eq!(catalog(AppLanguage::System, Some("pt-BR")), portuguese_brazil());
    assert_eq!(catalog(AppLanguage::System, None), english());
}

#[test]
fn frame_source_names_round_trip() {
    for source in [FrameSourceKind::Real, FrameSourceKind::Synthetic] {
        assert_eq!(FrameSourceKind::parse(source.as_str()), Some(source));
    }
}

#[test]
fn unknown_frame_source_is_rejected() {
    assert_eq!(FrameSourceKind::parse("camera"), None);
}

#[test]
fn default_model_has_exactly_one_selection_per_static_group() {
    let model = MenuModel::from_state(&AppState::new(AppSettings::default()));
    assert_eq!(
        model.themes.iter().filter(|choice| choice.selected).count(),
        1
    );
    assert_eq!(
        model.shapes.iter().filter(|choice| choice.selected).count(),
        1
    );
    assert_eq!(
        model
            .languages
            .iter()
            .filter(|choice| choice.selected)
            .count(),
        1
    );
    assert_eq!(
        model
            .fit_modes
            .iter()
            .filter(|choice| choice.selected)
            .count(),
        1
    );
    assert_eq!(
        model
            .ring_thicknesses
            .iter()
            .filter(|choice| choice.selected)
            .count(),
        1
    );
    assert_eq!(
        model
            .camera_fps
            .iter()
            .filter(|choice| choice.selected)
            .count(),
        1
    );
    assert_eq!(
        model
            .camera_resolutions
            .iter()
            .filter(|choice| choice.selected)
            .count(),
        1
    );
}

#[test]
fn active_camera_selection_is_derived_without_logging() {
    let mut state = AppState::new(AppSettings::default());
    state.cameras = vec![CameraOption {
        id: "opaque-id".to_owned(),
        label: "Desk Camera".to_owned(),
    }];
    state.active_camera_id = Some("opaque-id".to_owned());
    let model = MenuModel::from_state(&state);
    assert!(model.cameras[0].selected);
    assert_eq!(model.cameras[0].label, "Desk Camera");
}
