use crayon::settings::{number_or, EngineSettings, WindowSettings, DEFAULT_EXTENT};

#[test]
fn missing_numbers_fall_back() {
    assert_eq!(number_or(None, 0), 0);
    assert_eq!(number_or(None, 128), 128);
    assert_eq!(number_or(Some(60), 0), 60);
    assert_eq!(number_or(Some(0), 128), 0);
}

#[test]
fn negative_numbers_keep_their_bits() {
    assert_eq!(number_or(Some(-1), 0), u32::MAX);
    assert_eq!(number_or(Some(i32::MIN), 0), 0x8000_0000);
    assert_eq!(number_or(Some(i32::MAX), 0), 0x7fff_ffff);
    assert_eq!(number_or(None, -2), u32::MAX - 1);
}

#[test]
fn engine_settings_from_values() {
    let s = EngineSettings::from_values(Some(30), None, Some(-1), Some(4));
    assert_eq!(
        s,
        EngineSettings {
            min_fps: 30,
            max_fps: 0,
            max_inactive_fps: u32::MAX,
            time_smoothing_step: 4,
        }
    );
}

#[test]
fn window_settings_from_values() {
    assert_eq!(DEFAULT_EXTENT, 128);
    let s = WindowSettings::from_values(None, None, Some(480));
    assert_eq!(s.title, "Lemon3D - Application");
    assert_eq!(s.width, 128);
    assert_eq!(s.height, 480);
    let s = WindowSettings::from_values(Some("Demo".to_string()), Some(640), None);
    assert_eq!(s.title, "Demo");
    assert_eq!(s.width, 640);
    assert_eq!(s.height, 128);
}
