use void_launcher::layout::{
    auto_columns, auto_icon_size, grid_columns, icon_size_setting, initial_icon_size,
    keyboard_setting, layer_setting, window_settings, IconSize, KeyboardMode, Layer, WindowSettings,
    WindowSize,
};

#[test]
fn windowed_size_is_clamped() {
    let s = window_settings("overlay", "false", "exclusive", "100".to_string(), "150".to_string());
    assert_eq!(
        s,
        WindowSettings {
            size: Some(WindowSize { width: 350, height: 200 }),
            layer: Layer::Overlay,
            keyboard: KeyboardMode::Exclusive,
        }
    );
}

#[test]
fn windowed_size_defaults() {
    let s = window_settings("bottom", "false", "on-demand", "wide".to_string(), "".to_string());
    assert_eq!(s.size, Some(WindowSize { width: 600, height: 800 }));
    assert_eq!(s.layer, Layer::Bottom);
    assert_eq!(s.keyboard, KeyboardMode::OnDemand);
}

#[test]
fn fullscreen_has_no_size() {
    let s = window_settings("top", "true", "", "900".to_string(), "700".to_string());
    assert_eq!(s.size, None);
    let s = window_settings("top", "maybe", "", "900".to_string(), "700".to_string());
    assert_eq!(s.size, None);
}

#[test]
fn layer_and_keyboard_fallbacks() {
    assert_eq!(layer_setting("sky"), Layer::Top);
    assert_eq!(layer_setting("top"), Layer::Top);
    assert_eq!(keyboard_setting("Exclusive"), KeyboardMode::OnDemand);
}

#[test]
fn icon_size_settings() {
    assert_eq!(icon_size_setting("auto".to_string()), IconSize::Auto);
    assert_eq!(icon_size_setting("48".to_string()), IconSize::Fixed(48));
    assert_eq!(icon_size_setting("20".to_string()), IconSize::Fixed(20));
    assert_eq!(icon_size_setting("19".to_string()), IconSize::Auto);
    assert_eq!(icon_size_setting("big".to_string()), IconSize::Auto);
    assert_eq!(initial_icon_size(IconSize::Auto), 30);
    assert_eq!(initial_icon_size(IconSize::Fixed(64)), 64);
}

#[test]
fn auto_icon_sizes() {
    assert_eq!(auto_icon_size(0), 30);
    assert_eq!(auto_icon_size(599), 30);
    assert_eq!(auto_icon_size(600), 40);
    assert_eq!(auto_icon_size(1800), 50);
    assert_eq!(auto_icon_size(2400), 60);
    assert_eq!(auto_icon_size(-1), 60);
}

#[test]
fn column_counts() {
    assert_eq!(auto_columns(499), 3);
    assert_eq!(auto_columns(500), 5);
    assert_eq!(auto_columns(1099), 6);
    assert_eq!(auto_columns(1100), 7);
    assert_eq!(auto_columns(1699), 8);
    assert_eq!(auto_columns(1999), 9);
    assert_eq!(auto_columns(2000), 10);
    assert_eq!(auto_columns(-5), 10);
    assert_eq!(grid_columns("4".to_string(), 300), 4);
    assert_eq!(grid_columns("1".to_string(), 300), 3);
    assert_eq!(grid_columns("auto".to_string(), 900), 6);
}
