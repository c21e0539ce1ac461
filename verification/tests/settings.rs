use juhradiald::config::{Config, HapticConfig, HapticEventConfig, CONFIG_DIR, CONFIG_FILE};
use juhradiald::cursor::{CursorPosition, ScreenBounds, EDGE_MARGIN, MENU_DIAMETER, MENU_RADIUS};
use juhradiald::dbus::{DBUS_INTERFACE, DBUS_NAME, DBUS_PATH};

#[test]
fn test_default_config() {
    let config = Config::default();
    assert_eq!(config.haptics.default_pattern, "subtle_collision");
    assert!(config.haptics.enabled);
    assert_eq!(config.theme, "catppuccin-mocha");
}

#[test]
fn test_haptic_config_defaults() {
    let haptic = HapticConfig::default();
    assert!(haptic.enabled);
    assert_eq!(haptic.default_pattern, "subtle_collision");
    assert_eq!(haptic.per_event.menu_appear, "damp_state_change");
    assert_eq!(haptic.per_event.slice_change, "subtle_collision");
    assert_eq!(haptic.per_event.confirm, "sharp_state_change");
    assert_eq!(haptic.per_event.invalid, "angry_alert");
}

#[test]
fn test_haptic_config_slice_debounce_defaults() {
    let haptic = HapticConfig::default();
    assert_eq!(haptic.slice_debounce_ms, 20);
    assert_eq!(haptic.reentry_debounce_ms, 50);
}

#[test]
fn test_haptic_disabled_check() {
    let mut config = HapticConfig::default();
    assert!(!config.is_disabled());

    config.enabled = false;
    assert!(config.is_disabled());
}

#[test]
fn test_legacy_getters() {
    let config = Config::default();
    assert!(config.haptics_enabled());
}

#[test]
fn the_defaults_of_the_whole_configuration() {
    let config = Config::default();
    assert!(config.blur_enabled);
    assert!(config.config_path.is_none());
    assert_eq!(config.haptics.debounce_ms, 20);
    assert_eq!(config.default_haptic_pattern(), "subtle_collision");
    assert_eq!(CONFIG_DIR, "juhradial");
    assert_eq!(CONFIG_FILE, "config.json");
}

#[test]
fn validation_accepts_every_value() {
    let mut config = HapticConfig {
        enabled: false,
        default_pattern: String::from("no such pattern"),
        per_event: HapticEventConfig {
            menu_appear: String::new(),
            slice_change: String::from("x"),
            confirm: String::from("y"),
            invalid: String::from("z"),
        },
        debounce_ms: u64::MAX,
        slice_debounce_ms: 0,
        reentry_debounce_ms: 1,
    };
    config.validate();
    config.per_event.validate();
    assert!(!config.enabled);
    assert_eq!(config.default_pattern, "no such pattern");
    assert_eq!(config.per_event.menu_appear, "");
    assert_eq!(config.per_event.invalid, "z");
    assert_eq!(config.debounce_ms, u64::MAX);
    assert_eq!(config.slice_debounce_ms, 0);
    assert_eq!(config.reentry_debounce_ms, 1);
}

#[test]
fn test_cursor_position_new() {
    let pos = CursorPosition::new(100, 200);
    assert_eq!(pos.x, 100);
    assert_eq!(pos.y, 200);
}

#[test]
fn test_edge_clamping_center() {
    let bounds = ScreenBounds { width: 1920, height: 1080 };
    let pos = CursorPosition::new(960, 540);
    let clamped = pos.clamp_to_screen(&bounds);

    assert_eq!(clamped.x, 960);
    assert_eq!(clamped.y, 540);
}

#[test]
fn test_edge_clamping_top_left() {
    let bounds = ScreenBounds { width: 1920, height: 1080 };
    let pos = CursorPosition::new(0, 0);
    let clamped = pos.clamp_to_screen(&bounds);

    assert_eq!(clamped.x, EDGE_MARGIN + MENU_RADIUS);
    assert_eq!(clamped.y, EDGE_MARGIN + MENU_RADIUS);
}

#[test]
fn test_edge_clamping_bottom_right() {
    let bounds = ScreenBounds { width: 1920, height: 1080 };
    let pos = CursorPosition::new(1920, 1080);
    let clamped = pos.clamp_to_screen(&bounds);

    assert_eq!(clamped.x, 1920 - EDGE_MARGIN - MENU_RADIUS);
    assert_eq!(clamped.y, 1080 - EDGE_MARGIN - MENU_RADIUS);
}

#[test]
fn test_edge_clamping_near_edge() {
    let bounds = ScreenBounds { width: 1920, height: 1080 };
    let pos = CursorPosition::new(10, 540);
    let clamped = pos.clamp_to_screen(&bounds);

    assert_eq!(clamped.x, EDGE_MARGIN + MENU_RADIUS);
    assert_eq!(clamped.y, 540);
}

#[test]
fn test_menu_constants() {
    assert_eq!(MENU_DIAMETER, 280);
    assert_eq!(EDGE_MARGIN, 20);
    assert_eq!(MENU_RADIUS, 140);
}

#[test]
fn test_screen_bounds_default() {
    let bounds = ScreenBounds::default();
    assert_eq!(bounds.width, 1920);
    assert_eq!(bounds.height, 1080);
}

#[test]
fn test_edge_clamping_integration() {
    let bounds = ScreenBounds { width: 1920, height: 1080 };

    let pos = CursorPosition::new(50, 540);
    let clamped = pos.clamp_to_screen(&bounds);
    assert_eq!(clamped.x, EDGE_MARGIN + MENU_RADIUS);

    let pos = CursorPosition::new(960, 30);
    let clamped = pos.clamp_to_screen(&bounds);
    assert_eq!(clamped.y, EDGE_MARGIN + MENU_RADIUS);

    let pos = CursorPosition::new(1900, 1060);
    let clamped = pos.clamp_to_screen(&bounds);
    assert_eq!(clamped.x, 1920 - EDGE_MARGIN - MENU_RADIUS);
    assert_eq!(clamped.y, 1080 - EDGE_MARGIN - MENU_RADIUS);
}

#[test]
fn test_cursor_position_within_bounds() {
    let bounds = ScreenBounds { width: 1920, height: 1080 };
    let pos = CursorPosition::new(500, 500);
    let clamped = pos.clamp_to_screen(&bounds);
    assert_eq!(clamped.x, 500);
    assert_eq!(clamped.y, 500);
}

#[test]
fn clamping_at_the_limits() {
    let bounds = ScreenBounds { width: 1920, height: 1080 };
    let far = CursorPosition::new(i32::MIN, i32::MAX).clamp_to_screen(&bounds);
    assert_eq!(far, CursorPosition { x: 160, y: 920 });
    let kept = CursorPosition::new(160, 920).clamp_to_screen(&bounds);
    assert_eq!(kept, CursorPosition { x: 160, y: 920 });
    let kept = CursorPosition::new(1760, 160).clamp_to_screen(&bounds);
    assert_eq!(kept, CursorPosition { x: 1760, y: 160 });

    let tight = ScreenBounds { width: 320, height: 320 };
    assert!(tight.fits_menu());
    assert_eq!(CursorPosition::new(7, 900).clamp_to_screen(&tight), CursorPosition::new(160, 160));
    assert!(!ScreenBounds { width: 319, height: 1080 }.fits_menu());
    assert!(!ScreenBounds { width: 1920, height: 319 }.fits_menu());
    assert_eq!(CursorPosition::default(), CursorPosition::new(0, 0));
}

#[test]
fn test_dbus_constants() {
    assert_eq!(DBUS_INTERFACE, "org.kde.juhradialmx.Daemon");
    assert_eq!(DBUS_PATH, "/org/kde/juhradialmx/Daemon");
    assert_eq!(DBUS_NAME, "org.kde.juhradialmx");
}
