use imclicker_v2::config::{config_or_default, AppConfig, BindMode, SaveThrottle};

#[test]
fn bind_mode_codes() {
    assert_eq!(BindMode::Toggle.as_u8(), 0);
    assert_eq!(BindMode::Hold.as_u8(), 1);
    assert_eq!(BindMode::from_u8(0), BindMode::Toggle);
    assert_eq!(BindMode::from_u8(1), BindMode::Hold);
    assert_eq!(BindMode::from_u8(2), BindMode::Toggle);
    assert_eq!(BindMode::from_u8(255), BindMode::Toggle);
}

#[test]
fn bind_mode_round_trip() {
    for mode in [BindMode::Toggle, BindMode::Hold] {
        assert_eq!(BindMode::from_u8(mode.as_u8()), mode);
    }
    for value in 0..=255u8 {
        let expected = if value == 1 { 1 } else { 0 };
        assert_eq!(BindMode::from_u8(value).as_u8(), expected);
    }
}

#[test]
fn bind_mode_labels_and_default() {
    assert_eq!(BindMode::Toggle.label(), "Toggle");
    assert_eq!(BindMode::Hold.label(), "Hold");
    assert_eq!(BindMode::default(), BindMode::Toggle);
}

#[test]
fn default_config() {
    let config = AppConfig::default();
    assert_eq!(config.target_cps, 120);
    assert_eq!(config.mode, BindMode::Toggle);
    assert_eq!(config.bind_vk, b'Y' as u16);
    assert!(!config.manual_active);
}

#[test]
fn increment_stops_at_maximum() {
    let mut config = AppConfig::default();
    config.target_cps = 999;
    config.increment_target();
    assert_eq!(config.target_cps, 1000);
    config.increment_target();
    assert_eq!(config.target_cps, 1000);
    config.target_cps = 0;
    config.increment_target();
    assert_eq!(config.target_cps, 1);
    config.target_cps = 5000;
    config.increment_target();
    assert_eq!(config.target_cps, 1000);
    config.target_cps = u32::MAX;
    config.increment_target();
    assert_eq!(config.target_cps, 1000);
}

#[test]
fn decrement_stops_at_one() {
    let mut config = AppConfig::default();
    config.target_cps = 500;
    config.decrement_target();
    assert_eq!(config.target_cps, 499);
    config.target_cps = 2;
    config.decrement_target();
    assert_eq!(config.target_cps, 1);
    config.decrement_target();
    assert_eq!(config.target_cps, 1);
    config.target_cps = 0;
    config.decrement_target();
    assert_eq!(config.target_cps, 1);
}

#[test]
fn decrement_undoes_increment() {
    for target in 1..1000u32 {
        let mut config = AppConfig::default();
        config.target_cps = target;
        config.increment_target();
        config.decrement_target();
        assert_eq!(config.target_cps, target);
    }
}

#[test]
fn buttons_leave_other_settings() {
    let mut config = AppConfig { target_cps: 10, mode: BindMode::Hold, bind_vk: 0x70, manual_active: true };
    config.increment_target();
    config.decrement_target();
    assert_eq!(config, AppConfig { target_cps: 10, mode: BindMode::Hold, bind_vk: 0x70, manual_active: true });
    config.toggle_manual();
    assert!(!config.manual_active);
    config.toggle_manual();
    assert!(config.manual_active);
}

#[test]
fn loaded_config_or_default() {
    let saved = AppConfig { target_cps: 800, mode: BindMode::Hold, bind_vk: 0x20, manual_active: true };
    assert_eq!(config_or_default(Some(saved)), saved);
    assert_eq!(config_or_default(None), AppConfig::default());
}

#[test]
fn save_throttle_interval() {
    let mut throttle = SaveThrottle::new();
    assert!(throttle.try_begin(5));
    assert!(!throttle.try_begin(5 + 149_999_999));
    assert!(throttle.try_begin(5 + 150_000_000));
    assert!(!throttle.try_begin(5 + 150_000_001));
    // A clock reading before the last attempt counts as no time passed.
    assert!(!throttle.try_begin(0));
    assert_eq!(throttle.last_attempt, Some(150_000_005));
}
