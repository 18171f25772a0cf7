use imclicker_v2::config::{AppConfig, BindMode};
use imclicker_v2::keys::{bind_label, capture_bind_key, key_to_vk, vk_name, InputEvent, KeyCode};

fn all_keys() -> Vec<(KeyCode, &'static str)> {
    vec![
        (KeyCode::A, "A"), (KeyCode::B, "B"), (KeyCode::C, "C"), (KeyCode::D, "D"), (KeyCode::E, "E"), (KeyCode::F, "F"), (KeyCode::G, "G"), (KeyCode::H, "H"),
        (KeyCode::I, "I"), (KeyCode::J, "J"), (KeyCode::K, "K"), (KeyCode::L, "L"), (KeyCode::M, "M"), (KeyCode::N, "N"), (KeyCode::O, "O"), (KeyCode::P, "P"),
        (KeyCode::Q, "Q"), (KeyCode::R, "R"), (KeyCode::S, "S"), (KeyCode::T, "T"), (KeyCode::U, "U"), (KeyCode::V, "V"), (KeyCode::W, "W"), (KeyCode::X, "X"),
        (KeyCode::Y, "Y"), (KeyCode::Z, "Z"),
        (KeyCode::Num0, "0"), (KeyCode::Num1, "1"), (KeyCode::Num2, "2"), (KeyCode::Num3, "3"), (KeyCode::Num4, "4"), (KeyCode::Num5, "5"),
        (KeyCode::Num6, "6"), (KeyCode::Num7, "7"), (KeyCode::Num8, "8"), (KeyCode::Num9, "9"),
        (KeyCode::F1, "F1"), (KeyCode::F2, "F2"), (KeyCode::F3, "F3"), (KeyCode::F4, "F4"), (KeyCode::F5, "F5"), (KeyCode::F6, "F6"),
        (KeyCode::F7, "F7"), (KeyCode::F8, "F8"), (KeyCode::F9, "F9"), (KeyCode::F10, "F10"), (KeyCode::F11, "F11"), (KeyCode::F12, "F12"),
        (KeyCode::Space, "SPACE"), (KeyCode::Tab, "TAB"),
    ]
}

#[test]
fn key_codes() {
    assert_eq!(key_to_vk(KeyCode::A), Some(b'A' as u16));
    assert_eq!(key_to_vk(KeyCode::Z), Some(b'Z' as u16));
    assert_eq!(key_to_vk(KeyCode::Num0), Some(b'0' as u16));
    assert_eq!(key_to_vk(KeyCode::Num9), Some(b'9' as u16));
    assert_eq!(key_to_vk(KeyCode::F1), Some(0x70));
    assert_eq!(key_to_vk(KeyCode::F12), Some(0x7B));
    assert_eq!(key_to_vk(KeyCode::Space), Some(0x20));
    assert_eq!(key_to_vk(KeyCode::Tab), Some(0x09));
    assert_eq!(key_to_vk(KeyCode::Other), None);
}

#[test]
fn vk_names() {
    assert_eq!(vk_name(0x20), "SPACE");
    assert_eq!(vk_name(0x09), "TAB");
    assert_eq!(vk_name(0x70), "F1");
    assert_eq!(vk_name(0x79), "F10");
    assert_eq!(vk_name(0x7B), "F12");
    assert_eq!(vk_name(b'0' as u16), "0");
    assert_eq!(vk_name(b'7' as u16), "7");
    assert_eq!(vk_name(b'A' as u16), "A");
    assert_eq!(vk_name(b'Y' as u16), "Y");
    assert_eq!(vk_name(0x10), "VK 16");
    assert_eq!(vk_name(0x7C), "VK 124");
    assert_eq!(vk_name(b'a' as u16), "VK 97");
    assert_eq!(vk_name(0), "VK 0");
    assert_eq!(vk_name(u16::MAX), "VK 65535");
}

#[test]
fn bound_keys_show_their_names() {
    for (key, name) in all_keys() {
        let vk = key_to_vk(key).unwrap();
        assert_eq!(vk_name(vk), name);
    }
}

#[test]
fn key_codes_are_distinct() {
    let keys = all_keys();
    for (i, (a, _)) in keys.iter().enumerate() {
        for (b, _) in keys.iter().skip(i + 1) {
            assert_ne!(key_to_vk(*a), key_to_vk(*b));
        }
    }
}

#[test]
fn capture_takes_first_fresh_press() {
    let mut waiting = true;
    let mut config = AppConfig::default();
    let events = vec![
        InputEvent::Other,
        InputEvent::Key { key: KeyCode::Other, pressed: true, repeat: false },
        InputEvent::Key { key: KeyCode::A, pressed: true, repeat: true },
        InputEvent::Key { key: KeyCode::C, pressed: false, repeat: false },
        InputEvent::Key { key: KeyCode::F5, pressed: true, repeat: false },
        InputEvent::Key { key: KeyCode::B, pressed: true, repeat: false },
    ];
    assert!(capture_bind_key(&mut waiting, &mut config, &events));
    assert!(!waiting);
    assert_eq!(config.bind_vk, 0x74);
    assert_eq!(config.target_cps, 120);
    assert_eq!(config.mode, BindMode::Toggle);
}

#[test]
fn capture_needs_waiting_and_a_bindable_press() {
    let mut config = AppConfig::default();
    let events = vec![InputEvent::Key { key: KeyCode::B, pressed: true, repeat: false }];
    let mut waiting = false;
    assert!(!capture_bind_key(&mut waiting, &mut config, &events));
    assert_eq!(config, AppConfig::default());

    let mut waiting = true;
    let unbindable = vec![
        InputEvent::Key { key: KeyCode::Other, pressed: true, repeat: false },
        InputEvent::Key { key: KeyCode::B, pressed: true, repeat: true },
    ];
    assert!(!capture_bind_key(&mut waiting, &mut config, &unbindable));
    assert!(waiting);
    assert_eq!(config, AppConfig::default());
    assert!(!capture_bind_key(&mut waiting, &mut config, &Vec::new()));
    assert!(waiting);
}

#[test]
fn bind_box_text() {
    assert_eq!(bind_label(true, 0x20), "PRESS KEY...");
    assert_eq!(bind_label(false, 0x20), "SPACE");
    assert_eq!(bind_label(false, b'Y' as u16), "Y");
}
