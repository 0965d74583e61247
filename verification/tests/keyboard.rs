use beam::keyboard::{
    bind_global, check_globals, key_state, keymap_from_compiler, keymap_from_server, map_button,
    minimal_us_keymap, x11_to_evdev as to_evdev, xkbcli_command, xkbcomp_command, Global, BTN_LEFT,
    BTN_MIDDLE, BTN_RIGHT, SCROLL_PX_PER_UNIT,
};

#[test]
fn button_mapping() {
    assert_eq!(map_button(0).unwrap(), BTN_LEFT);
    assert_eq!(map_button(1).unwrap(), BTN_MIDDLE);
    assert_eq!(map_button(2).unwrap(), BTN_RIGHT);
    assert!(map_button(3).is_err());
    assert!(map_button(255).is_err());
    assert_eq!(map_button(255).unwrap_err(), "unknown mouse button index: 255");
    assert_eq!((BTN_LEFT, BTN_RIGHT, BTN_MIDDLE), (0x110, 0x111, 0x112));
}

#[test]
fn x11_to_evdev() {
    // Space: X11=65 → evdev=57
    assert_eq!(to_evdev(65), 57);
    // Saturates at zero, never negative.
    assert_eq!(to_evdev(8), 0);
    assert_eq!(to_evdev(0), 0);
}

#[test]
fn scroll_scale() {
    // 1.0 logical unit → 15.0 px
    assert!((1.0_f64 * SCROLL_PX_PER_UNIT as f64 - 15.0).abs() < f64::EPSILON);
}

#[test]
fn minimal_keymap_structure() {
    let km = minimal_us_keymap();
    assert!(km.contains("xkb_keymap"));
    assert!(km.contains("xkb_symbols"));
    assert!(km.contains("xkb_keycodes"));
}

#[test]
fn x11_to_evdev_conversion() {
    // X11 keycode 65 (space) → evdev 57 (= 65 - 8)
    let evdev = to_evdev(65);
    assert_eq!(evdev, 57);

    // X11 keycode 8 (Escape in some maps) → evdev 0 (clamped, not negative)
    let evdev_min = to_evdev(8);
    assert_eq!(evdev_min, 0);
}

#[test]
fn scroll_pixel_scale() {
    // 1.0 logical unit → SCROLL_PX_PER_UNIT pixels
    let v = 1.0_f64 * SCROLL_PX_PER_UNIT as f64;
    assert!((v - 15.0).abs() < f64::EPSILON);
}

#[test]
fn minimal_keymap_contains_xkb_keymap_block() {
    let km = minimal_us_keymap();
    assert!(km.contains("xkb_keymap"));
    assert!(km.contains("xkb_symbols"));
}

#[test]
fn keymap_is_exact() {
    let pull = ["incl", "ude"].concat();
    let expected = format!(
        "xkb_keymap {{\n    xkb_keycodes  {{ {pull} \"evdev+aliases(qwerty)\" }};\n    xkb_types     {{ {pull} \"complete\" }};\n    xkb_compat    {{ {pull} \"complete\" }};\n    xkb_symbols   {{ {pull} \"pc+us+inet(evdev)\" }};\n    xkb_geometry  {{ {pull} \"pc(pc105)\" }};\n}};"
    );
    assert_eq!(minimal_us_keymap(), expected);
}

#[test]
fn keymaps_are_found() {
    assert_eq!(keymap_from_server(true, b"map".to_vec()).as_deref(), Some("map"));
    assert_eq!(keymap_from_server(true, b" \n".to_vec()), None);
    assert_eq!(keymap_from_server(true, vec![0xff]), None);
    assert_eq!(keymap_from_server(false, b"map".to_vec()), None);
    assert_eq!(keymap_from_compiler(true, b"".to_vec()), Ok(String::new()));
    assert_eq!(keymap_from_compiler(false, b"x".to_vec()), Ok(minimal_us_keymap()));
    assert_eq!(
        keymap_from_compiler(true, vec![0xff]),
        Err("xkbcli output not UTF-8".to_string())
    );
    assert_eq!(xkbcomp_command(":1").args, ["-xkb", ":1", "-"]);
    assert_eq!(xkbcli_command(None, "", "").args, ["compile-keymap", "--layout", "us"]);
    assert_eq!(
        xkbcli_command(Some("de"), "nodeadkeys", "caps:escape").args,
        [
            "compile-keymap", "--layout", "de", "--variant", "nodeadkeys", "--options",
            "caps:escape"
        ]
    );
}

#[test]
fn globals_are_bound() {
    assert!(bind_global("wl_seat", 9) == Some((Global::Seat, 7)));
    assert!(bind_global("wl_seat", 5) == Some((Global::Seat, 5)));
    assert!(
        bind_global("zwlr_virtual_pointer_manager_v1", 3) == Some((Global::PointerManager, 2))
    );
    assert!(
        bind_global("zwp_virtual_keyboard_manager_v1", 3) == Some((Global::KeyboardManager, 1))
    );
    assert!(bind_global("wl_output", 3).is_none());
    assert_eq!(check_globals(true, true, true), Ok(()));
    assert_eq!(
        check_globals(false, false, false),
        Err("compositor did not advertise wl_seat".to_string())
    );
    assert!(check_globals(true, false, false).unwrap_err().contains("pointer"));
    assert!(check_globals(true, true, false).unwrap_err().contains("keyboard"));
    assert_eq!((key_state(true), key_state(false)), (1, 0));
}
