use beam::discovery::{
    browsers, bus_of_process, find_dbus_address_for_display, find_non_snap_app, is_snap_binary,
    panel_pids, program_path, terminals, user_bus_path,
};

#[test]
fn find_dbus_prefers_user_bus() {
    let environ = b"DISPLAY=:99\0DBUS_SESSION_BUS_ADDRESS=unix:path=/other\0".to_vec();
    let result = find_dbus_address_for_display(":99", 1000, true, &vec![environ]);
    assert_eq!(
        result,
        Some("unix:path=/run/user/1000/bus".to_string()),
        "Should prefer systemd user bus when it exists"
    );
    assert_eq!(user_bus_path(1000), "/run/user/1000/bus");
}

#[test]
fn find_dbus_returns_none_for_nonexistent_display() {
    let environ = b"DISPLAY=:99\0DBUS_SESSION_BUS_ADDRESS=unix:path=/other\0".to_vec();
    let result = find_dbus_address_for_display(":9999", 1000, false, &vec![environ]);
    assert!(
        result.is_none(),
        "Should return None for nonexistent display when no user bus"
    );
}

#[test]
fn the_panel_of_the_display_is_asked() {
    let environs = vec![
        b"DISPLAY=:1\0DBUS_SESSION_BUS_ADDRESS=one\0".to_vec(),
        b"A=\xff\0DBUS_SESSION_BUS_ADDRESS=old\0DISPLAY=:2\0DBUS_SESSION_BUS_ADDRESS=two\0".to_vec(),
        b"DISPLAY=:2\0DBUS_SESSION_BUS_ADDRESS=three\0".to_vec(),
        b"DISPLAY=:3".to_vec(),
    ];
    assert_eq!(find_dbus_address_for_display(":2", 0, false, &environs).as_deref(), Some("two"));
    assert_eq!(find_dbus_address_for_display(":1", 0, false, &environs).as_deref(), Some("one"));
    assert_eq!(find_dbus_address_for_display(":3", 0, false, &environs), None);
    assert_eq!(find_dbus_address_for_display(":4", 0, false, &environs), None);
    let bus = bus_of_process(b"DBUS_SESSION_BUS_ADDRESS=a\xffb", ":1");
    assert!(!bus.has_display);
    assert_eq!(bus.address.as_deref(), Some("a\u{fffd}b"));
}

#[test]
fn pids_are_read() {
    assert_eq!(panel_pids(b"12\n 34 \n\n56"), ["12", "34", "56"]);
    assert!(panel_pids(b"").is_empty());
}

#[test]
fn snaps_are_told_apart() {
    assert!(is_snap_binary(Some("/snap/bin/firefox"), None));
    assert!(is_snap_binary(Some("/usr/bin/firefox"), Some("#!/bin/sh\nexec /snap/bin/firefox")));
    assert!(is_snap_binary(Some("/usr/bin/firefox"), Some("exec snap run x")));
    assert!(!is_snap_binary(Some("/usr/bin/firefox"), Some("#!/bin/sh\n")));
    assert!(!is_snap_binary(Some("/usr/bin/firefox"), None));
    assert!(!is_snap_binary(None, Some("/snap/bin/")));
    assert_eq!(program_path(b"/usr/bin/x\n".to_vec()).as_deref(), Some("/usr/bin/x"));
    assert_eq!(program_path(vec![0xff]), None);
}

#[test]
fn the_first_usable_program_is_found() {
    let names = browsers();
    assert_eq!(names.len(), 7);
    assert_eq!(names[0], "firefox-esr");
    assert_eq!(find_non_snap_app(&names, |n: &'static str| n.starts_with("chrom")), Some("chromium-browser"));
    assert_eq!(find_non_snap_app(&names, |_n: &'static str| false), None);
    assert_eq!(terminals(), ["xfce4-terminal", "gnome-terminal", "xterm"]);
}
