use beam::desktop::{
    background_command, choose_desktop, first_settings, hide_cursor, keyring_plan, must_kill,
    openbox_command, openbox_terminal, pulse_server, pulseaudio_command, reused_pulse_server,
    setting_command, stop_action, teardown, xfce_command, ChildState, Desktop, DisplayParts,
    StopAction, Teardown,
};

fn env<'a>(c: &'a beam::command::CommandLine, name: &str) -> Option<&'a str> {
    c.env.iter().find(|e| e.0 == name).map(|e| e.1.as_str())
}

#[test]
fn desktops_are_chosen() {
    assert!(choose_desktop(true, false) == Ok(Desktop::Xfce));
    assert!(choose_desktop(false, true) == Ok(Desktop::Openbox));
    assert_eq!(
        choose_desktop(false, false).err().unwrap(),
        "No desktop environment found. Install xfce4 or openbox."
    );
}

#[test]
fn xfce_is_started_on_its_own_bus() {
    let c = xfce_command(10, "/c", Some("firefox"), None);
    assert_eq!(c.program, "/usr/bin/dbus-launch");
    assert_eq!(c.args, ["--exit-with-session", "xfce4-session"]);
    assert_eq!(env(&c, "DISPLAY"), Some(":10"));
    assert_eq!(env(&c, "PULSE_SERVER"), Some("unix:/tmp/beam-pulse-10/native"));
    assert_eq!(env(&c, "XDG_CONFIG_HOME"), Some("/c"));
    assert_eq!(env(&c, "XDG_RUNTIME_DIR"), Some("/tmp/beam-run-10"));
    assert_eq!(env(&c, "BROWSER"), Some("firefox"));
    assert_eq!(env(&c, "TERMINAL"), None);
    assert_eq!(c.env.len(), 8);
}

#[test]
fn keyrings_are_set_up() {
    let k = keyring_plan(10, "/home/ann", "unix:x");
    assert_eq!(k.control_dir, "/tmp/beam-keyring-10");
    assert_eq!(k.keyrings_dir, "/home/ann/.local/share/beam/keyring/keyrings");
    assert_eq!(k.default_file, "/home/ann/.local/share/beam/keyring/keyrings/default");
    assert_eq!(
        k.command.args,
        [
            "-c",
            "echo '' | gnome-keyring-daemon --foreground --unlock --components=secrets --control-directory=/tmp/beam-keyring-10"
        ]
    );
    assert_eq!(env(&k.command, "XDG_DATA_HOME"), Some("/home/ann/.local/share/beam/keyring"));
}

#[test]
fn settings_are_applied() {
    let all = first_settings();
    assert_eq!(all.len(), 15);
    let c = setting_command(&all[0], ":1", Some("unix:x"));
    assert_eq!(
        c.args,
        ["-c", "xfwm4", "-p", "/general/use_compositing", "-n", "-t", "bool", "-s", "false"]
    );
    assert_eq!(c.env.len(), 2);
    assert_eq!(setting_command(&all[14], ":1", None).env.len(), 1);
    assert_eq!(all[14].property, "/commands/custom/<Shift>Print");
    assert_eq!(all[9].value, "Arc-Dark");
}

#[test]
fn openbox_is_the_fallback() {
    assert_eq!(openbox_command(3).env.len(), 2);
    assert_eq!(background_command(3).args, ["-solid", "#2d3436"]);
    assert_eq!(openbox_terminal(3, true, true).unwrap().program, "xfce4-terminal");
    assert_eq!(openbox_terminal(3, false, true).unwrap().args[1], "100x35+100+100");
    assert!(openbox_terminal(3, false, false).is_none());
}

#[test]
fn cursors_are_hidden() {
    let both = hide_cursor(3, true, true);
    assert_eq!(both.len(), 2);
    assert_eq!((both[0].program.as_str(), both[1].program.as_str()), ("unclutter-xfixes", "unclutter"));
    assert_eq!(both[1].args, ["-idle", "1", "-root"]);
    assert_eq!(hide_cursor(3, false, true).len(), 1);
    assert!(hide_cursor(3, false, false).is_empty());
}

#[test]
fn sound_has_its_own_server() {
    let c = pulseaudio_command(3);
    assert_eq!(
        c.args,
        ["--daemonize=no", "--exit-idle-time=-1", "-n", "-F", "/tmp/beam-pulse-3.pa"]
    );
    assert_eq!(c.removed_env, ["DBUS_SESSION_BUS_ADDRESS"]);
    assert_eq!(env(&c, "PULSE_RUNTIME_PATH"), Some("/tmp/beam-pulse-3"));
    assert_eq!(reused_pulse_server(3, true), Some(pulse_server(3)));
    assert_eq!(reused_pulse_server(3, false), None);
    let script = beam::display::pa_config(&beam::desktop::pulse_dir(3));
    assert!(script.contains("socket=/tmp/beam-pulse-3/native"));
}

#[test]
fn displays_end_in_order() {
    assert!(stop_action(ChildState::Running) == StopAction::Terminate);
    assert!(stop_action(ChildState::Exited) == StopAction::LeaveAlone);
    assert!(stop_action(ChildState::Unknown) == StopAction::LeaveAlone);
    assert!(must_kill(ChildState::Running) && !must_kill(ChildState::Exited));
    let steps = teardown(&DisplayParts {
        display_num: 7,
        cursor_hider: true,
        sound_server: true,
        desktop: true,
        x_server: true,
        cleanup_config: Some("/tmp/beam-xorg-7.conf".to_string()),
        cleanup_edid: None,
    });
    assert_eq!(steps.len(), 9);
    assert!(matches!(steps[0], Teardown::StopCursorHider));
    assert!(matches!(steps[1], Teardown::StopSoundServer));
    assert!(matches!(steps[2], Teardown::StopDesktopGroup));
    assert!(matches!(steps[3], Teardown::StopXServer));
    assert!(matches!(&steps[4], Teardown::RemoveFile(p) if p == "/tmp/beam-xorg-7.conf"));
    assert!(matches!(&steps[5], Teardown::RemoveDir(p) if p == "/tmp/beam-pulse-7"));
    assert!(matches!(&steps[6], Teardown::RemoveFile(p) if p == "/tmp/beam-pulse-7.pa"));
    assert!(matches!(&steps[7], Teardown::RemoveDir(p) if p == "/tmp/beam-keyring-7"));
    assert!(matches!(&steps[8], Teardown::RemoveDir(p) if p == "/tmp/beam-run-7"));
}
