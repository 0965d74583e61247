use beam::seed::{
    ephemeral_config, seed_default_config, sentinel, try_persistent_config_in, FileAction, FileStep,
};

/// What the steps write to a path, last.
fn written<'a>(steps: &'a [FileStep], path: &str) -> Option<&'a str> {
    let mut found = None;
    for s in steps {
        if let FileAction::Write(p, content) = &s.action {
            if p == path {
                found = Some(content.as_str());
            }
        }
    }
    found
}

fn seeded() -> Vec<FileStep> {
    seed_default_config("/c", true, Some("firefox"), Some("xterm"))
}

const XFCONF: &str = "/c/xfce4/xfconf/xfce-perchannel-xml";

#[test]
fn seed_default_config_creates_correct_structure() {
    let steps = seeded();
    for name in [
        "xfwm4.xml",
        "xsettings.xml",
        "xfce4-session.xml",
        "xfce4-panel.xml",
        "xfce4-desktop.xml",
        "xfce4-keyboard-shortcuts.xml",
    ] {
        assert!(written(&steps, &format!("{XFCONF}/{name}")).is_some(), "{name} missing");
    }
    assert!(written(&steps, "/c/gtk-3.0/settings.ini").is_some(), "GTK settings missing");
    assert!(written(&steps, "/c/gtk-3.0/gtk.css").is_some(), "GTK CSS missing");
    assert!(
        written(&steps, "/c/autostart/pulseaudio.desktop").is_some(),
        "autostart mask missing"
    );
    assert!(written(&steps, "/c/xfce4/helpers.rc").is_some(), "helpers.rc missing");
    let xsettings = written(&steps, &format!("{XFCONF}/xsettings.xml")).unwrap();
    assert!(
        xsettings.contains(r#""ThemeName" type="string" value="Arc-Dark""#),
        "xsettings.xml should pre-seed Arc-Dark theme"
    );
    assert!(
        xsettings.contains(r#""IconThemeName" type="string" value="Papirus-Dark""#),
        "xsettings.xml should pre-seed Papirus-Dark icons"
    );
    let xfwm4 = written(&steps, &format!("{XFCONF}/xfwm4.xml")).unwrap();
    assert!(
        xfwm4.contains(r#""use_compositing" type="bool" value="false""#),
        "xfwm4.xml should disable compositor"
    );
    assert!(
        xfwm4.contains(r#""theme" type="string" value="Arc-Dark""#),
        "xfwm4.xml should pre-seed Arc-Dark window theme"
    );
}

#[test]
fn persistent_config_creates_sentinel_and_version() {
    let setup = try_persistent_config_in("/home/ann", false, false, None, None);
    assert!(setup.first_session, "First call should report is_first_session=true");
    assert!(
        setup.config_dir.ends_with(".local/share/beam/config"),
        "Config dir should be under beam/"
    );
    let beam = "/home/ann/.local/share/beam";
    assert_eq!(written(&setup.steps, &format!("{beam}/.initialized")), Some(""));
    assert_eq!(written(&setup.steps, &format!("{beam}/.config-version")), Some("1"));
    assert!(
        written(
            &setup.steps,
            &format!("{beam}/config/xfce4/xfconf/xfce-perchannel-xml/xfwm4.xml")
        )
        .is_some(),
        "Config files should be seeded"
    );
    assert_eq!(sentinel("/home/ann"), format!("{beam}/.initialized"));
    // The sentinel comes last, and must not fail.
    let last = setup.steps.last().unwrap();
    assert!(matches!(&last.action, FileAction::Write(p, _) if *p == sentinel("/home/ann")));
    assert_eq!(last.error.as_deref(), Some("Failed to write initialization sentinel"));
    assert!(matches!(&setup.steps[0].action, FileAction::MakeDir(p) if *p == setup.config_dir));
    assert_eq!(
        setup.steps[1].error.as_deref(),
        Some("Failed to set permissions on /home/ann/.local/share/beam/config")
    );
}

#[test]
fn persistent_config_skips_on_subsequent_call() {
    let setup = try_persistent_config_in("/home/ann", true, true, Some("firefox"), None);
    assert!(!setup.first_session, "Second call should report is_first_session=false");
    assert!(setup.steps.is_empty(), "User customizations should be preserved");
}

#[test]
fn persistent_config_fallback_on_error() {
    // A home that cannot be written stops the setup at its first step.
    let refused = try_persistent_config_in("/proc/nonexistent", false, false, None, None);
    assert!(matches!(
        &refused.steps[0].action,
        FileAction::MakeDir(p) if p == "/proc/nonexistent/.local/share/beam/config"
    ));
    assert_eq!(
        refused.steps[0].error.as_deref(),
        Some("Failed to create /proc/nonexistent/.local/share/beam/config"),
        "Should fail with a home that cannot be written"
    );
    let setup = ephemeral_config(9999, false, None, None);
    assert!(setup.first_session, "Fallback should report first session");
    assert_eq!(setup.config_dir, "/tmp/beam-xfce-9999", "Should fall back to ephemeral path");
    assert!(
        written(
            &setup.steps,
            "/tmp/beam-xfce-9999/xfce4/xfconf/xfce-perchannel-xml/xfwm4.xml"
        )
        .is_some(),
        "Fallback should seed config files"
    );
    assert!(matches!(&setup.steps[0].action, FileAction::RemoveDir(p) if *p == setup.config_dir));
    assert!(matches!(&setup.steps[2].action, FileAction::MakePrivate(p) if *p == setup.config_dir));
}

#[test]
fn seed_default_config_writes_gtk_css_transitions() {
    let steps = seeded();
    let css = written(&steps, "/c/gtk-3.0/gtk.css").unwrap();
    assert!(css.contains("transition-duration: 0s"), "GTK CSS should disable transitions");
    assert!(css.contains("animation-duration: 0s"), "GTK CSS should disable animations");
    let settings = written(&steps, "/c/gtk-3.0/settings.ini").unwrap();
    assert!(
        settings.contains("gtk-enable-animations=false"),
        "GTK settings should disable animations"
    );
}

#[test]
fn seed_default_config_masks_autostart_entries() {
    let steps = seeded();
    for entry in [
        "pulseaudio.desktop",
        "tracker-miner-fs-3.desktop",
        "update-notifier.desktop",
    ] {
        let content = written(&steps, &format!("/c/autostart/{entry}"));
        assert!(content.is_some(), "{entry} should be masked");
        assert!(content.unwrap().contains("Hidden=true"), "{entry} should be hidden");
    }
}

#[test]
fn seed_default_config_writes_compositor_disabled() {
    let steps = seeded();
    let xfwm4 = written(&steps, &format!("{XFCONF}/xfwm4.xml")).unwrap();
    assert!(
        xfwm4.contains(r#""use_compositing" type="bool" value="false""#),
        "Compositor should be disabled by default"
    );
    assert!(
        xfwm4.contains(r#""zoom_desktop" type="bool" value="false""#),
        "Workspace zoom should be disabled"
    );
    assert!(
        xfwm4.contains(r#""popup_opacity" type="int" value="100""#),
        "Popup opacity should be 100%"
    );
}

#[test]
fn seed_default_config_writes_panel_config() {
    let steps = seeded();
    let panel = written(&steps, &format!("{XFCONF}/xfce4-panel.xml")).unwrap();
    assert!(panel.contains("tasklist"), "Panel should have tasklist plugin");
    assert!(panel.contains("clock"), "Panel should have clock plugin");
    assert!(panel.contains("systray"), "Panel should have systray plugin");
    assert!(panel.contains(r#"name="plugin-1" type="string" value="whiskermenu""#));
    let plain = seed_default_config("/c", false, None, None);
    let panel = written(&plain, &format!("{XFCONF}/xfce4-panel.xml")).unwrap();
    assert!(panel.contains(r#"name="plugin-1" type="string" value="applicationsmenu""#));
}

#[test]
fn persistent_config_sentinel_prevents_reseeding() {
    let setup = try_persistent_config_in("/home/ann", true, false, None, None);
    assert!(!setup.first_session);
    assert!(
        setup.steps.is_empty(),
        "Deleted file should not be re-created after sentinel exists"
    );
}

#[test]
fn persistent_config_version_file_content() {
    let setup = try_persistent_config_in("/h", false, false, None, None);
    let version = written(&setup.steps, "/h/.local/share/beam/.config-version");
    assert_eq!(version, Some("1"), "Config version should be 1");
}

#[test]
fn applications_are_chosen() {
    let steps = seeded();
    assert_eq!(
        written(&steps, "/c/xfce4/helpers.rc"),
        Some("[Default]\nTerminalEmulator=xterm\nWebBrowser=firefox\n")
    );
    assert_eq!(
        written(&steps, "/c/mimeapps.list"),
        Some(
            "[Default Applications]\nx-scheme-handler/http=firefox.desktop\nx-scheme-handler/https=firefox.desktop\ntext/html=firefox.desktop\napplication/xhtml+xml=firefox.desktop\n"
        )
    );
    for (browser, helper, file) in [
        ("firefox-esr", "firefox-esr", Some("firefox-esr.desktop")),
        ("google-chrome-stable", "google-chrome", Some("google-chrome.desktop")),
        ("google-chrome", "google-chrome", Some("google-chrome.desktop")),
        ("chromium-browser", "chromium", Some("chromium-browser.desktop")),
        ("chromium", "chromium", Some("chromium-browser.desktop")),
        ("epiphany-browser", "epiphany", Some("org.gnome.Epiphany.desktop")),
        ("lynx", "lynx", None),
    ] {
        let steps = seed_default_config("/c", false, Some(browser), None);
        assert_eq!(
            written(&steps, "/c/xfce4/helpers.rc").unwrap(),
            format!("[Default]\nWebBrowser={helper}\n")
        );
        let mime = written(&steps, "/c/mimeapps.list");
        assert_eq!(mime.is_some(), file.is_some(), "{browser}");
        if let Some(f) = file {
            assert!(mime.unwrap().contains(&format!("text/html={f}\n")));
        }
    }
    let none = seed_default_config("/c", false, None, None);
    assert_eq!(written(&none, "/c/xfce4/helpers.rc"), Some("[Default]\n"));
}

#[test]
fn seeding_stays_in_the_directory() {
    for s in seeded() {
        let path = match &s.action {
            FileAction::MakeDir(p) => p,
            FileAction::RemoveDir(p) => p,
            FileAction::MakePrivate(p) => p,
            FileAction::Write(p, _) => p,
        };
        assert!(path.starts_with("/c/"), "{path}");
        assert!(s.error.is_none());
    }
}
