//! The files that a desktop finds in its configuration directory when it starts for the first time.
use crate::text::{begins, decimal, decimal_u32, holds, matches_at, opt_text, opt_view, text_eq};
use vstd::prelude::*;
use vstd::string::*;

verus! {

/// Something to be done to the file system.
pub enum FileAction {
    /// Make a directory and those above it.
    MakeDir(String),
    /// Remove a directory with all that is in it.
    RemoveDir(String),
    /// Let nobody but the owner in.
    MakePrivate(String),
    /// Write a file: its path and what is in it.
    Write(String, String),
}

/// A step of a setup. A step that fails stops the setup where it has an error to report, and is
/// passed over where it has none.
pub struct FileStep {
    pub action: FileAction,
    pub error: Option<String>,
}

/// An action in mathematical terms.
pub enum FileActionView {
    MakeDir(Seq<char>),
    RemoveDir(Seq<char>),
    MakePrivate(Seq<char>),
    Write(Seq<char>, Seq<char>),
}

/// A step in mathematical terms.
pub struct FileStepView {
    pub action: FileActionView,
    pub error: Option<Seq<char>>,
}

impl View for FileAction {
    type V = FileActionView;

    open spec fn view(&self) -> FileActionView {
        match self {
            FileAction::MakeDir(path) => FileActionView::MakeDir(path@),
            FileAction::RemoveDir(path) => FileActionView::RemoveDir(path@),
            FileAction::MakePrivate(path) => FileActionView::MakePrivate(path@),
            FileAction::Write(path, content) => FileActionView::Write(path@, content@),
        }
    }
}

impl View for FileStep {
    type V = FileStepView;

    open spec fn view(&self) -> FileStepView {
        FileStepView { action: self.action@, error: opt_text(self.error) }
    }
}

/// The steps of a list in mathematical terms.
pub open spec fn steps_view(v: Seq<FileStep>) -> Seq<FileStepView> {
    v.map_values(|s: FileStep| s@)
}

/// A step that may fail.
pub open spec fn tried(action: FileActionView) -> FileStepView {
    FileStepView { action, error: None }
}

/// A step that must not fail.
pub open spec fn required(action: FileActionView, error: Seq<char>) -> FileStepView {
    FileStepView { action, error: Some(error) }
}

fn add_step(steps: &mut Vec<FileStep>, action: FileAction, error: Option<String>)
    ensures
        steps_view(final(steps)@) == steps_view(old(steps)@).push(
            FileStepView { action: action@, error: opt_text(error) },
        ),
{
    let step = FileStep { action, error };
    steps.push(step);
    assert(steps_view(steps@) =~= steps_view(old(steps)@).push(step@));
}

fn add_dir(steps: &mut Vec<FileStep>, path: &str)
    ensures
        steps_view(final(steps)@) == steps_view(old(steps)@).push(
            tried(FileActionView::MakeDir(path@)),
        ),
{
    add_step(steps, FileAction::MakeDir(path.to_owned()), None);
}

/// The path of `name` in a directory.
pub open spec fn within(dir: Seq<char>, name: Seq<char>) -> Seq<char> {
    dir + "/"@ + name
}

fn join(dir: &str, name: &str) -> (r: String)
    ensures
        r@ == within(dir@, name@),
{
    dir.to_owned().concat("/").concat(name)
}

fn add_file(steps: &mut Vec<FileStep>, dir: &str, name: &str, content: &str)
    ensures
        steps_view(final(steps)@) == steps_view(old(steps)@).push(
            tried(FileActionView::Write(within(dir@, name@), content@)),
        ),
{
    add_step(steps, FileAction::Write(join(dir, name), content.to_owned()), None);
}

// ---------------------------------------------------------------------------
// The files
// ---------------------------------------------------------------------------

/// Window manager: no compositor, no zoom, no transparency, and the theme.
pub const XFWM4_XML: &'static str =
    r#"<?xml version="1.0" encoding="UTF-8"?>
<channel name="xfwm4" version="1.0">
  <property name="general" type="empty">
    <property name="use_compositing" type="bool" value="false"/>
    <property name="zoom_desktop" type="bool" value="false"/>
    <property name="popup_opacity" type="int" value="100"/>
    <property name="move_opacity" type="int" value="100"/>
    <property name="resize_opacity" type="int" value="100"/>
    <property name="theme" type="string" value="Arc-Dark"/>
  </property>
</channel>
"#;

/// Toolkit: no animations, no menu delays, no blinking cursor, and the themes.
pub const XSETTINGS_XML: &'static str =
    r#"<?xml version="1.0" encoding="UTF-8"?>
<channel name="xsettings" version="1.0">
  <property name="Gtk" type="empty">
    <property name="MenuPopupDelay" type="int" value="0"/>
    <property name="MenuPopdownDelay" type="int" value="0"/>
    <property name="CursorBlink" type="bool" value="false"/>
  </property>
  <property name="Net" type="empty">
    <property name="EnableAnimations" type="bool" value="false"/>
    <property name="ThemeName" type="string" value="Arc-Dark"/>
    <property name="IconThemeName" type="string" value="Papirus-Dark"/>
  </property>
</channel>
"#;

/// Session: no splash screen.
pub const SESSION_XML: &'static str =
    r#"<?xml version="1.0" encoding="UTF-8"?>
<channel name="xfce4-session" version="1.0">
  <property name="splash" type="empty">
    <property name="Engine" type="string" value=""/>
  </property>
</channel>
"#;

/// Panel: all up to the name of the menu.
pub const PANEL_BEFORE_MENU: &'static str =
    r#"<?xml version="1.0" encoding="UTF-8"?>
<channel name="xfce4-panel" version="1.0">
  <property name="panels" type="array">
    <value type="int" value="1"/>
    <property name="panel-1" type="empty">
      <property name="plugin-ids" type="array">
        <value type="int" value="1"/>
        <value type="int" value="2"/>
        <value type="int" value="3"/>
        <value type="int" value="4"/>
        <value type="int" value="5"/>
        <value type="int" value="6"/>
      </property>
      <property name="position" type="string" value="p=6;x=0;y=0"/>
      <property name="position-locked" type="bool" value="true"/>
      <property name="size" type="uint" value="28"/>
    </property>
  </property>
  <property name="plugins" type="empty">
    <property name="plugin-1" type="string" value=""#;

/// Panel: the rest.
pub const PANEL_END: &'static str =
    r#""/>
    <property name="plugin-2" type="string" value="tasklist"/>
    <property name="plugin-3" type="string" value="separator">
      <property name="expand" type="bool" value="true"/>
      <property name="style" type="uint" value="0"/>
    </property>
    <property name="plugin-4" type="string" value="systray"/>
    <property name="plugin-5" type="string" value="clock"/>
    <property name="plugin-6" type="string" value="actions"/>
  </property>
</channel>
"#;

/// Desktop: the wallpaper.
pub const DESKTOP_XML: &'static str =
    r#"<?xml version="1.0" encoding="UTF-8"?>
<channel name="xfce4-desktop" version="1.0">
  <property name="backdrop" type="empty">
    <property name="screen0" type="empty">
      <property name="monitorDUMMY0" type="empty">
        <property name="workspace0" type="empty">
          <property name="last-image" type="string" value="/usr/share/backgrounds/xfce/xfce-shapes.svg"/>
          <property name="image-style" type="int" value="5"/>
          <property name="color-style" type="int" value="0"/>
        </property>
      </property>
    </property>
  </property>
</channel>
"#;

/// Shortcuts: the application finder on Alt+F2.
pub const SHORTCUTS_XML: &'static str =
    r#"<?xml version="1.0" encoding="UTF-8"?>
<channel name="xfce4-keyboard-shortcuts" version="1.0">
  <property name="commands" type="empty">
    <property name="custom" type="empty">
      <property name="&lt;Alt&gt;F2" type="string" value="xfce4-appfinder --collapsed"/>
    </property>
  </property>
</channel>
"#;

/// Toolkit settings of applications: no animations, no menu delays, no blinking cursor.
pub const GTK_SETTINGS: &'static str =
    "[Settings]\ngtk-enable-animations=false\ngtk-menu-popup-delay=0\ngtk-menu-popdown-delay=0\ngtk-cursor-blink=false\n";

/// Style sheet of applications: no transitions at all.
pub const GTK_CSS: &'static str =
    "* { transition-duration: 0s !important; animation-duration: 0s !important; }\n";

/// An entry that keeps a program from being started with the session.
pub const MASK_ENTRY: &'static str = "[Desktop Entry]\nHidden=true\n";

/// The menu of the panel: the searchable one where it is installed.
pub open spec fn panel_menu(whisker: bool) -> Seq<char> {
    if whisker {
        "whiskermenu"@
    } else {
        "applicationsmenu"@
    }
}

/// The name under which the desktop knows a browser.
pub open spec fn helper_id(browser: Seq<char>) -> Seq<char> {
    if browser == "google-chrome-stable"@ || browser == "google-chrome"@ {
        "google-chrome"@
    } else if browser == "chromium-browser"@ || browser == "chromium"@ {
        "chromium"@
    } else if browser == "epiphany-browser"@ {
        "epiphany"@
    } else {
        browser
    }
}

/// The desktop file of a browser that is known.
pub open spec fn desktop_file(browser: Seq<char>) -> Option<Seq<char>> {
    if browser == "firefox-esr"@ {
        Some("firefox-esr.desktop"@)
    } else if browser == "firefox"@ {
        Some("firefox.desktop"@)
    } else if browser == "google-chrome-stable"@ || browser == "google-chrome"@ {
        Some("google-chrome.desktop"@)
    } else if browser == "chromium-browser"@ || browser == "chromium"@ {
        Some("chromium-browser.desktop"@)
    } else if browser == "epiphany-browser"@ {
        Some("org.gnome.Epiphany.desktop"@)
    } else {
        None
    }
}

/// The desktop's own choice of applications.
pub open spec fn helpers_rc(browser: Option<Seq<char>>, terminal: Option<Seq<char>>) -> Seq<char> {
    let a = "[Default]\n"@;
    let b = match terminal {
        Some(t) => a + "TerminalEmulator="@ + t + "\n"@,
        None => a,
    };
    match browser {
        Some(w) => b + "WebBrowser="@ + helper_id(w) + "\n"@,
        None => b,
    }
}

/// The applications for web pages.
pub open spec fn mime_apps(d: Seq<char>) -> Seq<char> {
    "[Default Applications]\nx-scheme-handler/http="@ + d + "\nx-scheme-handler/https="@ + d
        + "\ntext/html="@ + d + "\napplication/xhtml+xml="@ + d + "\n"@
}

/// `steps` with the masks of the programs that fail or are of no use in a session.
pub open spec fn with_masks(steps: Seq<FileStepView>, dir: Seq<char>) -> Seq<FileStepView> {
    steps
        .push(tried(FileActionView::Write(within(dir, "update-notifier.desktop"@), MASK_ENTRY@)))
        .push(tried(FileActionView::Write(within(dir, "polkit-gnome-authentication-agent-1.desktop"@), MASK_ENTRY@)))
        .push(tried(FileActionView::Write(within(dir, "pulseaudio.desktop"@), MASK_ENTRY@)))
        .push(tried(FileActionView::Write(within(dir, "tracker-miner-fs-3.desktop"@), MASK_ENTRY@)))
        .push(tried(FileActionView::Write(within(dir, "snap-userd-autostart.desktop"@), MASK_ENTRY@)))
        .push(tried(FileActionView::Write(within(dir, "spice-vdagent.desktop"@), MASK_ENTRY@)))
        .push(tried(FileActionView::Write(within(dir, "ubuntu-advantage-notification.desktop"@), MASK_ENTRY@)))
        .push(tried(FileActionView::Write(within(dir, "ubuntu-report-on-upgrade.desktop"@), MASK_ENTRY@)))
        .push(tried(FileActionView::Write(within(dir, "gnome-initial-setup-copy-worker.desktop"@), MASK_ENTRY@)))
        .push(tried(FileActionView::Write(within(dir, "gnome-initial-setup-first-login.desktop"@), MASK_ENTRY@)))
        .push(tried(FileActionView::Write(within(dir, "org.gnome.DejaDup.Monitor.desktop"@), MASK_ENTRY@)))
        .push(tried(FileActionView::Write(within(dir, "org.gnome.Evolution-alarm-notify.desktop"@), MASK_ENTRY@)))
}

/// `steps` with the files of the desktop in `dir`.
pub open spec fn with_desktop_files(steps: Seq<FileStepView>, dir: Seq<char>, whisker: bool) -> Seq<
    FileStepView,
> {
    steps
        .push(tried(FileActionView::MakeDir(dir)))
        .push(tried(FileActionView::Write(within(dir, "xfwm4.xml"@), XFWM4_XML@)))
        .push(tried(FileActionView::Write(within(dir, "xsettings.xml"@), XSETTINGS_XML@)))
        .push(tried(FileActionView::Write(within(dir, "xfce4-session.xml"@), SESSION_XML@)))
        .push(tried(FileActionView::Write(
            within(dir, "xfce4-panel.xml"@),
            PANEL_BEFORE_MENU@ + panel_menu(whisker) + PANEL_END@,
        )))
        .push(tried(FileActionView::Write(within(dir, "xfce4-desktop.xml"@), DESKTOP_XML@)))
        .push(tried(FileActionView::Write(
            within(dir, "xfce4-keyboard-shortcuts.xml"@),
            SHORTCUTS_XML@,
        )))
}

/// `steps` with the files of all that a desktop starts with: its own, those of its applications,
/// the masks, and the default applications.
pub open spec fn with_seed(
    steps: Seq<FileStepView>,
    config_dir: Seq<char>,
    whisker: bool,
    browser: Option<Seq<char>>,
    terminal: Option<Seq<char>>,
) -> Seq<FileStepView> {
    let xfconf = within(config_dir, "xfce4/xfconf/xfce-perchannel-xml"@);
    let gtk = within(config_dir, "gtk-3.0"@);
    let autostart = within(config_dir, "autostart"@);
    let helpers = within(config_dir, "xfce4"@);
    let a = with_desktop_files(steps, xfconf, whisker);
    let b = a
        .push(tried(FileActionView::MakeDir(gtk)))
        .push(tried(FileActionView::Write(within(gtk, "settings.ini"@), GTK_SETTINGS@)))
        .push(tried(FileActionView::Write(within(gtk, "gtk.css"@), GTK_CSS@)));
    let c = with_masks(b.push(tried(FileActionView::MakeDir(autostart))), autostart);
    let d = c
        .push(tried(FileActionView::MakeDir(helpers)))
        .push(tried(FileActionView::Write(
            within(helpers, "helpers.rc"@),
            helpers_rc(browser, terminal),
        )));
    match browser {
        Some(w) => match desktop_file(w) {
            Some(f) => d.push(
                tried(FileActionView::Write(within(config_dir, "mimeapps.list"@), mime_apps(f))),
            ),
            None => d,
        },
        None => d,
    }
}

fn helper_name(browser: &str) -> (r: String)
    ensures
        r@ == helper_id(browser@),
{
    if text_eq(browser, "google-chrome-stable") || text_eq(browser, "google-chrome") {
        "google-chrome".to_owned()
    } else if text_eq(browser, "chromium-browser") || text_eq(browser, "chromium") {
        "chromium".to_owned()
    } else if text_eq(browser, "epiphany-browser") {
        "epiphany".to_owned()
    } else {
        browser.to_owned()
    }
}

fn desktop_file_name(browser: &str) -> (r: Option<&'static str>)
    ensures
        opt_view(r) == desktop_file(browser@),
{
    if text_eq(browser, "firefox-esr") {
        Some("firefox-esr.desktop")
    } else if text_eq(browser, "firefox") {
        Some("firefox.desktop")
    } else if text_eq(browser, "google-chrome-stable") || text_eq(browser, "google-chrome") {
        Some("google-chrome.desktop")
    } else if text_eq(browser, "chromium-browser") || text_eq(browser, "chromium") {
        Some("chromium-browser.desktop")
    } else if text_eq(browser, "epiphany-browser") {
        Some("org.gnome.Epiphany.desktop")
    } else {
        None
    }
}

fn helpers_text(browser: Option<&str>, terminal: Option<&str>) -> (r: String)
    ensures
        r@ == helpers_rc(opt_view(browser), opt_view(terminal)),
{
    let mut r = "[Default]\n".to_owned();
    match terminal {
        Some(t) => {
            r = r.concat("TerminalEmulator=").concat(t).concat("\n");
        },
        None => {},
    }
    match browser {
        Some(w) => {
            r = r.concat("WebBrowser=").concat(helper_name(w).as_str()).concat("\n");
        },
        None => {},
    }
    r
}

fn add_desktop_files(steps: &mut Vec<FileStep>, dir: &str, whisker: bool)
    ensures
        steps_view(final(steps)@) == with_desktop_files(steps_view(old(steps)@), dir@, whisker),
{
    let menu: &str = if whisker {
        "whiskermenu"
    } else {
        "applicationsmenu"
    };
    let panel = PANEL_BEFORE_MENU.to_owned().concat(menu).concat(PANEL_END);
    add_dir(steps, dir);
    add_file(steps, dir, "xfwm4.xml", XFWM4_XML);
    add_file(steps, dir, "xsettings.xml", XSETTINGS_XML);
    add_file(steps, dir, "xfce4-session.xml", SESSION_XML);
    add_file(steps, dir, "xfce4-panel.xml", panel.as_str());
    add_file(steps, dir, "xfce4-desktop.xml", DESKTOP_XML);
    add_file(steps, dir, "xfce4-keyboard-shortcuts.xml", SHORTCUTS_XML);
}

fn add_masks(steps: &mut Vec<FileStep>, dir: &str)
    ensures
        steps_view(final(steps)@) == with_masks(steps_view(old(steps)@), dir@),
{
    add_file(steps, dir, "update-notifier.desktop", MASK_ENTRY);
    add_file(steps, dir, "polkit-gnome-authentication-agent-1.desktop", MASK_ENTRY);
    add_file(steps, dir, "pulseaudio.desktop", MASK_ENTRY);
    add_file(steps, dir, "tracker-miner-fs-3.desktop", MASK_ENTRY);
    add_file(steps, dir, "snap-userd-autostart.desktop", MASK_ENTRY);
    add_file(steps, dir, "spice-vdagent.desktop", MASK_ENTRY);
    add_file(steps, dir, "ubuntu-advantage-notification.desktop", MASK_ENTRY);
    add_file(steps, dir, "ubuntu-report-on-upgrade.desktop", MASK_ENTRY);
    add_file(steps, dir, "gnome-initial-setup-copy-worker.desktop", MASK_ENTRY);
    add_file(steps, dir, "gnome-initial-setup-first-login.desktop", MASK_ENTRY);
    add_file(steps, dir, "org.gnome.DejaDup.Monitor.desktop", MASK_ENTRY);
    add_file(steps, dir, "org.gnome.Evolution-alarm-notify.desktop", MASK_ENTRY);
}

fn add_seed(
    steps: &mut Vec<FileStep>,
    config_dir: &str,
    whisker: bool,
    browser: Option<&str>,
    terminal: Option<&str>,
)
    ensures
        steps_view(final(steps)@) == with_seed(
            steps_view(old(steps)@),
            config_dir@,
            whisker,
            opt_view(browser),
            opt_view(terminal),
        ),
{
    let xfconf = join(config_dir, "xfce4/xfconf/xfce-perchannel-xml");
    add_desktop_files(steps, xfconf.as_str(), whisker);
    let gtk = join(config_dir, "gtk-3.0");
    add_dir(steps, gtk.as_str());
    add_file(steps, gtk.as_str(), "settings.ini", GTK_SETTINGS);
    add_file(steps, gtk.as_str(), "gtk.css", GTK_CSS);
    let autostart = join(config_dir, "autostart");
    add_dir(steps, autostart.as_str());
    add_masks(steps, autostart.as_str());
    let helpers = join(config_dir, "xfce4");
    add_dir(steps, helpers.as_str());
    add_file(
        steps,
        helpers.as_str(),
        "helpers.rc",
        helpers_text(browser, terminal).as_str(),
    );
    match browser {
        Some(w) => match desktop_file_name(w) {
            Some(f) => {
                let content = "[Default Applications]\nx-scheme-handler/http=".to_owned().concat(
                    f,
                ).concat("\nx-scheme-handler/https=").concat(f).concat("\ntext/html=").concat(
                    f,
                ).concat("\napplication/xhtml+xml=").concat(f).concat("\n");
                add_file(steps, config_dir, "mimeapps.list", content.as_str());
            },
            None => {},
        },
        None => {},
    }
}

/// The steps that give a configuration directory all that a desktop starts with. `whisker` says
/// whether the searchable menu is installed; `browser` and `terminal` are the applications that
/// were found.
pub fn seed_default_config(
    config_dir: &str,
    whisker: bool,
    browser: Option<&str>,
    terminal: Option<&str>,
) -> (r: Vec<FileStep>)
    ensures
        steps_view(r@) == with_seed(
            Seq::empty(),
            config_dir@,
            whisker,
            opt_view(browser),
            opt_view(terminal),
        ),
{
    let mut steps: Vec<FileStep> = Vec::new();
    assert(steps_view(steps@) =~= Seq::<FileStepView>::empty());
    add_seed(&mut steps, config_dir, whisker, browser, terminal);
    steps
}

// ---------------------------------------------------------------------------
// Where the files go
// ---------------------------------------------------------------------------

/// How a session comes by its configuration directory.
pub struct ConfigSetup {
    pub config_dir: String,
    /// Whether the desktop starts for the first time in this directory.
    pub first_session: bool,
    /// What is to be done before.
    pub steps: Vec<FileStep>,
}

/// Where a user's desktop data is kept.
pub open spec fn beam_dir_of(home: Seq<char>) -> Seq<char> {
    home + "/.local/share/beam"@
}

/// The file that says that a user's configuration was set up.
pub open spec fn sentinel_of(home: Seq<char>) -> Seq<char> {
    beam_dir_of(home) + "/.initialized"@
}

/// The file that says that a user's configuration was set up.
pub fn sentinel(home: &str) -> (r: String)
    ensures
        r@ == sentinel_of(home@),
{
    home.to_owned().concat("/.local/share/beam").concat("/.initialized")
}

/// The steps that set up a user's configuration. The sentinel is written last.
pub open spec fn persistent_steps(
    home: Seq<char>,
    whisker: bool,
    browser: Option<Seq<char>>,
    terminal: Option<Seq<char>>,
) -> Seq<FileStepView> {
    let dir = beam_dir_of(home) + "/config"@;
    let a = Seq::<FileStepView>::empty()
        .push(required(FileActionView::MakeDir(dir), "Failed to create "@ + dir))
        .push(required(FileActionView::MakePrivate(dir), "Failed to set permissions on "@ + dir));
    with_seed(a, dir, whisker, browser, terminal)
        .push(tried(FileActionView::Write(beam_dir_of(home) + "/.config-version"@, "1"@)))
        .push(required(
            FileActionView::Write(sentinel_of(home), ""@),
            "Failed to write initialization sentinel"@,
        ))
}

/// The steps that set up a configuration for one session alone.
pub open spec fn ephemeral_steps(
    dir: Seq<char>,
    whisker: bool,
    browser: Option<Seq<char>>,
    terminal: Option<Seq<char>>,
) -> Seq<FileStepView> {
    let a = Seq::<FileStepView>::empty()
        .push(tried(FileActionView::RemoveDir(dir)))
        .push(tried(FileActionView::MakeDir(dir)))
        .push(tried(FileActionView::MakePrivate(dir)));
    with_seed(a, dir, whisker, browser, terminal)
}

/// How a session comes by a user's own configuration, which outlives it. Where the sentinel
/// exists, nothing is to be done, and nothing that the user has changed is touched.
pub fn try_persistent_config_in(
    home: &str,
    sentinel_exists: bool,
    whisker: bool,
    browser: Option<&str>,
    terminal: Option<&str>,
) -> (r: ConfigSetup)
    ensures
        r.config_dir@ == beam_dir_of(home@) + "/config"@,
        r.first_session == !sentinel_exists,
        steps_view(r.steps@) == if sentinel_exists {
            Seq::empty()
        } else {
            persistent_steps(home@, whisker, opt_view(browser), opt_view(terminal))
        },
{
    let beam_dir = home.to_owned().concat("/.local/share/beam");
    let config_dir = beam_dir.clone().concat("/config");
    let mut steps: Vec<FileStep> = Vec::new();
    assert(steps_view(steps@) =~= Seq::<FileStepView>::empty());
    if sentinel_exists {
        return ConfigSetup { config_dir, first_session: false, steps };
    }
    add_step(
        &mut steps,
        FileAction::MakeDir(config_dir.clone()),
        Some("Failed to create ".to_owned().concat(config_dir.as_str())),
    );
    add_step(
        &mut steps,
        FileAction::MakePrivate(config_dir.clone()),
        Some("Failed to set permissions on ".to_owned().concat(config_dir.as_str())),
    );
    add_seed(&mut steps, config_dir.as_str(), whisker, browser, terminal);
    add_step(
        &mut steps,
        FileAction::Write(beam_dir.concat("/.config-version"), "1".to_owned()),
        None,
    );
    add_step(
        &mut steps,
        FileAction::Write(sentinel(home), "".to_owned()),
        Some("Failed to write initialization sentinel".to_owned()),
    );
    ConfigSetup { config_dir, first_session: true, steps }
}

/// Where the configuration of one session alone lies.
pub open spec fn ephemeral_dir_of(display_num: u32) -> Seq<char> {
    "/tmp/beam-xfce-"@ + decimal(display_num as nat)
}

/// How a session comes by a configuration of its own, where the user's is not to be had.
pub fn ephemeral_config(
    display_num: u32,
    whisker: bool,
    browser: Option<&str>,
    terminal: Option<&str>,
) -> (r: ConfigSetup)
    ensures
        r.config_dir@ == ephemeral_dir_of(display_num),
        r.first_session,
        steps_view(r.steps@) == ephemeral_steps(
            ephemeral_dir_of(display_num),
            whisker,
            opt_view(browser),
            opt_view(terminal),
        ),
{
    let dir = "/tmp/beam-xfce-".to_owned().concat(decimal_u32(display_num).as_str());
    let mut steps: Vec<FileStep> = Vec::new();
    assert(steps_view(steps@) =~= Seq::<FileStepView>::empty());
    add_step(&mut steps, FileAction::RemoveDir(dir.clone()), None);
    add_dir(&mut steps, dir.as_str());
    add_step(&mut steps, FileAction::MakePrivate(dir.clone()), None);
    add_seed(&mut steps, dir.as_str(), whisker, browser, terminal);
    ConfigSetup { config_dir: dir, first_session: true, steps }
}

// ---------------------------------------------------------------------------
// Laws
// ---------------------------------------------------------------------------

/// Whether an action touches nothing but what is at or below `dir`.
pub open spec fn stays_in(a: FileActionView, dir: Seq<char>) -> bool {
    match a {
        FileActionView::MakeDir(path) => begins(path, dir),
        FileActionView::RemoveDir(path) => begins(path, dir),
        FileActionView::MakePrivate(path) => begins(path, dir),
        FileActionView::Write(path, _) => begins(path, dir),
    }
}

/// Whether an action writes the file at `path`.
pub open spec fn writes(a: FileActionView, path: Seq<char>) -> bool {
    a matches FileActionView::Write(p, _) && p == path
}

/// Whether all steps touch nothing but what is at or below `dir`.
pub open spec fn all_stay_in(steps: Seq<FileStepView>, dir: Seq<char>) -> bool {
    forall|i: int| 0 <= i < steps.len() ==> stays_in((#[trigger] steps[i]).action, dir)
}

proof fn lemma_within(dir: Seq<char>, sub: Seq<char>, name: Seq<char>)
    requires
        begins(sub, dir),
    ensures
        begins(within(sub, name), dir),
        begins(sub + name, dir),
{
    assert(within(sub, name).subrange(0, dir.len() as int) =~= sub.subrange(0, dir.len() as int));
    assert((sub + name).subrange(0, dir.len() as int) =~= sub.subrange(0, dir.len() as int));
}

proof fn lemma_masks_stay(steps: Seq<FileStepView>, dir: Seq<char>, auto: Seq<char>)
    requires
        all_stay_in(steps, dir),
        begins(auto, dir),
    ensures
        all_stay_in(with_masks(steps, auto), dir),
{
    lemma_within(dir, auto, "update-notifier.desktop"@);
    lemma_within(dir, auto, "polkit-gnome-authentication-agent-1.desktop"@);
    lemma_within(dir, auto, "pulseaudio.desktop"@);
    lemma_within(dir, auto, "tracker-miner-fs-3.desktop"@);
    lemma_within(dir, auto, "snap-userd-autostart.desktop"@);
    lemma_within(dir, auto, "spice-vdagent.desktop"@);
    lemma_within(dir, auto, "ubuntu-advantage-notification.desktop"@);
    lemma_within(dir, auto, "ubuntu-report-on-upgrade.desktop"@);
    lemma_within(dir, auto, "gnome-initial-setup-copy-worker.desktop"@);
    lemma_within(dir, auto, "gnome-initial-setup-first-login.desktop"@);
    lemma_within(dir, auto, "org.gnome.DejaDup.Monitor.desktop"@);
    lemma_within(dir, auto, "org.gnome.Evolution-alarm-notify.desktop"@);
}

proof fn lemma_desktop_files_stay(
    steps: Seq<FileStepView>,
    dir: Seq<char>,
    xfconf: Seq<char>,
    whisker: bool,
)
    requires
        all_stay_in(steps, dir),
        begins(xfconf, dir),
    ensures
        all_stay_in(with_desktop_files(steps, xfconf, whisker), dir),
{
    lemma_within(dir, xfconf, "xfwm4.xml"@);
    lemma_within(dir, xfconf, "xsettings.xml"@);
    lemma_within(dir, xfconf, "xfce4-session.xml"@);
    lemma_within(dir, xfconf, "xfce4-panel.xml"@);
    lemma_within(dir, xfconf, "xfce4-desktop.xml"@);
    lemma_within(dir, xfconf, "xfce4-keyboard-shortcuts.xml"@);
}

/// Seeding a configuration directory touches nothing outside of it.
pub proof fn seeding_stays_in_the_directory(
    steps: Seq<FileStepView>,
    dir: Seq<char>,
    whisker: bool,
    browser: Option<Seq<char>>,
    terminal: Option<Seq<char>>,
)
    requires
        all_stay_in(steps, dir),
    ensures
        all_stay_in(with_seed(steps, dir, whisker, browser, terminal), dir),
{
    assert(dir.subrange(0, dir.len() as int) =~= dir);
    let xfconf = within(dir, "xfce4/xfconf/xfce-perchannel-xml"@);
    let gtk = within(dir, "gtk-3.0"@);
    let autostart = within(dir, "autostart"@);
    let helpers = within(dir, "xfce4"@);
    lemma_within(dir, dir, "xfce4/xfconf/xfce-perchannel-xml"@);
    lemma_within(dir, dir, "gtk-3.0"@);
    lemma_within(dir, dir, "autostart"@);
    lemma_within(dir, dir, "xfce4"@);
    lemma_within(dir, dir, "mimeapps.list"@);
    lemma_within(dir, gtk, "settings.ini"@);
    lemma_within(dir, gtk, "gtk.css"@);
    lemma_within(dir, helpers, "helpers.rc"@);
    lemma_desktop_files_stay(steps, dir, xfconf, whisker);
    let a = with_desktop_files(steps, xfconf, whisker);
    let b = a
        .push(tried(FileActionView::MakeDir(gtk)))
        .push(tried(FileActionView::Write(within(gtk, "settings.ini"@), GTK_SETTINGS@)))
        .push(tried(FileActionView::Write(within(gtk, "gtk.css"@), GTK_CSS@)))
        .push(tried(FileActionView::MakeDir(autostart)));
    assert(all_stay_in(b, dir));
    lemma_masks_stay(b, dir, autostart);
}

/// Setting up a user's configuration ends with the sentinel, writes it nowhere else, and touches
/// nothing outside of the user's desktop data: where a step before fails, the setup is done again
/// the next time.
pub proof fn the_sentinel_comes_last(
    home: Seq<char>,
    whisker: bool,
    browser: Option<Seq<char>>,
    terminal: Option<Seq<char>>,
)
    ensures
        ({
            let steps = persistent_steps(home, whisker, browser, terminal);
            &&& steps.len() > 0
            &&& steps.last().action == FileActionView::Write(sentinel_of(home), ""@)
            &&& steps.last().error is Some
            &&& forall|i: int|
                0 <= i < steps.len() - 1 ==> !writes((#[trigger] steps[i]).action, sentinel_of(home))
            &&& all_stay_in(steps, beam_dir_of(home))
        }),
{
    let beam = beam_dir_of(home);
    let dir = beam + "/config"@;
    assert(beam.subrange(0, beam.len() as int) =~= beam);
    lemma_within(beam, beam, "/config"@);
    lemma_within(beam, beam, "/.config-version"@);
    lemma_within(beam, beam, "/.initialized"@);
    let a = Seq::<FileStepView>::empty()
        .push(required(FileActionView::MakeDir(dir), "Failed to create "@ + dir))
        .push(required(FileActionView::MakePrivate(dir), "Failed to set permissions on "@ + dir));
    assert(dir.subrange(0, dir.len() as int) =~= dir);
    assert(all_stay_in(a, dir));
    seeding_stays_in_the_directory(a, dir, whisker, browser, terminal);
    let seeded = with_seed(a, dir, whisker, browser, terminal);
    assert forall|i: int| 0 <= i < seeded.len() implies stays_in((#[trigger] seeded[i]).action, beam)
        && !writes(seeded[i].action, sentinel_of(home)) by {
        lemma_deeper(seeded[i].action, dir, beam);
        lemma_not_the_sentinel(seeded[i].action, home);
    }
    reveal_strlit("/.config-version");
    reveal_strlit("/.initialized");
    let n = beam.len() as int;
    assert((beam + "/.config-version"@)[n + 2] == 'c');
    assert(sentinel_of(home)[n + 2] == 'i');
}

proof fn lemma_not_the_sentinel(a: FileActionView, home: Seq<char>)
    requires
        stays_in(a, beam_dir_of(home) + "/config"@),
    ensures
        !writes(a, sentinel_of(home)),
{
    reveal_strlit("/config");
    reveal_strlit("/.initialized");
    let dir = beam_dir_of(home) + "/config"@;
    let n = beam_dir_of(home).len() as int;
    if let FileActionView::Write(path, _) = a {
        assert(path.subrange(0, dir.len() as int)[n + 1] == path[n + 1]);
        assert(dir[n + 1] == 'c');
        assert(sentinel_of(home)[n + 1] == '.');
    }
}

proof fn lemma_deeper(a: FileActionView, dir: Seq<char>, above: Seq<char>)
    requires
        stays_in(a, dir),
        begins(dir, above),
    ensures
        stays_in(a, above),
{
    let path = match a {
        FileActionView::MakeDir(p) => p,
        FileActionView::RemoveDir(p) => p,
        FileActionView::MakePrivate(p) => p,
        FileActionView::Write(p, _) => p,
    };
    let n = above.len() as int;
    assert(path.subrange(0, n) =~= path.subrange(0, dir.len() as int).subrange(0, n));
}

/// A user's configuration is set up exactly once: where the sentinel exists nothing is done, and the
/// session is not the first. Else the directory is made and closed, what the desktop needs is put
/// into it, and the sentinel is written, all in the user's own place.
pub proof fn configurations_are_set_up_once(
    home: &str,
    known: bool,
    whisker: bool,
    browser: Option<&str>,
    terminal: Option<&str>,
    r: ConfigSetup,
    s: String,
)
    requires
        call_ensures(try_persistent_config_in, (home, known, whisker, browser, terminal), r),
        call_ensures(sentinel, (home,), s),
    ensures
        r.config_dir@ == home@ + "/.local/share/beam"@ + "/config"@,
        s@ == home@ + "/.local/share/beam"@ + "/.initialized"@,
        r.first_session <==> !known,
        known ==> r.steps@.len() == 0,
        !known ==> {
            let t = steps_view(r.steps@);
            &&& t.len() > 2
            &&& t.last().action == FileActionView::Write(s@, ""@)
            &&& t.last().error is Some
        },
        !known ==> all_stay_in(steps_view(r.steps@), home@ + "/.local/share/beam"@),
{
    the_sentinel_comes_last(home@, whisker, opt_view(browser), opt_view(terminal));
    if known {
        assert(steps_view(r.steps@).len() == r.steps@.len());
    } else {
        lemma_persistent_length(home@, whisker, opt_view(browser), opt_view(terminal));
    }
}

proof fn lemma_persistent_length(
    home: Seq<char>,
    whisker: bool,
    browser: Option<Seq<char>>,
    terminal: Option<Seq<char>>,
)
    ensures
        persistent_steps(home, whisker, browser, terminal).len() > 2,
{
}

/// The window manager draws without compositing, zoom and transparency, in the dark theme.
pub proof fn windows_are_drawn_without_effects()
    ensures
        holds(XFWM4_XML@, r#"<channel name="xfwm4""#@),
        holds(XFWM4_XML@, r#""use_compositing" type="bool" value="false""#@),
        holds(XFWM4_XML@, r#""zoom_desktop" type="bool" value="false""#@),
        holds(XFWM4_XML@, r#""popup_opacity" type="int" value="100""#@),
        holds(XFWM4_XML@, r#""move_opacity" type="int" value="100""#@),
        holds(XFWM4_XML@, r#""resize_opacity" type="int" value="100""#@),
        holds(XFWM4_XML@, r#""theme" type="string" value="Arc-Dark""#@),
{
    reveal_strlit(r#"<?xml version="1.0" encoding="UTF-8"?>
<channel name="xfwm4" version="1.0">
  <property name="general" type="empty">
    <property name="use_compositing" type="bool" value="false"/>
    <property name="zoom_desktop" type="bool" value="false"/>
    <property name="popup_opacity" type="int" value="100"/>
    <property name="move_opacity" type="int" value="100"/>
    <property name="resize_opacity" type="int" value="100"/>
    <property name="theme" type="string" value="Arc-Dark"/>
  </property>
</channel>
"#);
    reveal_strlit(r#"<channel name="xfwm4""#);
    assert(XFWM4_XML@.subrange(39, 60) =~= r#"<channel name="xfwm4""#@);
    assert(matches_at(XFWM4_XML@, r#"<channel name="xfwm4""#@, 39));
    reveal_strlit(r#""use_compositing" type="bool" value="false""#);
    assert(XFWM4_XML@.subrange(136, 179) =~= r#""use_compositing" type="bool" value="false""#@);
    assert(matches_at(XFWM4_XML@, r#""use_compositing" type="bool" value="false""#@, 136));
    reveal_strlit(r#""zoom_desktop" type="bool" value="false""#);
    assert(XFWM4_XML@.subrange(201, 241) =~= r#""zoom_desktop" type="bool" value="false""#@);
    assert(matches_at(XFWM4_XML@, r#""zoom_desktop" type="bool" value="false""#@, 201));
    reveal_strlit(r#""popup_opacity" type="int" value="100""#);
    assert(XFWM4_XML@.subrange(263, 301) =~= r#""popup_opacity" type="int" value="100""#@);
    assert(matches_at(XFWM4_XML@, r#""popup_opacity" type="int" value="100""#@, 263));
    reveal_strlit(r#""move_opacity" type="int" value="100""#);
    assert(XFWM4_XML@.subrange(323, 360) =~= r#""move_opacity" type="int" value="100""#@);
    assert(matches_at(XFWM4_XML@, r#""move_opacity" type="int" value="100""#@, 323));
    reveal_strlit(r#""resize_opacity" type="int" value="100""#);
    assert(XFWM4_XML@.subrange(382, 421) =~= r#""resize_opacity" type="int" value="100""#@);
    assert(matches_at(XFWM4_XML@, r#""resize_opacity" type="int" value="100""#@, 382));
    reveal_strlit(r#""theme" type="string" value="Arc-Dark""#);
    assert(XFWM4_XML@.subrange(443, 481) =~= r#""theme" type="string" value="Arc-Dark""#@);
    assert(matches_at(XFWM4_XML@, r#""theme" type="string" value="Arc-Dark""#@, 443));
}

/// The toolkit has no animations, no delays and no blinking cursor, and the dark themes.
pub proof fn toolkits_do_without_animations()
    ensures
        holds(XSETTINGS_XML@, r#"<channel name="xsettings""#@),
        holds(XSETTINGS_XML@, r#""MenuPopupDelay" type="int" value="0""#@),
        holds(XSETTINGS_XML@, r#""MenuPopdownDelay" type="int" value="0""#@),
        holds(XSETTINGS_XML@, r#""CursorBlink" type="bool" value="false""#@),
        holds(XSETTINGS_XML@, r#""EnableAnimations" type="bool" value="false""#@),
        holds(XSETTINGS_XML@, r#""ThemeName" type="string" value="Arc-Dark""#@),
        holds(XSETTINGS_XML@, r#""IconThemeName" type="string" value="Papirus-Dark""#@),
{
    reveal_strlit(r#"<?xml version="1.0" encoding="UTF-8"?>
<channel name="xsettings" version="1.0">
  <property name="Gtk" type="empty">
    <property name="MenuPopupDelay" type="int" value="0"/>
    <property name="MenuPopdownDelay" type="int" value="0"/>
    <property name="CursorBlink" type="bool" value="false"/>
  </property>
  <property name="Net" type="empty">
    <property name="EnableAnimations" type="bool" value="false"/>
    <property name="ThemeName" type="string" value="Arc-Dark"/>
    <property name="IconThemeName" type="string" value="Papirus-Dark"/>
  </property>
</channel>
"#);
    reveal_strlit(r#"<channel name="xsettings""#);
    assert(XSETTINGS_XML@.subrange(39, 64) =~= r#"<channel name="xsettings""#@);
    assert(matches_at(XSETTINGS_XML@, r#"<channel name="xsettings""#@, 39));
    reveal_strlit(r#""MenuPopupDelay" type="int" value="0""#);
    assert(XSETTINGS_XML@.subrange(136, 173) =~= r#""MenuPopupDelay" type="int" value="0""#@);
    assert(matches_at(XSETTINGS_XML@, r#""MenuPopupDelay" type="int" value="0""#@, 136));
    reveal_strlit(r#""MenuPopdownDelay" type="int" value="0""#);
    assert(XSETTINGS_XML@.subrange(195, 234) =~= r#""MenuPopdownDelay" type="int" value="0""#@);
    assert(matches_at(XSETTINGS_XML@, r#""MenuPopdownDelay" type="int" value="0""#@, 195));
    reveal_strlit(r#""CursorBlink" type="bool" value="false""#);
    assert(XSETTINGS_XML@.subrange(256, 295) =~= r#""CursorBlink" type="bool" value="false""#@);
    assert(matches_at(XSETTINGS_XML@, r#""CursorBlink" type="bool" value="false""#@, 256));
    reveal_strlit(r#""EnableAnimations" type="bool" value="false""#);
    assert(XSETTINGS_XML@.subrange(368, 412) =~= r#""EnableAnimations" type="bool" value="false""#@);
    assert(matches_at(XSETTINGS_XML@, r#""EnableAnimations" type="bool" value="false""#@, 368));
    reveal_strlit(r#""ThemeName" type="string" value="Arc-Dark""#);
    assert(XSETTINGS_XML@.subrange(434, 476) =~= r#""ThemeName" type="string" value="Arc-Dark""#@);
    assert(matches_at(XSETTINGS_XML@, r#""ThemeName" type="string" value="Arc-Dark""#@, 434));
    reveal_strlit(r#""IconThemeName" type="string" value="Papirus-Dark""#);
    assert(XSETTINGS_XML@.subrange(498, 548) =~= r#""IconThemeName" type="string" value="Papirus-Dark""#@);
    assert(matches_at(XSETTINGS_XML@, r#""IconThemeName" type="string" value="Papirus-Dark""#@, 498));
}

/// The session shows no splash screen.
pub proof fn sessions_have_no_splash()
    ensures
        holds(SESSION_XML@, r#"<channel name="xfce4-session""#@),
        holds(SESSION_XML@, r#""Engine" type="string" value="""#@),
{
    reveal_strlit(r#"<?xml version="1.0" encoding="UTF-8"?>
<channel name="xfce4-session" version="1.0">
  <property name="splash" type="empty">
    <property name="Engine" type="string" value=""/>
  </property>
</channel>
"#);
    reveal_strlit(r#"<channel name="xfce4-session""#);
    assert(SESSION_XML@.subrange(39, 68) =~= r#"<channel name="xfce4-session""#@);
    assert(matches_at(SESSION_XML@, r#"<channel name="xfce4-session""#@, 39));
    reveal_strlit(r#""Engine" type="string" value="""#);
    assert(SESSION_XML@.subrange(143, 174) =~= r#""Engine" type="string" value="""#@);
    assert(matches_at(SESSION_XML@, r#""Engine" type="string" value="""#@, 143));
}

/// The desktop has its background on the output of the dummy driver.
pub proof fn desktops_have_a_background()
    ensures
        holds(DESKTOP_XML@, r#"<channel name="xfce4-desktop""#@),
        holds(DESKTOP_XML@, r#""monitorDUMMY0""#@),
        holds(DESKTOP_XML@, r#""last-image" type="string" value="/usr/share/backgrounds/xfce/xfce-shapes.svg""#@),
        holds(DESKTOP_XML@, r#""image-style" type="int" value="5""#@),
        holds(DESKTOP_XML@, r#""color-style" type="int" value="0""#@),
{
    reveal_strlit(r#"<?xml version="1.0" encoding="UTF-8"?>
<channel name="xfce4-desktop" version="1.0">
  <property name="backdrop" type="empty">
    <property name="screen0" type="empty">
      <property name="monitorDUMMY0" type="empty">
        <property name="workspace0" type="empty">
          <property name="last-image" type="string" value="/usr/share/backgrounds/xfce/xfce-shapes.svg"/>
          <property name="image-style" type="int" value="5"/>
          <property name="color-style" type="int" value="0"/>
        </property>
      </property>
    </property>
  </property>
</channel>
"#);
    reveal_strlit(r#"<channel name="xfce4-desktop""#);
    assert(DESKTOP_XML@.subrange(39, 68) =~= r#"<channel name="xfce4-desktop""#@);
    assert(matches_at(DESKTOP_XML@, r#"<channel name="xfce4-desktop""#@, 39));
    reveal_strlit(r#""monitorDUMMY0""#);
    assert(DESKTOP_XML@.subrange(190, 205) =~= r#""monitorDUMMY0""#@);
    assert(matches_at(DESKTOP_XML@, r#""monitorDUMMY0""#@, 190));
    reveal_strlit(r#""last-image" type="string" value="/usr/share/backgrounds/xfce/xfce-shapes.svg""#);
    assert(DESKTOP_XML@.subrange(295, 373) =~= r#""last-image" type="string" value="/usr/share/backgrounds/xfce/xfce-shapes.svg""#@);
    assert(matches_at(DESKTOP_XML@, r#""last-image" type="string" value="/usr/share/backgrounds/xfce/xfce-shapes.svg""#@, 295));
    reveal_strlit(r#""image-style" type="int" value="5""#);
    assert(DESKTOP_XML@.subrange(401, 435) =~= r#""image-style" type="int" value="5""#@);
    assert(matches_at(DESKTOP_XML@, r#""image-style" type="int" value="5""#@, 401));
    reveal_strlit(r#""color-style" type="int" value="0""#);
    assert(DESKTOP_XML@.subrange(463, 497) =~= r#""color-style" type="int" value="0""#@);
    assert(matches_at(DESKTOP_XML@, r#""color-style" type="int" value="0""#@, 463));
}

/// The application finder is on Alt and F2.
pub proof fn applications_are_found_by_a_key()
    ensures
        holds(SHORTCUTS_XML@, r#"<channel name="xfce4-keyboard-shortcuts""#@),
        holds(SHORTCUTS_XML@, r#""&lt;Alt&gt;F2" type="string" value="xfce4-appfinder --collapsed""#@),
{
    reveal_strlit(r#"<?xml version="1.0" encoding="UTF-8"?>
<channel name="xfce4-keyboard-shortcuts" version="1.0">
  <property name="commands" type="empty">
    <property name="custom" type="empty">
      <property name="&lt;Alt&gt;F2" type="string" value="xfce4-appfinder --collapsed"/>
    </property>
  </property>
</channel>
"#);
    reveal_strlit(r#"<channel name="xfce4-keyboard-shortcuts""#);
    assert(SHORTCUTS_XML@.subrange(39, 79) =~= r#"<channel name="xfce4-keyboard-shortcuts""#@);
    assert(matches_at(SHORTCUTS_XML@, r#"<channel name="xfce4-keyboard-shortcuts""#@, 39));
    reveal_strlit(r#""&lt;Alt&gt;F2" type="string" value="xfce4-appfinder --collapsed""#);
    assert(SHORTCUTS_XML@.subrange(200, 265) =~= r#""&lt;Alt&gt;F2" type="string" value="xfce4-appfinder --collapsed""#@);
    assert(matches_at(SHORTCUTS_XML@, r#""&lt;Alt&gt;F2" type="string" value="xfce4-appfinder --collapsed""#@, 200));
}

/// The panel is locked at the top, and begins with the menu.
pub proof fn panels_are_on_top()
    ensures
        holds(PANEL_BEFORE_MENU@, r#"<channel name="xfce4-panel""#@),
        holds(PANEL_BEFORE_MENU@, r#""position" type="string" value="p=6;x=0;y=0""#@),
        holds(PANEL_BEFORE_MENU@, r#""position-locked" type="bool" value="true""#@),
        holds(PANEL_BEFORE_MENU@, r#""size" type="uint" value="28""#@),
        holds(PANEL_BEFORE_MENU@, r#""plugin-1" type="string" value=""#@),
{
    reveal_strlit(r#"<?xml version="1.0" encoding="UTF-8"?>
<channel name="xfce4-panel" version="1.0">
  <property name="panels" type="array">
    <value type="int" value="1"/>
    <property name="panel-1" type="empty">
      <property name="plugin-ids" type="array">
        <value type="int" value="1"/>
        <value type="int" value="2"/>
        <value type="int" value="3"/>
        <value type="int" value="4"/>
        <value type="int" value="5"/>
        <value type="int" value="6"/>
      </property>
      <property name="position" type="string" value="p=6;x=0;y=0"/>
      <property name="position-locked" type="bool" value="true"/>
      <property name="size" type="uint" value="28"/>
    </property>
  </property>
  <property name="plugins" type="empty">
    <property name="plugin-1" type="string" value=""#);
    reveal_strlit(r#"<channel name="xfce4-panel""#);
    assert(PANEL_BEFORE_MENU@.subrange(39, 66) =~= r#"<channel name="xfce4-panel""#@);
    assert(matches_at(PANEL_BEFORE_MENU@, r#"<channel name="xfce4-panel""#@, 39));
    reveal_strlit(r#""position" type="string" value="p=6;x=0;y=0""#);
    assert(PANEL_BEFORE_MENU@.subrange(514, 558) =~= r#""position" type="string" value="p=6;x=0;y=0""#@);
    assert(matches_at(PANEL_BEFORE_MENU@, r#""position" type="string" value="p=6;x=0;y=0""#@, 514));
    reveal_strlit(r#""position-locked" type="bool" value="true""#);
    assert(PANEL_BEFORE_MENU@.subrange(582, 624) =~= r#""position-locked" type="bool" value="true""#@);
    assert(matches_at(PANEL_BEFORE_MENU@, r#""position-locked" type="bool" value="true""#@, 582));
    reveal_strlit(r#""size" type="uint" value="28""#);
    assert(PANEL_BEFORE_MENU@.subrange(648, 677) =~= r#""size" type="uint" value="28""#@);
    assert(matches_at(PANEL_BEFORE_MENU@, r#""size" type="uint" value="28""#@, 648));
    reveal_strlit(r#""plugin-1" type="string" value=""#);
    assert(PANEL_BEFORE_MENU@.subrange(770, 802) =~= r#""plugin-1" type="string" value=""#@);
    assert(matches_at(PANEL_BEFORE_MENU@, r#""plugin-1" type="string" value=""#@, 770));
}

/// Behind the menu the panel has the windows, a gap, the tray, the clock and the actions.
pub proof fn panels_have_their_plugins()
    ensures
        holds(PANEL_END@, r#""plugin-2" type="string" value="tasklist""#@),
        holds(PANEL_END@, r#""plugin-3" type="string" value="separator""#@),
        holds(PANEL_END@, r#""expand" type="bool" value="true""#@),
        holds(PANEL_END@, r#""plugin-4" type="string" value="systray""#@),
        holds(PANEL_END@, r#""plugin-5" type="string" value="clock""#@),
        holds(PANEL_END@, r#""plugin-6" type="string" value="actions""#@),
{
    reveal_strlit(r#""/>
    <property name="plugin-2" type="string" value="tasklist"/>
    <property name="plugin-3" type="string" value="separator">
      <property name="expand" type="bool" value="true"/>
      <property name="style" type="uint" value="0"/>
    </property>
    <property name="plugin-4" type="string" value="systray"/>
    <property name="plugin-5" type="string" value="clock"/>
    <property name="plugin-6" type="string" value="actions"/>
  </property>
</channel>
"#);
    reveal_strlit(r#""plugin-2" type="string" value="tasklist""#);
    assert(PANEL_END@.subrange(23, 64) =~= r#""plugin-2" type="string" value="tasklist""#@);
    assert(matches_at(PANEL_END@, r#""plugin-2" type="string" value="tasklist""#@, 23));
    reveal_strlit(r#""plugin-3" type="string" value="separator""#);
    assert(PANEL_END@.subrange(86, 128) =~= r#""plugin-3" type="string" value="separator""#@);
    assert(matches_at(PANEL_END@, r#""plugin-3" type="string" value="separator""#@, 86));
    reveal_strlit(r#""expand" type="bool" value="true""#);
    assert(PANEL_END@.subrange(151, 184) =~= r#""expand" type="bool" value="true""#@);
    assert(matches_at(PANEL_END@, r#""expand" type="bool" value="true""#@, 151));
    reveal_strlit(r#""plugin-4" type="string" value="systray""#);
    assert(PANEL_END@.subrange(275, 315) =~= r#""plugin-4" type="string" value="systray""#@);
    assert(matches_at(PANEL_END@, r#""plugin-4" type="string" value="systray""#@, 275));
    reveal_strlit(r#""plugin-5" type="string" value="clock""#);
    assert(PANEL_END@.subrange(337, 375) =~= r#""plugin-5" type="string" value="clock""#@);
    assert(matches_at(PANEL_END@, r#""plugin-5" type="string" value="clock""#@, 337));
    reveal_strlit(r#""plugin-6" type="string" value="actions""#);
    assert(PANEL_END@.subrange(397, 437) =~= r#""plugin-6" type="string" value="actions""#@);
    assert(matches_at(PANEL_END@, r#""plugin-6" type="string" value="actions""#@, 397));
}

/// Applications have no animations, no delays and no transitions, and what is masked is hidden.
pub proof fn applications_do_without_animations()
    ensures
        holds(GTK_SETTINGS@, r#"gtk-enable-animations=false"#@),
        holds(GTK_SETTINGS@, r#"gtk-menu-popup-delay=0"#@),
        holds(GTK_SETTINGS@, r#"gtk-menu-popdown-delay=0"#@),
        holds(GTK_SETTINGS@, r#"gtk-cursor-blink=false"#@),
        holds(GTK_CSS@, r#"transition-duration: 0s !important"#@),
        holds(GTK_CSS@, r#"animation-duration: 0s !important"#@),
        holds(MASK_ENTRY@, r#"[Desktop Entry]"#@),
        holds(MASK_ENTRY@, r#"Hidden=true"#@),
{
    reveal_strlit("[Settings]\ngtk-enable-animations=false\ngtk-menu-popup-delay=0\ngtk-menu-popdown-delay=0\ngtk-cursor-blink=false\n");
    reveal_strlit(r#"gtk-enable-animations=false"#);
    assert(GTK_SETTINGS@.subrange(11, 38) =~= r#"gtk-enable-animations=false"#@);
    assert(matches_at(GTK_SETTINGS@, r#"gtk-enable-animations=false"#@, 11));
    reveal_strlit(r#"gtk-menu-popup-delay=0"#);
    assert(GTK_SETTINGS@.subrange(39, 61) =~= r#"gtk-menu-popup-delay=0"#@);
    assert(matches_at(GTK_SETTINGS@, r#"gtk-menu-popup-delay=0"#@, 39));
    reveal_strlit(r#"gtk-menu-popdown-delay=0"#);
    assert(GTK_SETTINGS@.subrange(62, 86) =~= r#"gtk-menu-popdown-delay=0"#@);
    assert(matches_at(GTK_SETTINGS@, r#"gtk-menu-popdown-delay=0"#@, 62));
    reveal_strlit(r#"gtk-cursor-blink=false"#);
    assert(GTK_SETTINGS@.subrange(87, 109) =~= r#"gtk-cursor-blink=false"#@);
    assert(matches_at(GTK_SETTINGS@, r#"gtk-cursor-blink=false"#@, 87));
    reveal_strlit("* { transition-duration: 0s !important; animation-duration: 0s !important; }\n");
    reveal_strlit(r#"transition-duration: 0s !important"#);
    assert(GTK_CSS@.subrange(4, 38) =~= r#"transition-duration: 0s !important"#@);
    assert(matches_at(GTK_CSS@, r#"transition-duration: 0s !important"#@, 4));
    reveal_strlit(r#"animation-duration: 0s !important"#);
    assert(GTK_CSS@.subrange(40, 73) =~= r#"animation-duration: 0s !important"#@);
    assert(matches_at(GTK_CSS@, r#"animation-duration: 0s !important"#@, 40));
    reveal_strlit("[Desktop Entry]\nHidden=true\n");
    reveal_strlit(r#"[Desktop Entry]"#);
    assert(MASK_ENTRY@.subrange(0, 15) =~= r#"[Desktop Entry]"#@);
    assert(matches_at(MASK_ENTRY@, r#"[Desktop Entry]"#@, 0));
    reveal_strlit(r#"Hidden=true"#);
    assert(MASK_ENTRY@.subrange(16, 27) =~= r#"Hidden=true"#@);
    assert(matches_at(MASK_ENTRY@, r#"Hidden=true"#@, 16));
}

/// Where the desktop finds its files, and what is in them: the channels of its settings, the settings
/// and the style of applications, a mask for each program that is not to start, and the choice of
/// programs.
pub proof fn desktops_find_their_files(
    dir: &str,
    whisker: bool,
    browser: Option<&str>,
    terminal: Option<&str>,
    r: Vec<FileStep>,
)
    requires
        call_ensures(seed_default_config, (dir, whisker, browser, terminal), r),
    ensures
        ({
            let t = steps_view(r@);
            let x = dir@ + "/"@ + "xfce4/xfconf/xfce-perchannel-xml"@;
            let g = dir@ + "/"@ + "gtk-3.0"@;
            let a = dir@ + "/"@ + "autostart"@;
            let h = dir@ + "/"@ + "xfce4"@;
            &&& t[0].action == FileActionView::MakeDir(x)
            &&& t[1].action == FileActionView::Write(x + "/"@ + "xfwm4.xml"@, XFWM4_XML@)
            &&& t[2].action == FileActionView::Write(x + "/"@ + "xsettings.xml"@, XSETTINGS_XML@)
            &&& t[3].action == FileActionView::Write(x + "/"@ + "xfce4-session.xml"@, SESSION_XML@)
            &&& t[4].action == FileActionView::Write(x + "/"@ + "xfce4-panel.xml"@, PANEL_BEFORE_MENU@ + (if whisker { "whiskermenu"@ } else { "applicationsmenu"@ }) + PANEL_END@)
            &&& t[5].action == FileActionView::Write(x + "/"@ + "xfce4-desktop.xml"@, DESKTOP_XML@)
            &&& t[6].action == FileActionView::Write(x + "/"@ + "xfce4-keyboard-shortcuts.xml"@, SHORTCUTS_XML@)
            &&& t[7].action == FileActionView::MakeDir(g)
            &&& t[8].action == FileActionView::Write(g + "/"@ + "settings.ini"@, GTK_SETTINGS@)
            &&& t[9].action == FileActionView::Write(g + "/"@ + "gtk.css"@, GTK_CSS@)
            &&& t[10].action == FileActionView::MakeDir(a)
            &&& t[11].action == FileActionView::Write(a + "/"@ + "update-notifier.desktop"@, MASK_ENTRY@)
            &&& t[12].action == FileActionView::Write(a + "/"@ + "polkit-gnome-authentication-agent-1.desktop"@, MASK_ENTRY@)
            &&& t[13].action == FileActionView::Write(a + "/"@ + "pulseaudio.desktop"@, MASK_ENTRY@)
            &&& t[14].action == FileActionView::Write(a + "/"@ + "tracker-miner-fs-3.desktop"@, MASK_ENTRY@)
            &&& t[15].action == FileActionView::Write(a + "/"@ + "snap-userd-autostart.desktop"@, MASK_ENTRY@)
            &&& t[16].action == FileActionView::Write(a + "/"@ + "spice-vdagent.desktop"@, MASK_ENTRY@)
            &&& t[17].action == FileActionView::Write(a + "/"@ + "ubuntu-advantage-notification.desktop"@, MASK_ENTRY@)
            &&& t[18].action == FileActionView::Write(a + "/"@ + "ubuntu-report-on-upgrade.desktop"@, MASK_ENTRY@)
            &&& t[19].action == FileActionView::Write(a + "/"@ + "gnome-initial-setup-copy-worker.desktop"@, MASK_ENTRY@)
            &&& t[20].action == FileActionView::Write(a + "/"@ + "gnome-initial-setup-first-login.desktop"@, MASK_ENTRY@)
            &&& t[21].action == FileActionView::Write(a + "/"@ + "org.gnome.DejaDup.Monitor.desktop"@, MASK_ENTRY@)
            &&& t[22].action == FileActionView::Write(a + "/"@ + "org.gnome.Evolution-alarm-notify.desktop"@, MASK_ENTRY@)
            &&& t[23].action == FileActionView::MakeDir(h)
            &&& t[24].action matches FileActionView::Write(p, c) && p == h + "/"@ + "helpers.rc"@
            &&& forall|i: int| 0 <= i < t.len() ==> (#[trigger] t[i]).error is None
            &&& t.len() == 25 || t.len() == 26
        }),
{
}

/// The browser that was found is the desktop's, under the name by which the desktop knows it, and so
/// is the terminal; web pages go to a browser exactly where its desktop file is known.
pub proof fn programs_are_chosen(
    dir: &str,
    whisker: bool,
    browser: Option<&str>,
    terminal: Option<&str>,
    r: Vec<FileStep>,
    content: Seq<char>,
    path: Seq<char>,
)
    requires
        call_ensures(seed_default_config, (dir, whisker, browser, terminal), r),
        r@.len() > 24,
        steps_view(r@)[24].action == FileActionView::Write(path, content),
    ensures
        ({
            let head = match terminal {
                Some(t) => "[Default]\n"@ + "TerminalEmulator="@ + t@ + "\n"@,
                None => "[Default]\n"@,
            };
            &&& browser is None ==> content == head && r@.len() == 25
            &&& browser matches Some(b) ==> {
                &&& b@ == "google-chrome-stable"@ || b@ == "google-chrome"@ ==> content == head
                    + "WebBrowser="@ + "google-chrome"@ + "\n"@
                &&& b@ == "chromium-browser"@ || b@ == "chromium"@ ==> content == head + "WebBrowser="@
                    + "chromium"@ + "\n"@
                &&& b@ == "epiphany-browser"@ ==> content == head + "WebBrowser="@ + "epiphany"@
                    + "\n"@
                &&& b@ != "google-chrome-stable"@ && b@ != "google-chrome"@ && b@ != "chromium-browser"@
                    && b@ != "chromium"@ && b@ != "epiphany-browser"@ ==> content == head
                    + "WebBrowser="@ + b@ + "\n"@
                &&& r@.len() == 26 <==> b@ == "firefox-esr"@ || b@ == "firefox"@ || b@
                    == "google-chrome-stable"@ || b@ == "google-chrome"@ || b@ == "chromium-browser"@
                    || b@ == "chromium"@ || b@ == "epiphany-browser"@
            }
        }),
{
    assert(steps_view(r@).len() == r@.len());
    assert(content == helpers_rc(opt_view(browser), opt_view(terminal)));
    seed_names_differ();
}

proof fn seed_names_differ()
    ensures
        "google-chrome-stable"@ != "chromium-browser"@,
        "google-chrome-stable"@ != "chromium"@,
        "google-chrome-stable"@ != "epiphany-browser"@,
        "google-chrome"@ != "chromium-browser"@,
        "google-chrome"@ != "chromium"@,
        "google-chrome"@ != "epiphany-browser"@,
        "chromium-browser"@ != "epiphany-browser"@,
        "chromium"@ != "epiphany-browser"@,
{
    reveal_strlit("google-chrome-stable");
    reveal_strlit("google-chrome");
    reveal_strlit("chromium-browser");
    reveal_strlit("chromium");
    reveal_strlit("epiphany-browser");
    assert("google-chrome-stable"@[0] == 'g' && "google-chrome"@[0] == 'g');
    assert("chromium-browser"@[0] == 'c' && "chromium"@[0] == 'c');
    assert("epiphany-browser"@[0] == 'e');
}

/// A configuration for one session alone has a directory of its own below `/tmp`, which is emptied,
/// made and closed to others before anything is put into it, and then holds what the desktop needs.
pub proof fn borrowed_configurations_start_anew(
    n: u32,
    whisker: bool,
    browser: Option<&str>,
    terminal: Option<&str>,
    r: ConfigSetup,
    dir: &str,
    seeded: Vec<FileStep>,
)
    requires
        call_ensures(ephemeral_config, (n, whisker, browser, terminal), r),
        dir@ == r.config_dir@,
        call_ensures(seed_default_config, (dir, whisker, browser, terminal), seeded),
    ensures
        r.config_dir@ == "/tmp/beam-xfce-"@ + decimal(n as nat),
        r.first_session,
        ({
            let t = steps_view(r.steps@);
            &&& t.len() == 3 + seeded@.len()
            &&& t[0].action == FileActionView::RemoveDir(dir@)
            &&& t[1].action == FileActionView::MakeDir(dir@)
            &&& t[2].action == FileActionView::MakePrivate(dir@)
            &&& forall|i: int| 0 <= i < seeded@.len() ==> t[i + 3] == #[trigger] steps_view(seeded@)[i]
        }),
{
    let head = ephemeral_head(dir@);
    lemma_seed_behind(head, dir@, whisker, opt_view(browser), opt_view(terminal));
    assert(steps_view(seeded@).len() == seeded@.len());
}

spec fn ephemeral_head(dir: Seq<char>) -> Seq<FileStepView> {
    Seq::<FileStepView>::empty().push(tried(FileActionView::RemoveDir(dir))).push(
        tried(FileActionView::MakeDir(dir)),
    ).push(tried(FileActionView::MakePrivate(dir)))
}

proof fn lemma_seed_behind(
    head: Seq<FileStepView>,
    dir: Seq<char>,
    whisker: bool,
    browser: Option<Seq<char>>,
    terminal: Option<Seq<char>>,
)
    ensures
        with_seed(head, dir, whisker, browser, terminal) == head + with_seed(
            Seq::empty(),
            dir,
            whisker,
            browser,
            terminal,
        ),
{
    assert(with_seed(head, dir, whisker, browser, terminal) =~= head + with_seed(
        Seq::empty(),
        dir,
        whisker,
        browser,
        terminal,
    ));
}

/// A user's own configuration is made and closed to others, which must not fail, before what the
/// desktop needs is put into it; then its version is noted, and that it is complete.
pub proof fn own_configurations_are_seeded(
    home: &str,
    whisker: bool,
    browser: Option<&str>,
    terminal: Option<&str>,
    r: ConfigSetup,
    dir: &str,
    seeded: Vec<FileStep>,
)
    requires
        call_ensures(try_persistent_config_in, (home, false, whisker, browser, terminal), r),
        dir@ == r.config_dir@,
        call_ensures(seed_default_config, (dir, whisker, browser, terminal), seeded),
    ensures
        ({
            let t = steps_view(r.steps@);
            let n = seeded@.len() as int;
            let beam = home@ + "/.local/share/beam"@;
            &&& t.len() == n + 4
            &&& t[0].action == FileActionView::MakeDir(dir@) && t[0].error == Some(
                "Failed to create "@ + dir@,
            )
            &&& t[1].action == FileActionView::MakePrivate(dir@) && t[1].error == Some(
                "Failed to set permissions on "@ + dir@,
            )
            &&& forall|i: int| 0 <= i < n ==> t[i + 2] == #[trigger] steps_view(seeded@)[i]
            &&& t[n + 2].action == FileActionView::Write(beam + "/.config-version"@, "1"@)
            &&& t[n + 2].error is None
            &&& t[n + 3].action == FileActionView::Write(beam + "/.initialized"@, ""@)
            &&& t[n + 3].error == Some("Failed to write initialization sentinel"@)
        }),
{
    let head = Seq::<FileStepView>::empty().push(
        required(FileActionView::MakeDir(dir@), "Failed to create "@ + dir@),
    ).push(required(FileActionView::MakePrivate(dir@), "Failed to set permissions on "@ + dir@));
    lemma_seed_behind(head, dir@, whisker, opt_view(browser), opt_view(terminal));
    assert(steps_view(seeded@).len() == seeded@.len());
}

/// Web pages go to the desktop file of the browser that was found, by both of their schemes and both
/// of their types. Without a browser and a terminal, no program is chosen.
pub proof fn web_pages_go_to_the_browser(
    dir: &str,
    whisker: bool,
    browser: &str,
    terminal: Option<&str>,
    r: Vec<FileStep>,
    file: Seq<char>,
    none: Vec<FileStep>,
)
    requires
        call_ensures(seed_default_config, (dir, whisker, Some(browser), terminal), r),
        browser@ == "firefox-esr"@ ==> file == "firefox-esr.desktop"@,
        browser@ == "firefox"@ ==> file == "firefox.desktop"@,
        browser@ == "google-chrome-stable"@ || browser@ == "google-chrome"@ ==> file
            == "google-chrome.desktop"@,
        browser@ == "chromium-browser"@ || browser@ == "chromium"@ ==> file
            == "chromium-browser.desktop"@,
        browser@ == "epiphany-browser"@ ==> file == "org.gnome.Epiphany.desktop"@,
        call_ensures(seed_default_config, (dir, whisker, None::<&str>, None::<&str>), none),
    ensures
        r@.len() == 26 ==> steps_view(r@)[25].action == FileActionView::Write(
            dir@ + "/"@ + "mimeapps.list"@,
            "[Default Applications]\nx-scheme-handler/http="@ + file + "\nx-scheme-handler/https="@
                + file + "\ntext/html="@ + file + "\napplication/xhtml+xml="@ + file + "\n"@,
        ),
        r@.len() == 25 || r@.len() == 26,
        none@.len() == 25,
        steps_view(none@)[24].action == FileActionView::Write(
            dir@ + "/"@ + "xfce4"@ + "/"@ + "helpers.rc"@,
            "[Default]\n"@,
        ),
{
    assert(steps_view(r@).len() == r@.len());
    assert(steps_view(none@).len() == none@.len());
    seed_names_differ();
}

} // verus!
