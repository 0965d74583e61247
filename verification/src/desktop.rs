//! The desktop of a session: the programs that it is made of, and how they are stopped.
use crate::command::{CommandLine, CommandView};
use crate::display::pa_config_of;
use crate::launch::{display_name, display_name_of};
use crate::text::{decimal, decimal_u32, holds, matches_at, opt_text, opt_view};
use vstd::prelude::*;
use vstd::string::*;

verus! {

// ---------------------------------------------------------------------------
// Which desktop
// ---------------------------------------------------------------------------

/// A desktop that a session can run.
#[derive(Clone, Copy, PartialEq, Eq, Structural)]
pub enum Desktop {
    /// A full desktop.
    Xfce,
    /// A bare window manager with a terminal.
    Openbox,
}

/// The desktop of a session: XFCE where it is installed, and else Openbox.
pub fn choose_desktop(xfce_installed: bool, openbox_installed: bool) -> (r: Result<Desktop, String>)
    ensures
        match r {
            Ok(Desktop::Xfce) => xfce_installed,
            Ok(Desktop::Openbox) => !xfce_installed && openbox_installed,
            Err(e) => !xfce_installed && !openbox_installed && e@
                == "No desktop environment found. Install xfce4 or openbox."@,
        },
{
    if xfce_installed {
        Ok(Desktop::Xfce)
    } else if openbox_installed {
        Ok(Desktop::Openbox)
    } else {
        Err("No desktop environment found. Install xfce4 or openbox.".to_owned())
    }
}

// ---------------------------------------------------------------------------
// Paths
// ---------------------------------------------------------------------------

/// The runtime directory of the programs on a display.
pub open spec fn runtime_dir_of(display_num: u32) -> Seq<char> {
    "/tmp/beam-run-"@ + decimal(display_num as nat)
}

/// The runtime directory of the programs on a display: to be made anew, for the owner alone.
pub fn runtime_dir(display_num: u32) -> (r: String)
    ensures
        r@ == runtime_dir_of(display_num),
{
    "/tmp/beam-run-".to_owned().concat(decimal_u32(display_num).as_str())
}

/// The directory of the sound server of a display.
pub open spec fn pulse_dir_of(display_num: u32) -> Seq<char> {
    "/tmp/beam-pulse-"@ + decimal(display_num as nat)
}

/// The directory of the sound server of a display: to be made anew.
pub fn pulse_dir(display_num: u32) -> (r: String)
    ensures
        r@ == pulse_dir_of(display_num),
{
    "/tmp/beam-pulse-".to_owned().concat(decimal_u32(display_num).as_str())
}

/// The script of the sound server of a display.
pub open spec fn pulse_script_of(display_num: u32) -> Seq<char> {
    "/tmp/beam-pulse-"@ + decimal(display_num as nat) + ".pa"@
}

/// The script of the sound server of a display.
pub fn pulse_script(display_num: u32) -> (r: String)
    ensures
        r@ == pulse_script_of(display_num),
{
    "/tmp/beam-pulse-".to_owned().concat(decimal_u32(display_num).as_str()).concat(".pa")
}

/// The socket of the sound server of a display.
pub open spec fn pulse_socket_of(display_num: u32) -> Seq<char> {
    pulse_dir_of(display_num) + "/native"@
}

/// The socket of the sound server of a display.
pub fn pulse_socket(display_num: u32) -> (r: String)
    ensures
        r@ == pulse_socket_of(display_num),
{
    pulse_dir(display_num).concat("/native")
}

/// The address of the sound server of a display.
pub open spec fn pulse_server_of(display_num: u32) -> Seq<char> {
    "unix:"@ + pulse_socket_of(display_num)
}

/// The address of the sound server of a display.
pub fn pulse_server(display_num: u32) -> (r: String)
    ensures
        r@ == pulse_server_of(display_num),
{
    "unix:".to_owned().concat(pulse_socket(display_num).as_str())
}

/// The sound server of a display that was there before the agent: the one whose socket exists.
pub fn reused_pulse_server(display_num: u32, socket_exists: bool) -> (r: Option<String>)
    ensures
        opt_text(r) == if socket_exists {
            Some(pulse_server_of(display_num))
        } else {
            None
        },
{
    if socket_exists {
        Some(pulse_server(display_num))
    } else {
        None
    }
}

/// A sound server's script sets its socket up where the programs of the session look for it.
pub proof fn sound_goes_to_the_session(display_num: u32)
    ensures
        holds(pa_config_of(pulse_dir_of(display_num)), "socket="@ + pulse_socket_of(display_num)),
{
    let head = "load-module module-null-sink sink_name=beam sink_properties=device.description=Beam\nset-default-sink beam\nload-module module-native-protocol-unix socket="@;
    let tail = "/native auth-anonymous=1\nload-module module-always-sink\n"@;
    let dir = pulse_dir_of(display_num);
    reveal_strlit(
        "load-module module-null-sink sink_name=beam sink_properties=device.description=Beam\nset-default-sink beam\nload-module module-native-protocol-unix socket=",
    );
    reveal_strlit("/native auth-anonymous=1\nload-module module-always-sink\n");
    reveal_strlit("socket=");
    reveal_strlit("/native");
    let whole = pa_config_of(dir);
    let part = "socket="@ + pulse_socket_of(display_num);
    let at = head.len() - 7;
    assert(head.subrange(at, head.len() as int) =~= "socket="@);
    assert(tail.subrange(0, 7) =~= "/native"@);
    assert(whole.subrange(at, at + part.len()) =~= head.subrange(at, head.len() as int) + (dir
        + tail.subrange(0, 7)));
    assert(part =~= "socket="@ + (dir + "/native"@));
    assert(matches_at(whole, part, at));
}

// ---------------------------------------------------------------------------
// The programs
// ---------------------------------------------------------------------------

/// The command that starts XFCE on a bus of its own, with the variables that its programs look
/// at.
pub open spec fn xfce_command_of(
    display_num: u32,
    config_dir: Seq<char>,
    browser: Option<Seq<char>>,
    terminal: Option<Seq<char>>,
) -> CommandView {
    let env = seq![
        ("DISPLAY"@, display_name_of(display_num)),
        ("PULSE_SERVER"@, pulse_server_of(display_num)),
        ("XDG_CONFIG_HOME"@, config_dir),
        ("XDG_RUNTIME_DIR"@, runtime_dir_of(display_num)),
        ("XDG_CURRENT_DESKTOP"@, "XFCE"@),
        ("XDG_SESSION_DESKTOP"@, "xfce"@),
        ("GVFS_DISABLE_FUSE"@, "1"@),
    ];
    let env = match browser {
        Some(b) => env.push(("BROWSER"@, b)),
        None => env,
    };
    let env = match terminal {
        Some(t) => env.push(("TERMINAL"@, t)),
        None => env,
    };
    CommandView {
        program: "/usr/bin/dbus-launch"@,
        args: seq!["--exit-with-session"@, "xfce4-session"@],
        env,
        removed_env: seq![],
    }
}

/// The command that starts XFCE, as the leader of a process group of its own. `browser` and
/// `terminal` are the applications that were found.
pub fn xfce_command(
    display_num: u32,
    config_dir: &str,
    browser: Option<&str>,
    terminal: Option<&str>,
) -> (r: CommandLine)
    ensures
        r@ == xfce_command_of(display_num, config_dir@, opt_view(browser), opt_view(terminal)),
{
    let mut cmd = CommandLine::new("/usr/bin/dbus-launch").arg("--exit-with-session").arg(
        "xfce4-session",
    ).env("DISPLAY", display_name(display_num).as_str()).env(
        "PULSE_SERVER",
        pulse_server(display_num).as_str(),
    ).env("XDG_CONFIG_HOME", config_dir).env(
        "XDG_RUNTIME_DIR",
        runtime_dir(display_num).as_str(),
    ).env("XDG_CURRENT_DESKTOP", "XFCE").env("XDG_SESSION_DESKTOP", "xfce").env(
        "GVFS_DISABLE_FUSE",
        "1",
    );
    match browser {
        Some(b) => {
            cmd = cmd.env("BROWSER", b);
        },
        None => {},
    }
    match terminal {
        Some(t) => {
            cmd = cmd.env("TERMINAL", t);
        },
        None => {},
    }
    cmd
}

/// How many seconds a session's message bus is looked for, once a second.
pub const BUS_ATTEMPTS: u32 = 15;

/// How the keyring of a session is set up.
pub struct KeyringPlan {
    /// To be made anew: the sockets of this session's keyring.
    pub control_dir: String,
    /// To be made: where the user's passwords are kept across sessions.
    pub keyrings_dir: String,
    /// To be written, with `login` in it, where it does not exist.
    pub default_file: String,
    /// The command that starts the keyring on the session's bus.
    pub command: CommandLine,
}

/// Where a user's passwords are kept.
pub open spec fn keyring_data_of(home: Seq<char>) -> Seq<char> {
    home + "/.local/share/beam/keyring"@
}

/// Where the sockets of a session's keyring are.
pub open spec fn keyring_control_of(display_num: u32) -> Seq<char> {
    "/tmp/beam-keyring-"@ + decimal(display_num as nat)
}

/// The command that starts the keyring of a session on its bus.
pub open spec fn keyring_command_of(display_num: u32, home: Seq<char>, address: Seq<char>)
    -> CommandView {
    CommandView {
        program: "sh"@,
        args: seq![
            "-c"@,
            "echo '' | gnome-keyring-daemon --foreground --unlock --components=secrets --control-directory="@
                + keyring_control_of(display_num),
        ],
        env: seq![
            ("DISPLAY"@, display_name_of(display_num)),
            ("DBUS_SESSION_BUS_ADDRESS"@, address),
            ("XDG_DATA_HOME"@, keyring_data_of(home)),
        ],
        removed_env: seq![],
    }
}

/// How the keyring of a session is set up, whose bus has the given address. A keyring of its own,
/// with a control directory of its own, is not confused with one that the user has elsewhere.
pub fn keyring_plan(display_num: u32, home: &str, address: &str) -> (r: KeyringPlan)
    ensures
        r.control_dir@ == keyring_control_of(display_num),
        r.keyrings_dir@ == keyring_data_of(home@) + "/keyrings"@,
        r.default_file@ == keyring_data_of(home@) + "/keyrings"@ + "/default"@,
        r.command@ == keyring_command_of(display_num, home@, address@),
{
    let control_dir = "/tmp/beam-keyring-".to_owned().concat(decimal_u32(display_num).as_str());
    let data = home.to_owned().concat("/.local/share/beam/keyring");
    let keyrings_dir = data.clone().concat("/keyrings");
    let default_file = keyrings_dir.clone().concat("/default");
    let script = "echo '' | gnome-keyring-daemon --foreground --unlock --components=secrets --control-directory=".to_owned().concat(
        control_dir.as_str(),
    );
    let command = CommandLine::new("sh").arg("-c").arg(script.as_str()).env(
        "DISPLAY",
        display_name(display_num).as_str(),
    ).env("DBUS_SESSION_BUS_ADDRESS", address).env("XDG_DATA_HOME", data.as_str());
    KeyringPlan { control_dir, keyrings_dir, default_file, command }
}

/// A setting of the desktop.
pub struct Setting {
    pub channel: &'static str,
    pub property: &'static str,
    pub kind: &'static str,
    pub value: &'static str,
}

/// A setting in mathematical terms: channel, property, kind and value.
pub open spec fn setting_view(s: Setting) -> (Seq<char>, Seq<char>, Seq<char>, Seq<char>) {
    (s.channel@, s.property@, s.kind@, s.value@)
}

fn setting(
    channel: &'static str,
    property: &'static str,
    kind: &'static str,
    value: &'static str,
) -> (r: Setting)
    ensures
        setting_view(r) == (channel@, property@, kind@, value@),
{
    Setting { channel, property, kind, value }
}

/// The settings that a desktop gets in its first session: nothing that costs time or bandwidth on
/// a remote screen, the themes, and no screenshot keys.
pub open spec fn first_settings_list() -> Seq<(Seq<char>, Seq<char>, Seq<char>, Seq<char>)> {
    seq![
        ("xfwm4"@, "/general/use_compositing"@, "bool"@, "false"@),
        ("xfwm4"@, "/general/zoom_desktop"@, "bool"@, "false"@),
        ("xfwm4"@, "/general/popup_opacity"@, "int"@, "100"@),
        ("xfwm4"@, "/general/move_opacity"@, "int"@, "100"@),
        ("xfwm4"@, "/general/resize_opacity"@, "int"@, "100"@),
        ("xsettings"@, "/Net/EnableAnimations"@, "bool"@, "false"@),
        ("xsettings"@, "/Gtk/MenuPopupDelay"@, "int"@, "0"@),
        ("xsettings"@, "/Gtk/MenuPopdownDelay"@, "int"@, "0"@),
        ("xsettings"@, "/Gtk/CursorBlink"@, "bool"@, "false"@),
        ("xsettings"@, "/Net/ThemeName"@, "string"@, "Arc-Dark"@),
        ("xsettings"@, "/Net/IconThemeName"@, "string"@, "Papirus-Dark"@),
        ("xfwm4"@, "/general/theme"@, "string"@, "Arc-Dark"@),
        ("xfce4-keyboard-shortcuts"@, "/commands/custom/Print"@, "string"@, ""@),
        ("xfce4-keyboard-shortcuts"@, "/commands/custom/<Alt>Print"@, "string"@, ""@),
        ("xfce4-keyboard-shortcuts"@, "/commands/custom/<Shift>Print"@, "string"@, ""@),
    ]
}

/// The settings that a desktop gets in its first session.
pub fn first_settings() -> (r: Vec<Setting>)
    ensures
        r@.map_values(|s: Setting| setting_view(s)) == first_settings_list(),
{
    let r = vec![
        setting("xfwm4", "/general/use_compositing", "bool", "false"),
        setting("xfwm4", "/general/zoom_desktop", "bool", "false"),
        setting("xfwm4", "/general/popup_opacity", "int", "100"),
        setting("xfwm4", "/general/move_opacity", "int", "100"),
        setting("xfwm4", "/general/resize_opacity", "int", "100"),
        setting("xsettings", "/Net/EnableAnimations", "bool", "false"),
        setting("xsettings", "/Gtk/MenuPopupDelay", "int", "0"),
        setting("xsettings", "/Gtk/MenuPopdownDelay", "int", "0"),
        setting("xsettings", "/Gtk/CursorBlink", "bool", "false"),
        setting("xsettings", "/Net/ThemeName", "string", "Arc-Dark"),
        setting("xsettings", "/Net/IconThemeName", "string", "Papirus-Dark"),
        setting("xfwm4", "/general/theme", "string", "Arc-Dark"),
        setting("xfce4-keyboard-shortcuts", "/commands/custom/Print", "string", ""),
        setting("xfce4-keyboard-shortcuts", "/commands/custom/<Alt>Print", "string", ""),
        setting("xfce4-keyboard-shortcuts", "/commands/custom/<Shift>Print", "string", ""),
    ];
    assert(r@.map_values(|s: Setting| setting_view(s)) =~= first_settings_list());
    r
}

/// The command that applies a setting.
pub open spec fn setting_command_of(
    s: (Seq<char>, Seq<char>, Seq<char>, Seq<char>),
    x_display: Seq<char>,
    address: Option<Seq<char>>,
) -> CommandView {
    CommandView {
        program: "xfconf-query"@,
        args: seq!["-c"@, s.0, "-p"@, s.1, "-n"@, "-t"@, s.2, "-s"@, s.3],
        env: match address {
            Some(a) => seq![("DISPLAY"@, x_display), ("DBUS_SESSION_BUS_ADDRESS"@, a)],
            None => seq![("DISPLAY"@, x_display)],
        },
        removed_env: seq![],
    }
}

/// The command that applies a setting, on the bus of the given address where it was found.
pub fn setting_command(s: &Setting, x_display: &str, address: Option<&str>) -> (r: CommandLine)
    ensures
        r@ == setting_command_of(setting_view(*s), x_display@, opt_view(address)),
{
    let cmd = CommandLine::new("xfconf-query").env("DISPLAY", x_display).arg("-c").arg(
        s.channel,
    ).arg("-p").arg(s.property).arg("-n").arg("-t").arg(s.kind).arg("-s").arg(s.value);
    match address {
        Some(a) => cmd.env("DBUS_SESSION_BUS_ADDRESS", a),
        None => cmd,
    }
}

/// The command that starts Openbox.
pub open spec fn openbox_command_of(display_num: u32) -> CommandView {
    CommandView {
        program: "openbox"@,
        args: seq![],
        env: seq![
            ("DISPLAY"@, display_name_of(display_num)),
            ("PULSE_SERVER"@, pulse_server_of(display_num)),
        ],
        removed_env: seq![],
    }
}

/// The command that starts Openbox.
pub fn openbox_command(display_num: u32) -> (r: CommandLine)
    ensures
        r@ == openbox_command_of(display_num),
{
    CommandLine::new("openbox").env("DISPLAY", display_name(display_num).as_str()).env(
        "PULSE_SERVER",
        pulse_server(display_num).as_str(),
    )
}

/// The command that paints the background below Openbox.
pub open spec fn background_command_of(display_num: u32) -> CommandView {
    CommandView {
        program: "xsetroot"@,
        args: seq!["-solid"@, "#2d3436"@],
        env: seq![("DISPLAY"@, display_name_of(display_num))],
        removed_env: seq![],
    }
}

/// The command that paints the background below Openbox.
pub fn background_command(display_num: u32) -> (r: CommandLine)
    ensures
        r@ == background_command_of(display_num),
{
    CommandLine::new("xsetroot").env("DISPLAY", display_name(display_num).as_str()).arg(
        "-solid",
    ).arg("#2d3436")
}

/// The terminal that a user of Openbox starts with, where there is one.
pub open spec fn openbox_terminal_of(display_num: u32, xfce4_terminal: bool, xterm: bool) -> Option<
    CommandView,
> {
    if xfce4_terminal {
        Some(
            CommandView {
                program: "xfce4-terminal"@,
                args: seq![],
                env: seq![("DISPLAY"@, display_name_of(display_num))],
                removed_env: seq![],
            },
        )
    } else if xterm {
        Some(
            CommandView {
                program: "xterm"@,
                args: seq!["-geometry"@, "100x35+100+100"@, "-fa"@, "Monospace"@, "-fs"@, "14"@],
                env: seq![("DISPLAY"@, display_name_of(display_num))],
                removed_env: seq![],
            },
        )
    } else {
        None
    }
}

/// The terminal that a user of Openbox starts with, where there is one: that of XFCE before
/// `xterm`, as far as they are installed.
pub fn openbox_terminal(display_num: u32, xfce4_terminal: bool, xterm: bool) -> (r: Option<
    CommandLine,
>)
    ensures
        match r {
            Some(c) => openbox_terminal_of(display_num, xfce4_terminal, xterm) == Some(c@),
            None => openbox_terminal_of(display_num, xfce4_terminal, xterm) is None,
        },
{
    let display = display_name(display_num);
    if xfce4_terminal {
        Some(CommandLine::new("xfce4-terminal").env("DISPLAY", display.as_str()))
    } else if xterm {
        Some(
            CommandLine::new("xterm").env("DISPLAY", display.as_str()).arg("-geometry").arg(
                "100x35+100+100",
            ).arg("-fa").arg("Monospace").arg("-fs").arg("14"),
        )
    } else {
        None
    }
}

/// The command that hides the cursor without disturbing the windows below it.
pub open spec fn xfixes_command(display_num: u32) -> CommandView {
    CommandView {
        program: "unclutter-xfixes"@,
        args: seq!["--timeout"@, "0"@],
        env: seq![("DISPLAY"@, display_name_of(display_num))],
        removed_env: seq![],
    }
}

/// The command that hides the cursor once it has rested for a second.
pub open spec fn unclutter_command(display_num: u32) -> CommandView {
    CommandView {
        program: "unclutter"@,
        args: seq!["-idle"@, "1"@, "-root"@],
        env: seq![("DISPLAY"@, display_name_of(display_num))],
        removed_env: seq![],
    }
}

/// The commands in mathematical terms.
pub open spec fn commands_view(v: Seq<CommandLine>) -> Seq<CommandView> {
    v.map_values(|c: CommandLine| c@)
}

/// The commands that hide the cursor, to be tried in their order until one starts.
pub fn hide_cursor(display_num: u32, xfixes_installed: bool, unclutter_installed: bool) -> (r: Vec<
    CommandLine,
>)
    ensures
        commands_view(r@) == (if xfixes_installed {
            seq![xfixes_command(display_num)]
        } else {
            Seq::empty()
        }) + (if unclutter_installed {
            seq![unclutter_command(display_num)]
        } else {
            Seq::empty()
        }),
{
    let display = display_name(display_num);
    let mut r: Vec<CommandLine> = Vec::new();
    if xfixes_installed {
        let cmd = CommandLine::new("unclutter-xfixes").arg("--timeout").arg("0").env(
            "DISPLAY",
            display.as_str(),
        );
        assert(cmd@ =~= xfixes_command(display_num));
        r.push(cmd);
    }
    if unclutter_installed {
        let cmd = CommandLine::new("unclutter").arg("-idle").arg("1").arg("-root").env(
            "DISPLAY",
            display.as_str(),
        );
        assert(cmd@ =~= unclutter_command(display_num));
        r.push(cmd);
    }
    assert(commands_view(r@) =~= (if xfixes_installed {
        seq![xfixes_command(display_num)]
    } else {
        Seq::empty()
    }) + (if unclutter_installed {
        seq![unclutter_command(display_num)]
    } else {
        Seq::empty()
    }));
    r
}

/// The command that starts the sound server of a display, apart from any other of the user: its
/// files in a directory of its own, no default script, and no message bus.
pub open spec fn pulseaudio_command_of(display_num: u32) -> CommandView {
    CommandView {
        program: "pulseaudio"@,
        args: seq![
            "--daemonize=no"@,
            "--exit-idle-time=-1"@,
            "-n"@,
            "-F"@,
            pulse_script_of(display_num),
        ],
        env: seq![
            ("PULSE_RUNTIME_PATH"@, pulse_dir_of(display_num)),
            ("PULSE_STATE_PATH"@, pulse_dir_of(display_num)),
            ("XDG_RUNTIME_DIR"@, pulse_dir_of(display_num)),
        ],
        removed_env: seq!["DBUS_SESSION_BUS_ADDRESS"@],
    }
}

/// The command that starts the sound server of a display.
pub fn pulseaudio_command(display_num: u32) -> (r: CommandLine)
    ensures
        r@ == pulseaudio_command_of(display_num),
{
    let dir = pulse_dir(display_num);
    CommandLine::new("pulseaudio").arg("--daemonize=no").arg("--exit-idle-time=-1").arg("-n").arg(
        "-F",
    ).arg(pulse_script(display_num).as_str()).env("PULSE_RUNTIME_PATH", dir.as_str()).env(
        "PULSE_STATE_PATH",
        dir.as_str(),
    ).env("XDG_RUNTIME_DIR", dir.as_str()).env_remove("DBUS_SESSION_BUS_ADDRESS")
}

// ---------------------------------------------------------------------------
// The end
// ---------------------------------------------------------------------------

/// What is known of a child process.
#[derive(Clone, Copy, PartialEq, Eq, Structural)]
pub enum ChildState {
    Exited,
    Running,
    /// Its state could not be read.
    Unknown,
}

/// What is done to a child process that is to be stopped.
#[derive(Clone, Copy, PartialEq, Eq, Structural)]
pub enum StopAction {
    /// Nothing: it is gone, and its number may belong to another process.
    LeaveAlone,
    /// Ask it to end.
    Terminate,
}

/// What is done to a child process that is to be stopped.
pub fn stop_action(state: ChildState) -> (r: StopAction)
    ensures
        r == if state == ChildState::Running {
            StopAction::Terminate
        } else {
            StopAction::LeaveAlone
        },
{
    if state == ChildState::Running {
        StopAction::Terminate
    } else {
        StopAction::LeaveAlone
    }
}

/// Whether a process group that was asked to end is killed: it still runs half a second later.
pub fn must_kill(state: ChildState) -> (r: bool)
    ensures
        r == (state == ChildState::Running),
{
    state == ChildState::Running
}

/// What a display consists of when it ends.
pub struct DisplayParts {
    pub display_num: u32,
    pub cursor_hider: bool,
    pub sound_server: bool,
    pub desktop: bool,
    pub x_server: bool,
    /// The configuration that was written for this session.
    pub cleanup_config: Option<String>,
    /// The display data that was written for this session.
    pub cleanup_edid: Option<String>,
}

/// A step in the end of a display.
pub enum Teardown {
    StopCursorHider,
    StopSoundServer,
    /// The desktop with its whole process group.
    StopDesktopGroup,
    StopXServer,
    RemoveFile(String),
    RemoveDir(String),
}

/// A step in mathematical terms.
pub enum TeardownView {
    StopCursorHider,
    StopSoundServer,
    StopDesktopGroup,
    StopXServer,
    RemoveFile(Seq<char>),
    RemoveDir(Seq<char>),
}

impl View for Teardown {
    type V = TeardownView;

    open spec fn view(&self) -> TeardownView {
        match self {
            Teardown::StopCursorHider => TeardownView::StopCursorHider,
            Teardown::StopSoundServer => TeardownView::StopSoundServer,
            Teardown::StopDesktopGroup => TeardownView::StopDesktopGroup,
            Teardown::StopXServer => TeardownView::StopXServer,
            Teardown::RemoveFile(path) => TeardownView::RemoveFile(path@),
            Teardown::RemoveDir(path) => TeardownView::RemoveDir(path@),
        }
    }
}

/// The steps of a list in mathematical terms.
pub open spec fn teardown_view(v: Seq<Teardown>) -> Seq<TeardownView> {
    v.map_values(|t: Teardown| t@)
}

/// One step where `cond` holds, and none where it does not.
pub open spec fn step_if(cond: bool, step: TeardownView) -> Seq<TeardownView> {
    if cond {
        seq![step]
    } else {
        Seq::empty()
    }
}

/// The removal of a file, where there is one.
pub open spec fn removal_of(path: Option<Seq<char>>) -> Seq<TeardownView> {
    match path {
        Some(p) => seq![TeardownView::RemoveFile(p)],
        None => Seq::empty(),
    }
}

/// How a display ends: its programs from the outermost to the X server, then its files. The
/// user's configuration and passwords stay.
pub open spec fn teardown_of(parts: DisplayParts) -> Seq<TeardownView> {
    let n = parts.display_num;
    step_if(parts.cursor_hider, TeardownView::StopCursorHider)
        + step_if(parts.sound_server, TeardownView::StopSoundServer)
        + step_if(parts.desktop, TeardownView::StopDesktopGroup)
        + step_if(parts.x_server, TeardownView::StopXServer)
        + removal_of(opt_text(parts.cleanup_config))
        + removal_of(opt_text(parts.cleanup_edid))
        + seq![
            TeardownView::RemoveDir(pulse_dir_of(n)),
            TeardownView::RemoveFile(pulse_script_of(n)),
            TeardownView::RemoveDir("/tmp/beam-keyring-"@ + decimal(n as nat)),
            TeardownView::RemoveDir(runtime_dir_of(n)),
        ]
}

fn add_teardown_if(steps: &mut Vec<Teardown>, cond: bool, step: Teardown)
    ensures
        teardown_view(final(steps)@) == teardown_view(old(steps)@) + step_if(cond, step@),
{
    if cond {
        steps.push(step);
    }
    assert(teardown_view(steps@) =~= teardown_view(old(steps)@) + step_if(cond, step@));
}

fn add_removal(steps: &mut Vec<Teardown>, path: &Option<String>)
    ensures
        teardown_view(final(steps)@) == teardown_view(old(steps)@) + removal_of(opt_text(*path)),
{
    match path {
        Some(p) => {
            steps.push(Teardown::RemoveFile(p.clone()));
        },
        None => {},
    }
    assert(teardown_view(steps@) =~= teardown_view(old(steps)@) + removal_of(opt_text(*path)));
}

/// How a display ends.
pub fn teardown(parts: &DisplayParts) -> (r: Vec<Teardown>)
    ensures
        teardown_view(r@) == teardown_of(*parts),
{
    let n: u32 = parts.display_num;
    let mut steps: Vec<Teardown> = Vec::new();
    add_teardown_if(&mut steps, parts.cursor_hider, Teardown::StopCursorHider);
    add_teardown_if(&mut steps, parts.sound_server, Teardown::StopSoundServer);
    add_teardown_if(&mut steps, parts.desktop, Teardown::StopDesktopGroup);
    add_teardown_if(&mut steps, parts.x_server, Teardown::StopXServer);
    add_removal(&mut steps, &parts.cleanup_config);
    add_removal(&mut steps, &parts.cleanup_edid);
    steps.push(Teardown::RemoveDir(pulse_dir(n)));
    steps.push(Teardown::RemoveFile(pulse_script(n)));
    steps.push(
        Teardown::RemoveDir("/tmp/beam-keyring-".to_owned().concat(decimal_u32(n).as_str())),
    );
    steps.push(Teardown::RemoveDir(runtime_dir(n)));
    assert(teardown_view(steps@) =~= teardown_of(*parts));
    steps
}

// ---------------------------------------------------------------------------
// Laws
// ---------------------------------------------------------------------------

/// XFCE is taken where it is installed, Openbox only where XFCE is not, and without either there is
/// no desktop. A sound server that is found by its socket is reused. Only what runs is stopped, and
/// only what still runs is killed.
pub proof fn what_is_there_decides(
    xfce: bool,
    openbox: bool,
    d: Result<Desktop, String>,
    display_num: u32,
    socket: bool,
    s: Option<String>,
    state: ChildState,
    stop: StopAction,
    kill: bool,
)
    requires
        call_ensures(choose_desktop, (xfce, openbox), d),
        call_ensures(reused_pulse_server, (display_num, socket), s),
        call_ensures(stop_action, (state,), stop),
        call_ensures(must_kill, (state,), kill),
    ensures
        xfce ==> (d matches Ok(x) && x == Desktop::Xfce),
        !xfce && openbox ==> (d matches Ok(x) && x == Desktop::Openbox),
        !xfce && !openbox ==> d is Err,
        s is Some <==> socket,
        s matches Some(a) ==> a@ == "unix:/tmp/beam-pulse-"@ + decimal(display_num as nat) + "/native"@,
        stop == StopAction::Terminate <==> state == ChildState::Running,
        kill <==> state == ChildState::Running,
{
    reveal_strlit("unix:");
    reveal_strlit("/tmp/beam-pulse-");
    reveal_strlit("unix:/tmp/beam-pulse-");
    if let Some(a) = s {
        assert("unix:"@ + "/tmp/beam-pulse-"@ =~= "unix:/tmp/beam-pulse-"@);
        assert(a@ =~= "unix:/tmp/beam-pulse-"@ + decimal(display_num as nat) + "/native"@);
    }
}

/// The desktop runs on its display, with its configuration, and is told of a browser and a terminal
/// exactly where they were found.
pub proof fn desktops_are_told_of_their_programs(
    display_num: u32,
    config_dir: &str,
    browser: Option<&str>,
    terminal: Option<&str>,
    r: CommandLine,
)
    requires
        call_ensures(xfce_command, (display_num, config_dir, browser, terminal), r),
    ensures
        r@.env.contains(("DISPLAY"@, ":"@ + decimal(display_num as nat))),
        r@.env.contains(("XDG_CONFIG_HOME"@, config_dir@)),
        browser matches Some(b) ==> r@.env.contains(("BROWSER"@, b@)),
        terminal matches Some(t) ==> r@.env.contains(("TERMINAL"@, t@)),
        r@.env.len() == 7 + (if browser is Some { 1int } else { 0 }) + (if terminal is Some {
            1int
        } else {
            0
        }),
{
    assert(r@.env[0] == ("DISPLAY"@, ":"@ + decimal(display_num as nat)));
    assert(r@.env[2] == ("XDG_CONFIG_HOME"@, config_dir@));
    if let Some(b) = browser {
        assert(r@.env[7] == ("BROWSER"@, b@));
    }
    if let Some(t) = terminal {
        assert(r@.env.last() == ("TERMINAL"@, t@));
    }
}

proof fn lemma_contains_either(a: Seq<TeardownView>, b: Seq<TeardownView>, x: TeardownView)
    ensures
        (a + b).contains(x) <==> a.contains(x) || b.contains(x),
{
    if a.contains(x) {
        let i = choose|i: int| 0 <= i < a.len() && a[i] == x;
        assert((a + b)[i] == x);
    }
    if b.contains(x) {
        let i = choose|i: int| 0 <= i < b.len() && b[i] == x;
        assert((a + b)[a.len() + i] == x);
    }
}

proof fn lemma_contains_if(cond: bool, step: TeardownView, x: TeardownView)
    ensures
        step_if(cond, step).contains(x) <==> cond && x == step,
{
    if cond {
        assert(step_if(cond, step)[0] == step);
    }
}

proof fn lemma_contains_removal(path: Option<Seq<char>>, x: TeardownView)
    ensures
        removal_of(path).contains(x) <==> (path matches Some(p) && x == TeardownView::RemoveFile(p)),
{
    if let Some(p) = path {
        assert(removal_of(path)[0] == TeardownView::RemoveFile(p));
    }
}

/// The places that a display has below `/tmp`, in the order in which they go.
pub open spec fn places_of(display_num: u32) -> Seq<TeardownView> {
    let n = decimal(display_num as nat);
    seq![
        TeardownView::RemoveDir("/tmp/beam-pulse-"@ + n),
        TeardownView::RemoveFile("/tmp/beam-pulse-"@ + n + ".pa"@),
        TeardownView::RemoveDir("/tmp/beam-keyring-"@ + n),
        TeardownView::RemoveDir("/tmp/beam-run-"@ + n),
    ]
}

/// A display is taken down with just what it has: each process that was started is stopped, each
/// file of its own is removed, its four places below `/tmp` go last, and nothing else is done.
pub proof fn displays_are_taken_down(parts: &DisplayParts, r: Vec<Teardown>, x: TeardownView)
    requires
        call_ensures(teardown, (parts,), r),
    ensures
        teardown_view(r@).contains(x) <==> {
            ||| x == TeardownView::StopCursorHider && parts.cursor_hider
            ||| x == TeardownView::StopSoundServer && parts.sound_server
            ||| x == TeardownView::StopDesktopGroup && parts.desktop
            ||| x == TeardownView::StopXServer && parts.x_server
            ||| (opt_text(parts.cleanup_config) matches Some(p) && x == TeardownView::RemoveFile(p))
            ||| (opt_text(parts.cleanup_edid) matches Some(p) && x == TeardownView::RemoveFile(p))
            ||| places_of(parts.display_num).contains(x)
        },
        teardown_view(r@).len() >= 4,
        teardown_view(r@).skip(teardown_view(r@).len() - 4) == places_of(parts.display_num),
{
    let t = teardown_view(r@);
    let a = step_if(parts.cursor_hider, TeardownView::StopCursorHider);
    let b = step_if(parts.sound_server, TeardownView::StopSoundServer);
    let c = step_if(parts.desktop, TeardownView::StopDesktopGroup);
    let d = step_if(parts.x_server, TeardownView::StopXServer);
    let e = removal_of(opt_text(parts.cleanup_config));
    let f = removal_of(opt_text(parts.cleanup_edid));
    let g = places_of(parts.display_num);
    assert(t == a + b + c + d + e + f + g);
    lemma_contains_if(parts.cursor_hider, TeardownView::StopCursorHider, x);
    lemma_contains_if(parts.sound_server, TeardownView::StopSoundServer, x);
    lemma_contains_if(parts.desktop, TeardownView::StopDesktopGroup, x);
    lemma_contains_if(parts.x_server, TeardownView::StopXServer, x);
    lemma_contains_removal(opt_text(parts.cleanup_config), x);
    lemma_contains_removal(opt_text(parts.cleanup_edid), x);
    lemma_contains_either(a, b, x);
    lemma_contains_either(a + b, c, x);
    lemma_contains_either(a + b + c, d, x);
    lemma_contains_either(a + b + c + d, e, x);
    lemma_contains_either(a + b + c + d + e, f, x);
    let h = a + b + c + d + e + f;
    lemma_contains_either(h, g, x);
    assert((h + g).skip(h.len() as int) =~= g);
}

/// Each display has its own places, its own sound server and its own keyring, which are named after
/// its number, and what runs on it is told of them.
pub proof fn displays_have_places_of_their_own(
    n: u32,
    home: &str,
    address: &str,
    config_dir: &str,
    browser: Option<&str>,
    terminal: Option<&str>,
    run: String,
    dir: String,
    script: String,
    socket: String,
    server: String,
    keyring: KeyringPlan,
    xfce: CommandLine,
    openbox: CommandLine,
    background: CommandLine,
)
    requires
        call_ensures(runtime_dir, (n,), run),
        call_ensures(pulse_dir, (n,), dir),
        call_ensures(pulse_script, (n,), script),
        call_ensures(pulse_socket, (n,), socket),
        call_ensures(pulse_server, (n,), server),
        call_ensures(keyring_plan, (n, home, address), keyring),
        call_ensures(xfce_command, (n, config_dir, browser, terminal), xfce),
        call_ensures(openbox_command, (n,), openbox),
        call_ensures(background_command, (n,), background),
    ensures
        run@ == "/tmp/beam-run-"@ + decimal(n as nat),
        dir@ == "/tmp/beam-pulse-"@ + decimal(n as nat),
        script@ == "/tmp/beam-pulse-"@ + decimal(n as nat) + ".pa"@,
        socket@ == "/tmp/beam-pulse-"@ + decimal(n as nat) + "/native"@,
        server@ == "unix:"@ + socket@,
        keyring.control_dir@ == "/tmp/beam-keyring-"@ + decimal(n as nat),
        keyring.keyrings_dir@ == home@ + "/.local/share/beam/keyring"@ + "/keyrings"@,
        keyring.default_file@ == keyring.keyrings_dir@ + "/default"@,
        keyring.command@.program == "sh"@,
        keyring.command@.args == seq![
            "-c"@,
            "echo '' | gnome-keyring-daemon --foreground --unlock --components=secrets --control-directory="@
                + keyring.control_dir@,
        ],
        keyring.command@.env == seq![
            ("DISPLAY"@, ":"@ + decimal(n as nat)),
            ("DBUS_SESSION_BUS_ADDRESS"@, address@),
            ("XDG_DATA_HOME"@, home@ + "/.local/share/beam/keyring"@),
        ],
        xfce@.program == "/usr/bin/dbus-launch"@,
        xfce@.args == seq!["--exit-with-session"@, "xfce4-session"@],
        xfce@.env.take(7) == seq![
            ("DISPLAY"@, ":"@ + decimal(n as nat)),
            ("PULSE_SERVER"@, server@),
            ("XDG_CONFIG_HOME"@, config_dir@),
            ("XDG_RUNTIME_DIR"@, run@),
            ("XDG_CURRENT_DESKTOP"@, "XFCE"@),
            ("XDG_SESSION_DESKTOP"@, "xfce"@),
            ("GVFS_DISABLE_FUSE"@, "1"@),
        ],
        openbox@ == (CommandView {
            program: "openbox"@,
            args: seq![],
            env: seq![("DISPLAY"@, ":"@ + decimal(n as nat)), ("PULSE_SERVER"@, server@)],
            removed_env: seq![],
        }),
        background@ == (CommandView {
            program: "xsetroot"@,
            args: seq!["-solid"@, "#2d3436"@],
            env: seq![("DISPLAY"@, ":"@ + decimal(n as nat))],
            removed_env: seq![],
        }),
        keyring.command@.removed_env.len() == 0,
        xfce@.removed_env.len() == 0,
{
    assert(xfce@.env.take(7) =~= seq![
        ("DISPLAY"@, ":"@ + decimal(n as nat)),
        ("PULSE_SERVER"@, server@),
        ("XDG_CONFIG_HOME"@, config_dir@),
        ("XDG_RUNTIME_DIR"@, run@),
        ("XDG_CURRENT_DESKTOP"@, "XFCE"@),
        ("XDG_SESSION_DESKTOP"@, "xfce"@),
        ("GVFS_DISABLE_FUSE"@, "1"@),
    ]);
}

/// The terminal of XFCE goes before `xterm`, and there is none without either. The cursor is hidden
/// by each program that is installed, the one that disturbs no windows first. All of them run on the
/// display.
pub proof fn installed_programs_are_used(
    n: u32,
    xfce4: bool,
    xterm: bool,
    terminal: Option<CommandLine>,
    xfixes: bool,
    unclutter: bool,
    hiders: Vec<CommandLine>,
)
    requires
        call_ensures(openbox_terminal, (n, xfce4, xterm), terminal),
        call_ensures(hide_cursor, (n, xfixes, unclutter), hiders),
    ensures
        terminal is Some <==> xfce4 || xterm,
        terminal matches Some(t) ==> {
            &&& xfce4 ==> t@.program == "xfce4-terminal"@ && t@.args.len() == 0
            &&& !xfce4 ==> t@.program == "xterm"@ && t@.args == seq![
                "-geometry"@,
                "100x35+100+100"@,
                "-fa"@,
                "Monospace"@,
                "-fs"@,
                "14"@,
            ]
            &&& t@.env == seq![("DISPLAY"@, ":"@ + decimal(n as nat))]
            &&& t@.removed_env.len() == 0
        },
        hiders@.len() == (if xfixes { 1int } else { 0 }) + (if unclutter { 1int } else { 0 }),
        xfixes ==> hiders@[0]@.program == "unclutter-xfixes"@ && hiders@[0]@.args == seq![
            "--timeout"@,
            "0"@,
        ],
        unclutter ==> hiders@.last()@.program == "unclutter"@ && hiders@.last()@.args == seq![
            "-idle"@,
            "1"@,
            "-root"@,
        ],
        forall|i: int|
            0 <= i < hiders@.len() ==> (#[trigger] hiders@[i])@.env == seq![
                ("DISPLAY"@, ":"@ + decimal(n as nat)),
            ] && hiders@[i]@.removed_env.len() == 0,
{
    let v = commands_view(hiders@);
    assert(v.len() == hiders@.len());
    assert forall|i: int| 0 <= i < hiders@.len() implies (#[trigger] hiders@[i])@ == v[i] by {}
}

/// A setting is made by its channel, its property, its kind and its value, on its display, and on its
/// bus where that is known. A first session has no effects and no blinking, the dark themes, and no
/// keys that take screenshots.
pub proof fn settings_are_made_as_they_are(
    s: &Setting,
    x_display: &str,
    address: Option<&str>,
    cmd: CommandLine,
    all: Vec<Setting>,
)
    requires
        call_ensures(setting_command, (s, x_display, address), cmd),
        call_ensures(first_settings, (), all),
    ensures
        cmd@.program == "xfconf-query"@,
        cmd@.args == seq![
            "-c"@,
            s.channel@,
            "-p"@,
            s.property@,
            "-n"@,
            "-t"@,
            s.kind@,
            "-s"@,
            s.value@,
        ],
        cmd@.env[0] == ("DISPLAY"@, x_display@),
        address matches Some(a) ==> cmd@.env.len() == 2 && cmd@.env[1] == (
            "DBUS_SESSION_BUS_ADDRESS"@,
            a@,
        ),
        address is None ==> cmd@.env.len() == 1,
        all@.len() == 15,
        forall|i: int|
            0 <= i < 15 ==> {
                let t = #[trigger] all@[i];
                &&& t.kind@ == "bool"@ ==> t.value@ == "false"@
                &&& t.kind@ == "int"@ && t.channel@ == "xfwm4"@ ==> t.value@ == "100"@
                &&& t.kind@ == "int"@ && t.channel@ == "xsettings"@ ==> t.value@ == "0"@
                &&& t.channel@ == "xfce4-keyboard-shortcuts"@ ==> t.value@ == ""@
            },
        all@[9].property@ == "/Net/ThemeName"@ && all@[9].value@ == "Arc-Dark"@,
        all@[10].property@ == "/Net/IconThemeName"@ && all@[10].value@ == "Papirus-Dark"@,
        all@[11].property@ == "/general/theme"@ && all@[11].value@ == "Arc-Dark"@,
{
    let v = all@.map_values(|s: Setting| setting_view(s));
    assert(v.len() == all@.len());
    reveal_strlit("bool");
    reveal_strlit("int");
    reveal_strlit("string");
    assert("bool"@.len() == 4 && "int"@.len() == 3 && "string"@.len() == 6);
    reveal_strlit("xfwm4");
    reveal_strlit("xsettings");
    reveal_strlit("xfce4-keyboard-shortcuts");
    assert("xfwm4"@.len() == 5 && "xsettings"@.len() == 9 && "xfce4-keyboard-shortcuts"@.len() == 24);
    assert forall|i: int| 0 <= i < 15 implies setting_view(#[trigger] all@[i]) == v[i] by {}
}

proof fn lemma_regrouped(
    a: Seq<TeardownView>,
    b: Seq<TeardownView>,
    c: Seq<TeardownView>,
    d: Seq<TeardownView>,
)
    ensures
        a + b + c + d == a + (b + c + d),
{
    assert(a + b + c + d =~= a + (b + c + d));
}

proof fn lemma_removals(parts: &DisplayParts)
    ensures
        ({
            let e = removal_of(opt_text(parts.cleanup_config)) + removal_of(
                opt_text(parts.cleanup_edid),
            ) + places_of(parts.display_num);
            forall|k: int|
                0 <= k < e.len() ==> (#[trigger] e[k]) is RemoveFile || e[k] is RemoveDir
        }),
{
}

proof fn lemma_stops_in_order(parts: &DisplayParts)
    ensures
        ({
            let s = step_if(parts.cursor_hider, TeardownView::StopCursorHider) + step_if(
                parts.sound_server,
                TeardownView::StopSoundServer,
            ) + step_if(parts.desktop, TeardownView::StopDesktopGroup) + step_if(
                parts.x_server,
                TeardownView::StopXServer,
            );
            forall|i: int, j: int|
                #![trigger s[i], s[j]]
                0 <= i < j < s.len() ==> {
                    &&& s[i] is StopSoundServer ==> !(s[j] is StopCursorHider)
                    &&& s[i] is StopDesktopGroup ==> !(s[j] is StopCursorHider
                        || s[j] is StopSoundServer)
                    &&& !(s[i] is StopXServer)
                    &&& s[i] != s[j]
                }
        }),
        ({
            let s = step_if(parts.cursor_hider, TeardownView::StopCursorHider) + step_if(
                parts.sound_server,
                TeardownView::StopSoundServer,
            ) + step_if(parts.desktop, TeardownView::StopDesktopGroup) + step_if(
                parts.x_server,
                TeardownView::StopXServer,
            );
            forall|i: int|
                0 <= i < s.len() ==> !((#[trigger] s[i]) is RemoveFile) && !(s[i] is RemoveDir)
        }),
{
}

/// A display is taken down from the outside in: the cursor, the sound, the desktop, the server, and
/// at last the files.
pub proof fn displays_are_taken_down_in_order(parts: &DisplayParts, r: Vec<Teardown>, i: int, j: int)
    requires
        call_ensures(teardown, (parts,), r),
        0 <= i < j < r@.len(),
    ensures
        ({
            let a = teardown_view(r@)[i];
            let b = teardown_view(r@)[j];
            &&& a is StopSoundServer ==> !(b is StopCursorHider)
            &&& a is StopDesktopGroup ==> !(b is StopCursorHider || b is StopSoundServer)
            &&& a is StopXServer || a is RemoveFile || a is RemoveDir ==> b is RemoveFile
                || b is RemoveDir
            &&& !(a is RemoveFile || a is RemoveDir) ==> a != b
        }),
{
    let a = step_if(parts.cursor_hider, TeardownView::StopCursorHider);
    let b = step_if(parts.sound_server, TeardownView::StopSoundServer);
    let c = step_if(parts.desktop, TeardownView::StopDesktopGroup);
    let d = step_if(parts.x_server, TeardownView::StopXServer);
    let e = removal_of(opt_text(parts.cleanup_config)) + removal_of(opt_text(parts.cleanup_edid))
        + places_of(parts.display_num);
    let t = teardown_view(r@);
    let stops = a + b + c + d;
    lemma_removals(parts);
    lemma_regrouped(
        stops,
        removal_of(opt_text(parts.cleanup_config)),
        removal_of(opt_text(parts.cleanup_edid)),
        places_of(parts.display_num),
    );
    assert(t == stops + e);
    assert(t.len() == r@.len());
    lemma_stops_in_order(parts);
    if i < stops.len() {
        assert(t[i] == stops[i]);
        if j < stops.len() {
            assert(t[j] == stops[j]);
        } else {
            assert(t[j] == e[j - stops.len()]);
        }
    } else {
        assert(t[i] == e[i - stops.len()]);
        assert(t[j] == e[j - stops.len()]);
    }
}

/// Without a desktop that is installed, what to install is told.
pub proof fn missing_desktops_are_told(xfce: bool, openbox: bool, d: Result<Desktop, String>)
    requires
        call_ensures(choose_desktop, (xfce, openbox), d),
    ensures
        d is Err <==> !xfce && !openbox,
        d matches Err(e) ==> e@ == "No desktop environment found. Install xfce4 or openbox."@,
{
}

/// The sound server of a display runs by the script of that display and nothing else, keeps all that
/// it has in the display's own directory, stays when nobody listens, and knows of no message bus.
pub proof fn sound_servers_keep_to_themselves(n: u32, c: CommandLine)
    requires
        call_ensures(pulseaudio_command, (n,), c),
    ensures
        ({
            let dir = "/tmp/beam-pulse-"@ + decimal(n as nat);
            &&& c@.program == "pulseaudio"@
            &&& c@.args == seq![
                "--daemonize=no"@,
                "--exit-idle-time=-1"@,
                "-n"@,
                "-F"@,
                dir + ".pa"@,
            ]
            &&& c@.env == seq![
                ("PULSE_RUNTIME_PATH"@, dir),
                ("PULSE_STATE_PATH"@, dir),
                ("XDG_RUNTIME_DIR"@, dir),
            ]
            &&& c@.removed_env == seq!["DBUS_SESSION_BUS_ADDRESS"@]
        }),
{
}

} // verus!
