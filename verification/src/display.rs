//! The virtual X display of a session: its configuration files, the commands that start, resize
//! and watch it, and what is done when it ends.
use crate::command::{CommandLine, CommandView};
use crate::config::text_or;
use crate::launch::{display_name, display_name_of};
use crate::modeline::{generate_modeline, modeline_of};
use crate::text::{
    after_prefix, begins, contains, decimal, decimal_reads_back, decimal_u32, ends, first_word,
    first_word_of, holds, is_digit, is_white, lines, lines_of, matches_at, only, opt_text, opt_view,
    padding_is_trimmed_away, parse_i32, parse_u32, signed, starts_with, strip_prefix, text_eq, trim,
    trim_front, trim_start_matches, trimmed, unsigned, views, white, words, words_of,
};
use vstd::prelude::*;
use vstd::string::*;

verus! {

/// What a session needs of its display, whichever way that is driven.
pub trait DisplayBackend {
    /// The name of the output that is resized.
    fn output_name(&self) -> &str;

    /// Starts a desktop on the display.
    fn start_desktop(&mut self) -> Result<(), String>;

    /// Starts a sound server for the session.
    fn start_pulseaudio(&mut self) -> Result<(), String>;

    /// Hides the display's own cursor, so that only the browser's is seen.
    fn hide_cursor(&mut self);
}

// ---------------------------------------------------------------------------
// Sizes
// ---------------------------------------------------------------------------

/// One side of a display that is resized: at most `max`, where that is not 0; at least `min`,
/// which counts first; and even.
pub open spec fn clamped_side(side: u32, max: u32, min: u32) -> u32 {
    let bounded = if 0 < max < side {
        max
    } else {
        side
    };
    let usable = if bounded < min {
        min
    } else {
        bounded
    };
    (usable - usable % 2) as u32
}

/// The size that a display takes when a client asks for `w` by `h`: none where that is out of
/// the range of 320 to 7680 by 240 to 4320.
pub open spec fn clamped_size(w: u32, h: u32, max_width: u32, max_height: u32) -> Option<
    (u32, u32),
> {
    if 320 <= w <= 7680 && 240 <= h <= 4320 {
        Some((clamped_side(w, max_width, 640), clamped_side(h, max_height, 480)))
    } else {
        None
    }
}

fn clamp_side(side: u32, max: u32, min: u32) -> (r: u32)
    ensures
        r == clamped_side(side, max, min),
{
    let bounded: u32 = if max > 0 && max < side {
        max
    } else {
        side
    };
    let usable: u32 = if bounded < min {
        min
    } else {
        bounded
    };
    assert(usable & !1 == usable - usable % 2) by (bit_vector);
    usable & !1
}

/// The size that a display takes when a client asks for `w` by `h`. A maximum of 0 is none.
pub fn clamp_resize_dimensions(w: u32, h: u32, max_width: u32, max_height: u32) -> (r: Option<
    (u32, u32),
>)
    ensures
        r == clamped_size(w, h, max_width, max_height),
{
    if w < 320 || w > 7680 || h < 240 || h > 4320 {
        return None;
    }
    Some((clamp_side(w, max_width, 640), clamp_side(h, max_height, 480)))
}

/// A clamped size is even, at least 640 by 480, and no more than the client asked for or that
/// least size. It is no more than a maximum that is not below the least size.
pub proof fn clamped_sizes_fit(w: u32, h: u32, max_width: u32, max_height: u32)
    ensures
        clamped_size(w, h, max_width, max_height) matches Some((cw, ch)) ==> {
            &&& cw % 2 == 0 && ch % 2 == 0
            &&& 640 <= cw <= 7680 && 480 <= ch <= 4320
            &&& cw <= w || cw == 640
            &&& ch <= h || ch == 480
            &&& max_width >= 640 ==> cw <= max_width
            &&& max_height >= 480 ==> ch <= max_height
        },
{
}

/// A size that a display can take as it is, it takes: an even one from 640 by 480 to 7680 by 4320,
/// on no side above a limit that is set.
pub proof fn usable_sizes_are_taken(
    w: u32,
    h: u32,
    max_width: u32,
    max_height: u32,
    r: Option<(u32, u32)>,
)
    requires
        call_ensures(clamp_resize_dimensions, (w, h, max_width, max_height), r),
        w % 2 == 0,
        h % 2 == 0,
        640 <= w <= 7680,
        480 <= h <= 4320,
        max_width == 0 || w <= max_width,
        max_height == 0 || h <= max_height,
    ensures
        r == Some((w, h)),
{
}

/// Each side that a display takes is as large as it may be: no even number above it is both within
/// what was asked for and within the limit, nor within the least size. Sizes below 320 by 240 or
/// above 7680 by 4320 are refused, and no others.
pub proof fn sizes_are_as_large_as_asked_for(
    w: u32,
    h: u32,
    max_width: u32,
    max_height: u32,
    r: Option<(u32, u32)>,
)
    requires
        call_ensures(clamp_resize_dimensions, (w, h, max_width, max_height), r),
    ensures
        r is None <==> w < 320 || w > 7680 || h < 240 || h > 4320,
        r matches Some((cw, ch)) ==> {
            &&& cw % 2 == 0 && ch % 2 == 0
            &&& forall|x: int|
                x % 2 == 0 && (x <= 640 || (x <= w && (max_width == 0 || x <= max_width)))
                    ==> #[trigger] is_at_most(x, cw as int)
            &&& cw <= 640 || (cw <= w && (max_width == 0 || cw <= max_width))
            &&& forall|y: int|
                y % 2 == 0 && (y <= 480 || (y <= h && (max_height == 0 || y <= max_height)))
                    ==> #[trigger] is_at_most(y, ch as int)
            &&& ch <= 480 || (ch <= h && (max_height == 0 || ch <= max_height))
        },
{
}

/// Whether `a` is at most `b`.
pub open spec fn is_at_most(a: int, b: int) -> bool {
    a <= b
}

/// A larger window never gets a smaller display.
pub proof fn larger_windows_get_larger_displays(
    w: u32,
    h: u32,
    w2: u32,
    h2: u32,
    max_width: u32,
    max_height: u32,
)
    requires
        w <= w2,
        h <= h2,
    ensures
        clamped_size(w, h, max_width, max_height) matches Some((cw, ch)) ==> (clamped_size(
            w2,
            h2,
            max_width,
            max_height,
        ) matches Some((cw2, ch2)) ==> cw <= cw2 && ch <= ch2),
{
}

/// A size that came out of clamping stays as it is when it is clamped again.
pub proof fn clamping_is_final(w: u32, h: u32, max_width: u32, max_height: u32)
    ensures
        clamped_size(w, h, max_width, max_height) matches Some((cw, ch)) ==> clamped_size(
            cw,
            ch,
            max_width,
            max_height,
        ) == Some((cw, ch)),
{
}

// ---------------------------------------------------------------------------
// Configuration files
// ---------------------------------------------------------------------------

/// The sound server's script for a session, which gives it a silent output to record from and a
/// socket of its own in `runtime_dir`.
pub open spec fn pa_config_of(runtime_dir: Seq<char>) -> Seq<char> {
    "load-module module-null-sink sink_name=beam sink_properties=device.description=Beam\nset-default-sink beam\nload-module module-native-protocol-unix socket="@
        + runtime_dir + "/native auth-anonymous=1\nload-module module-always-sink\n"@
}

/// The sound server's script for a session.
pub fn pa_config(runtime_dir: &str) -> (r: String)
    ensures
        r@ == pa_config_of(runtime_dir@),
{
    "load-module module-null-sink sink_name=beam sink_properties=device.description=Beam\nset-default-sink beam\nload-module module-native-protocol-unix socket=".to_owned().concat(
        runtime_dir,
    ).concat("/native auth-anonymous=1\nload-module module-always-sink\n")
}

/// The NVIDIA configuration up to the bus.
pub const NVIDIA_BEFORE_BUS: &'static str =
    r#"# Beam Virtual Display - NVIDIA GPU-accelerated
# Generated dynamically by beam-agent

Section "Device"
    Identifier  "Beam NVIDIA GPU"
    Driver      "nvidia"
    BusID       ""#;

/// The NVIDIA configuration from the bus to the output.
pub const NVIDIA_BEFORE_OUTPUT: &'static str =
    r#""
    Option      "ConnectedMonitor" ""#;

/// The NVIDIA configuration from the output to the display data.
pub const NVIDIA_BEFORE_EDID: &'static str =
    r#""
    Option      "CustomEDID" ""#;

/// The rest of the NVIDIA configuration.
pub const NVIDIA_END: &'static str =
    r#""
    Option      "AllowEmptyInitialConfiguration" "True"
EndSection

Section "Monitor"
    Identifier  "Beam Monitor"
    HorizSync   1-200
    VertRefresh 1-200
EndSection

Section "Screen"
    Identifier  "Beam Screen"
    Device      "Beam NVIDIA GPU"
    Monitor     "Beam Monitor"
    DefaultDepth 24
    SubSection "Display"
        Depth   24
    EndSubSection
EndSection

Section "ServerFlags"
    Option "AutoAddDevices" "false"
    Option "AutoEnableDevices" "false"
    Option "AutoAddGPU" "false"
    Option "DontVTSwitch" "true"
EndSection

Section "ServerLayout"
    Identifier  "Beam Layout"
    Screen      "Beam Screen"
    Option "AutoAddDevices" "false"
EndSection
"#;

/// The configuration of an X display on an NVIDIA card without a monitor.
pub open spec fn nvidia_config_of(
    bus_id: Seq<char>,
    dfp_output: Seq<char>,
    edid_path: Seq<char>,
) -> Seq<char> {
    NVIDIA_BEFORE_BUS@ + bus_id + NVIDIA_BEFORE_OUTPUT@ + dfp_output + NVIDIA_BEFORE_EDID@
        + dfp_output + ":"@ + edid_path + NVIDIA_END@
}

/// The configuration of an X display on an NVIDIA card without a monitor.
pub fn generate_nvidia_xorg_config(bus_id: &str, dfp_output: &str, edid_path: &str) -> (r: String)
    ensures
        r@ == nvidia_config_of(bus_id@, dfp_output@, edid_path@),
{
    NVIDIA_BEFORE_BUS.to_owned().concat(bus_id).concat(NVIDIA_BEFORE_OUTPUT).concat(
        dfp_output,
    ).concat(NVIDIA_BEFORE_EDID).concat(dfp_output).concat(":").concat(edid_path).concat(NVIDIA_END)
}

/// The dummy configuration up to the first mode name. Its memory is enough for the largest size
/// that a display can be resized to.
pub const DUMMY_BEFORE_MODELINE: &'static str =
    r#"Section "Device"
    Identifier  "Beam Virtual GPU"
    Driver      "dummy"
    VideoRam    262144
EndSection

Section "Monitor"
    Identifier  "Beam Monitor"
    HorizSync   1-200
    VertRefresh 1-200
    Modeline    ""#;

/// The dummy configuration from the mode line to the second mode name.
pub const DUMMY_BEFORE_MODES: &'static str =
    r#"
EndSection

Section "Screen"
    Identifier  "Beam Screen"
    Device      "Beam Virtual GPU"
    Monitor     "Beam Monitor"
    DefaultDepth 24
    SubSection "Display"
        Depth   24
        Virtual 7680 4320
        Modes   ""#;

/// The rest of the dummy configuration.
pub const DUMMY_END: &'static str =
    r#""
    EndSubSection
EndSection

Section "ServerFlags"
    Option "AutoAddDevices" "false"
    Option "AutoEnableDevices" "false"
    Option "DontVTSwitch" "true"
EndSection

Section "ServerLayout"
    Identifier  "Beam Layout"
    Screen      "Beam Screen"
    Option "AutoAddDevices" "false"
EndSection
"#;

/// The name of the mode of a size.
pub open spec fn mode_name_of(width: u32, height: u32) -> Seq<char> {
    decimal(width as nat) + "x"@ + decimal(height as nat)
}

/// The name of the mode of a size.
pub fn mode_name(width: u32, height: u32) -> (r: String)
    ensures
        r@ == mode_name_of(width, height),
{
    decimal_u32(width).concat("x").concat(decimal_u32(height).as_str())
}

/// The configuration of an X display without hardware, with a mode of the given size.
pub open spec fn dummy_config_of(width: u32, height: u32) -> Seq<char> {
    DUMMY_BEFORE_MODELINE@ + mode_name_of(width, height) + "\" "@ + modeline_of(width, height, 60)
        + DUMMY_BEFORE_MODES@ + mode_name_of(width, height) + DUMMY_END@
}

/// The configuration of an X display without hardware, with a mode of the given size.
pub fn generate_xorg_config(width: u32, height: u32) -> (r: String)
    requires
        width <= u32::MAX - 160,
        height <= u32::MAX - 33,
    ensures
        r@ == dummy_config_of(width, height),
{
    let mode = mode_name(width, height);
    DUMMY_BEFORE_MODELINE.to_owned().concat(mode.as_str()).concat("\" ").concat(
        generate_modeline(width, height, 60).as_str(),
    ).concat(DUMMY_BEFORE_MODES).concat(mode.as_str()).concat(DUMMY_END)
}

/// The card that a display runs on.
pub struct GpuConfig {
    /// `nvidia` for an NVIDIA card; any other driver means a display without hardware.
    pub driver: String,
    pub bus_id: Option<String>,
    pub dfp_output: Option<String>,
}

/// How the configuration of a display is come by.
pub struct ConfigPlan {
    /// The directory to be made first.
    pub make_dir: Option<String>,
    /// Where the display data is to be written first.
    pub edid_path: Option<String>,
    pub config_path: String,
    /// What is to be written to the path; none where the file that is there is used.
    pub content: Option<String>,
}

/// The plan in mathematical terms.
pub struct ConfigPlanView {
    pub make_dir: Option<Seq<char>>,
    pub edid_path: Option<Seq<char>>,
    pub config_path: Seq<char>,
    pub content: Option<Seq<char>>,
}

impl View for ConfigPlan {
    type V = ConfigPlanView;

    open spec fn view(&self) -> ConfigPlanView {
        ConfigPlanView {
            make_dir: opt_text(self.make_dir),
            edid_path: opt_text(self.edid_path),
            config_path: self.config_path@,
            content: opt_text(self.content),
        }
    }
}

/// Where the configuration that came with the package lies.
pub open spec fn static_config_path() -> Seq<char> {
    "/etc/X11/beam-xorg.conf"@
}

/// How the configuration of a display is come by. On an NVIDIA card it is written for the card,
/// below `/etc/X11`, where a privileged server accepts it. Else the packaged one is used where it
/// exists, and one for the size is written where it does not.
pub open spec fn config_plan(
    gpu: GpuConfig,
    display_num: u32,
    width: u32,
    height: u32,
    static_exists: bool,
) -> ConfigPlanView {
    let n = decimal(display_num as nat);
    if gpu.driver@ == "nvidia"@ {
        let edid = "/etc/X11/beam/beam-edid-"@ + n + ".bin"@;
        ConfigPlanView {
            make_dir: Some("/etc/X11/beam"@),
            edid_path: Some(edid),
            config_path: "/etc/X11/beam/beam-xorg-"@ + n + ".conf"@,
            content: Some(
                nvidia_config_of(
                    text_or(gpu.bus_id, "PCI:0:0:0"@),
                    text_or(gpu.dfp_output, "DFP-1"@),
                    edid,
                ),
            ),
        }
    } else if static_exists {
        ConfigPlanView {
            make_dir: None,
            edid_path: None,
            config_path: static_config_path(),
            content: None,
        }
    } else {
        ConfigPlanView {
            make_dir: None,
            edid_path: None,
            config_path: "/tmp/beam-xorg-"@ + n + ".conf"@,
            content: Some(dummy_config_of(width, height)),
        }
    }
}

/// How the configuration of a display is come by. `static_exists` says whether the packaged
/// configuration exists.
pub fn plan_config(
    gpu: &GpuConfig,
    display_num: u32,
    width: u32,
    height: u32,
    static_exists: bool,
) -> (r: ConfigPlan)
    requires
        width <= u32::MAX - 160,
        height <= u32::MAX - 33,
    ensures
        r@ == config_plan(*gpu, display_num, width, height, static_exists),
{
    let n = decimal_u32(display_num);
    if text_eq(gpu.driver.as_str(), "nvidia") {
        let bus: &str = match &gpu.bus_id {
            Some(b) => b.as_str(),
            None => "PCI:0:0:0",
        };
        let output: &str = match &gpu.dfp_output {
            Some(o) => o.as_str(),
            None => "DFP-1",
        };
        let edid = "/etc/X11/beam/beam-edid-".to_owned().concat(n.as_str()).concat(".bin");
        let content = generate_nvidia_xorg_config(bus, output, edid.as_str());
        ConfigPlan {
            make_dir: Some("/etc/X11/beam".to_owned()),
            edid_path: Some(edid),
            config_path: "/etc/X11/beam/beam-xorg-".to_owned().concat(n.as_str()).concat(".conf"),
            content: Some(content),
        }
    } else if static_exists {
        ConfigPlan {
            make_dir: None,
            edid_path: None,
            config_path: "/etc/X11/beam-xorg.conf".to_owned(),
            content: None,
        }
    } else {
        ConfigPlan {
            make_dir: None,
            edid_path: None,
            config_path: "/tmp/beam-xorg-".to_owned().concat(n.as_str()).concat(".conf"),
            content: Some(generate_xorg_config(width, height)),
        }
    }
}

// ---------------------------------------------------------------------------
// The X server
// ---------------------------------------------------------------------------

/// The command that starts the X server. A configuration below `/etc/X11` goes to the system's
/// own starter by its relative path, which is all that a privileged server takes; any other goes
/// by its full path, and to the server's binary itself where that exists.
pub open spec fn xorg_command_of(display_num: u32, config_path: Seq<char>, binary_exists: bool)
    -> CommandView {
    let (program, config) = match after_prefix(config_path, "/etc/X11/"@) {
        Some(relative) => ("Xorg"@, relative),
        None => if binary_exists {
            ("/usr/lib/xorg/Xorg"@, config_path)
        } else {
            ("Xorg"@, config_path)
        },
    };
    CommandView {
        program,
        args: seq![
            display_name_of(display_num),
            "-config"@,
            config,
            "-noreset"@,
            "-novtswitch"@,
            "-nolisten"@,
            "tcp"@,
        ],
        env: seq![],
        removed_env: seq![],
    }
}

/// The command that starts the X server. `binary_exists` says whether `/usr/lib/xorg/Xorg` does.
pub fn xorg_command(display_num: u32, config_path: &str, binary_exists: bool) -> (r: CommandLine)
    ensures
        r@ == xorg_command_of(display_num, config_path@, binary_exists),
{
    let (program, config): (&str, &str) = match strip_prefix(config_path, "/etc/X11/") {
        Some(relative) => ("Xorg", relative),
        None => if binary_exists {
            ("/usr/lib/xorg/Xorg", config_path)
        } else {
            ("Xorg", config_path)
        },
    };
    CommandLine::new(program).arg(display_name(display_num).as_str()).arg("-config").arg(
        config,
    ).arg("-noreset").arg("-novtswitch").arg("-nolisten").arg("tcp")
}

/// The process that holds the lock of an X display, where the lock file names one.
pub open spec fn lock_holder_of(contents: Seq<char>) -> Option<int> {
    signed(trimmed(contents))
}

/// The process that holds the lock of an X display, where the lock file names one. The display
/// runs where that process exists.
pub fn lock_holder(contents: &str) -> (r: Option<i32>)
    ensures
        match r {
            Some(pid) => lock_holder_of(contents@) == Some(pid as int),
            None => lock_holder_of(contents@) is None,
        },
{
    parse_i32(trim(contents))
}

/// Whether the X server came up: it has not exited, and its display runs.
pub open spec fn startup_error(display_num: u32, exit_status: Option<Seq<char>>, runs: bool)
    -> Option<Seq<char>> {
    match exit_status {
        Some(status) => Some(
            "Xorg exited immediately with status: "@ + status + " on "@ + display_name_of(
                display_num,
            ),
        ),
        None => if runs {
            None
        } else {
            Some("Xorg failed to start on "@ + display_name_of(display_num))
        },
    }
}

/// Whether the X server came up, half a second after it was started. `exit_status` is how it
/// exited, where it has; `runs` is whether the holder of its lock exists.
pub fn check_startup(display_num: u32, exit_status: Option<&str>, runs: bool) -> (r: Result<
    (),
    String,
>)
    ensures
        match r {
            Ok(()) => startup_error(display_num, opt_view(exit_status), runs) is None,
            Err(e) => startup_error(display_num, opt_view(exit_status), runs) == Some(e@),
        },
{
    match exit_status {
        Some(status) => Err(
            "Xorg exited immediately with status: ".to_owned().concat(status).concat(" on ").concat(
                display_name(display_num).as_str(),
            ),
        ),
        None => if runs {
            Ok(())
        } else {
            Err("Xorg failed to start on ".to_owned().concat(display_name(display_num).as_str()))
        },
    }
}

/// Whether a display starts without a mode of the session's size, so that it is to be resized at
/// once: it runs on the packaged configuration.
pub fn needs_resize(config_path: &str) -> (r: bool)
    ensures
        r == (config_path@ == static_config_path()),
{
    text_eq(config_path, "/etc/X11/beam-xorg.conf")
}

/// Whether a configuration was written for the session alone, and is to be removed after it.
pub fn is_temporary(config_path: &str) -> (r: bool)
    ensures
        r == begins(config_path@, "/tmp/"@),
{
    starts_with(config_path, "/tmp/")
}

/// The command that gives a display the keyboard rules by which keys are injected.
pub open spec fn keyboard_command_of(x_display: Seq<char>) -> CommandView {
    CommandView {
        program: "setxkbmap"@,
        args: seq!["-rules"@, "evdev"@, "-model"@, "pc105"@, "-layout"@, "us"@],
        env: seq![("DISPLAY"@, x_display)],
        removed_env: seq![],
    }
}

/// The command that gives a display the keyboard rules by which keys are injected.
pub fn keyboard_command(x_display: &str) -> (r: CommandLine)
    ensures
        r@ == keyboard_command_of(x_display@),
{
    CommandLine::new("setxkbmap").env("DISPLAY", x_display).arg("-rules").arg("evdev").arg(
        "-model",
    ).arg("pc105").arg("-layout").arg("us")
}

/// The command that gives a display another keyboard layout.
pub fn layout_command(x_display: &str, layout: &str) -> (r: CommandLine)
    ensures
        r@ == (CommandView {
            program: "setxkbmap"@,
            args: seq![layout@],
            env: seq![("DISPLAY"@, x_display@)],
            removed_env: seq![],
        }),
{
    CommandLine::new("setxkbmap").arg(layout).env("DISPLAY", x_display)
}

// ---------------------------------------------------------------------------
// Resizing
// ---------------------------------------------------------------------------

/// What to do after an attempt to reach a display.
#[derive(Clone, Copy, PartialEq, Eq, Structural)]
pub enum Probe {
    /// It was reached.
    Ready,
    /// Wait 200 ms and try again.
    Wait,
    /// It is not to be reached.
    GiveUp,
}

/// How often a display is tried to be reached: for two seconds.
pub const PROBE_ATTEMPTS: u32 = 10;

/// What to do after an attempt, counted from 0, to reach a display.
pub fn after_probe(attempt: u32, reached: bool) -> (r: Probe)
    ensures
        r == if reached {
            Probe::Ready
        } else if attempt < PROBE_ATTEMPTS - 1 {
            Probe::Wait
        } else {
            Probe::GiveUp
        },
{
    if reached {
        Probe::Ready
    } else if attempt < PROBE_ATTEMPTS - 1 {
        Probe::Wait
    } else {
        Probe::GiveUp
    }
}

/// The error for a display that is not to be reached.
pub fn not_ready(x_display: &str) -> (r: String)
    ensures
        r@ == "X display "@ + x_display@ + " not ready after 2 seconds"@,
{
    "X display ".to_owned().concat(x_display).concat(" not ready after 2 seconds")
}

/// A call of `xrandr` on a display.
pub open spec fn xrandr(x_display: Seq<char>, args: Seq<Seq<char>>) -> CommandView {
    CommandView {
        program: "xrandr"@,
        args,
        env: seq![("DISPLAY"@, x_display)],
        removed_env: seq![],
    }
}

/// The command that asks whether a display is to be reached.
pub fn probe_command(x_display: &str) -> (r: CommandLine)
    ensures
        r@ == xrandr(x_display@, seq![]),
{
    CommandLine::new("xrandr").env("DISPLAY", x_display)
}

/// The command that asks for a display's outputs.
pub fn query_command(x_display: &str) -> (r: CommandLine)
    ensures
        r@ == xrandr(x_display@, seq!["--query"@]),
{
    CommandLine::new("xrandr").env("DISPLAY", x_display).arg("--query")
}

/// The commands that resize a display, to be run in their order: make the mode, add it to the
/// output, and switch to it. The first two may fail where the mode is there already.
pub struct ResizeCommands {
    pub new_mode: CommandLine,
    pub add_mode: CommandLine,
    pub switch: CommandLine,
}

/// The commands that resize a display.
pub fn resize_commands(x_display: &str, width: u32, height: u32, output_name: &str) -> (r:
    ResizeCommands)
    requires
        width <= u32::MAX - 160,
        height <= u32::MAX - 33,
    ensures
        r.new_mode@ == xrandr(
            x_display@,
            seq!["--newmode"@, mode_name_of(width, height)] + words_of(
                modeline_of(width, height, 60),
            ),
        ),
        r.add_mode@ == xrandr(
            x_display@,
            seq!["--addmode"@, output_name@, mode_name_of(width, height)],
        ),
        r.switch@ == xrandr(
            x_display@,
            seq!["--output"@, output_name@, "--mode"@, mode_name_of(width, height)],
        ),
{
    let mode = mode_name(width, height);
    let modeline = generate_modeline(width, height, 60);
    let numbers = words(modeline.as_str());
    let mut new_mode = CommandLine::new("xrandr").env("DISPLAY", x_display).arg("--newmode").arg(
        mode.as_str(),
    );
    let ghost head = seq!["--newmode"@, mode_name_of(width, height)];
    assert(head + views(numbers@).take(0) =~= head);
    for i in 0..numbers.len()
        invariant
            new_mode@ == xrandr(x_display@, head + views(numbers@).take(i as int)),
    {
        new_mode = new_mode.arg(numbers[i]);
        assert(head + views(numbers@).take(i + 1) =~= (head + views(numbers@).take(i as int)).push(
            numbers@[i as int]@,
        ));
    }
    assert(views(numbers@).take(numbers@.len() as int) =~= views(numbers@));
    ResizeCommands {
        new_mode,
        add_mode: CommandLine::new("xrandr").env("DISPLAY", x_display).arg("--addmode").arg(
            output_name,
        ).arg(mode.as_str()),
        switch: CommandLine::new("xrandr").env("DISPLAY", x_display).arg("--output").arg(
            output_name,
        ).arg("--mode").arg(mode.as_str()),
    }
}

/// Whether the failure of a step before the switch is worth a warning: it is not where the mode
/// was there already.
pub fn is_worth_a_warning(success: bool, stderr: &str) -> (r: bool)
    ensures
        r == (!success && !holds(stderr@, "already exists"@)),
{
    !success && !contains(stderr, "already exists")
}

/// What switching to the new mode comes to.
pub fn check_switch(width: u32, height: u32, success: bool, stderr: &str) -> (r: Result<(), String>)
    ensures
        match r {
            Ok(()) => success,
            Err(e) => !success && e@ == "Failed to set resolution to "@ + mode_name_of(
                width,
                height,
            ) + ": "@ + stderr@,
        },
{
    if success {
        Ok(())
    } else {
        Err(
            "Failed to set resolution to ".to_owned().concat(
                mode_name(width, height).as_str(),
            ).concat(": ").concat(stderr),
        )
    }
}

/// The first connected output among the lines that `xrandr` prints, where there is one.
pub open spec fn first_connected(lines: Seq<Seq<char>>) -> Option<Seq<char>>
    decreases lines.len(),
{
    if lines.len() == 0 {
        None
    } else if holds(lines[0], " connected"@) && first_word_of(lines[0]) is Some {
        first_word_of(lines[0])
    } else {
        first_connected(lines.skip(1))
    }
}

/// The output of a display: the first that is connected, or that of the dummy driver.
pub open spec fn connected_output_of(stdout: Seq<char>) -> Seq<char> {
    match first_connected(lines_of(stdout)) {
        Some(name) => name,
        None => "DUMMY0"@,
    }
}

/// The output of a display, by what `xrandr --query` prints: the first that is connected, or that
/// of the dummy driver.
pub fn connected_output(stdout: &str) -> (r: String)
    ensures
        r@ == connected_output_of(stdout@),
{
    let all = lines(stdout);
    let ghost seen = views(all@);
    assert(seen.skip(0) =~= seen);
    for i in 0..all.len()
        invariant
            seen == views(all@),
            seen == lines_of(stdout@),
            first_connected(seen.skip(i as int)) == first_connected(seen),
    {
        let line: &str = all[i];
        assert(seen.skip(i as int)[0] == line@);
        assert(seen.skip(i as int).skip(1) =~= seen.skip(i + 1));
        if contains(line, " connected") {
            match first_word(line) {
                Some(name) => {
                    return name.to_owned();
                },
                None => {},
            }
        }
    }
    assert(seen.skip(all@.len() as int).len() == 0);
    "DUMMY0".to_owned()
}

/// The output of a display that was not to be reached.
pub fn unknown_output() -> (r: String)
    ensures
        r@ == "DUMMY0"@,
{
    "DUMMY0".to_owned()
}

/// The number of a display by its name: what is behind its colons, where that is a number, and 10
/// where it is not.
pub fn display_number(display: &str) -> (r: u32)
    ensures
        r == match unsigned(trim_front(display@, only(':')), 0xffff_ffff) {
            Some(n) => n as u32,
            None => 10,
        },
{
    match parse_u32(trim_start_matches(display, ':')) {
        Some(n) => n,
        None => 10,
    }
}

proof fn lemma_trim_front_stops(s: Seq<char>, d: char)
    requires
        s.len() == 0 || s[0] != d,
    ensures
        trim_front(s, only(d)) == s,
{
}

/// A display's name gives its number back.
pub proof fn display_names_give_numbers(n: u32)
    ensures
        unsigned(trim_front(display_name_of(n), only(':')), 0xffff_ffff) == Some(n as nat),
{
    reveal_strlit(":");
    decimal_reads_back(n as nat);
    let d = decimal(n as nat);
    assert(display_name_of(n).skip(1) =~= d);
    assert(is_digit(d[0]));
    lemma_trim_front_stops(d, ':');
    assert(unsigned(d, 0xffff_ffff) == Some(n as nat));
}

/// A display is tried ten times; a server is up exactly where it has not exited and holds its lock;
/// a switch has worked where `xrandr` says so; and a failure before it is worth a warning unless
/// the mode was there.
pub proof fn displays_are_believed(
    attempt: u32,
    reached: bool,
    p: Probe,
    display_num: u32,
    exit: Option<&str>,
    runs: bool,
    up: Result<(), String>,
    w: u32,
    h: u32,
    success: bool,
    stderr: &str,
    s: Result<(), String>,
    warn: bool,
)
    requires
        call_ensures(after_probe, (attempt, reached), p),
        call_ensures(check_startup, (display_num, exit, runs), up),
        call_ensures(check_switch, (w, h, success, stderr), s),
        call_ensures(is_worth_a_warning, (success, stderr), warn),
    ensures
        p == Probe::Ready <==> reached,
        p == Probe::Wait <==> !reached && attempt < 9,
        p == Probe::GiveUp <==> !reached && attempt >= 9,
        up is Ok <==> exit is None && runs,
        s is Ok <==> success,
        success ==> !warn,
        !success ==> (warn <==> !holds(stderr@, "already exists"@)),
{
}

/// A configuration below `/etc/X11/` is given to the system's starter by what follows that path, and
/// any other by its full path, to the server's own binary where it exists.
pub proof fn servers_find_their_configuration(
    display_num: u32,
    path: &str,
    binary: bool,
    r: CommandLine,
    rest: Seq<char>,
)
    requires
        call_ensures(xorg_command, (display_num, path, binary), r),
    ensures
        r@.args[0] == ":"@ + decimal(display_num as nat),
        r@.args[1] == "-config"@,
        path@ == "/etc/X11/"@ + rest ==> r@.program == "Xorg"@ && r@.args[2] == rest,
        !begins(path@, "/etc/X11/"@) ==> r@.args[2] == path@ && r@.program == (if binary {
            "/usr/lib/xorg/Xorg"@
        } else {
            "Xorg"@
        }),
{
    if path@ == "/etc/X11/"@ + rest {
        let n = "/etc/X11/"@.len() as int;
        assert(path@.subrange(0, n) =~= "/etc/X11/"@);
        assert(path@.skip(n) =~= rest);
    }
}

/// A card gets its own configuration, below `/etc/X11/beam`, with the data of a monitor; any other
/// display has the packaged one, where it exists, or one of its own below `/tmp`, for its size.
pub proof fn displays_get_a_configuration(
    gpu: &GpuConfig,
    display_num: u32,
    width: u32,
    height: u32,
    packaged: bool,
    r: ConfigPlan,
    own: String,
    resize: bool,
    temporary: bool,
    path: &str,
)
    requires
        width <= u32::MAX - 160,
        height <= u32::MAX - 33,
        call_ensures(plan_config, (gpu, display_num, width, height, packaged), r),
        call_ensures(generate_xorg_config, (width, height), own),
        path@ == r.config_path@,
        call_ensures(needs_resize, (path,), resize),
        call_ensures(is_temporary, (path,), temporary),
    ensures
        gpu.driver@ == "nvidia"@ ==> {
            &&& r.edid_path is Some && r.make_dir is Some && r.content is Some
            &&& r.config_path@ == "/etc/X11/beam/beam-xorg-"@ + decimal(display_num as nat) + ".conf"@
        },
        gpu.driver@ != "nvidia"@ ==> r.edid_path is None && r.make_dir is None && (r.content is Some
            <==> !packaged),
        gpu.driver@ != "nvidia"@ && packaged ==> resize,
        gpu.driver@ != "nvidia"@ && !packaged ==> r.content->0@ == own@ && temporary && r.config_path@
            == "/tmp/beam-xorg-"@ + decimal(display_num as nat) + ".conf"@,
        resize <==> r.config_path@ == "/etc/X11/beam-xorg.conf"@,
        temporary <==> begins(r.config_path@, "/tmp/"@),
{
    reveal_strlit("/tmp/");
    reveal_strlit("/tmp/beam-xorg-");
    if gpu.driver@ != "nvidia"@ && !packaged {
        assert(r.config_path@.subrange(0, 5) =~= "/tmp/"@);
    }
}

/// The output of a display is the first word of the first line that says that it is connected, and
/// that of the dummy driver where none does.
pub proof fn first_connected_outputs_count(stdout: &str, r: String, k: int)
    requires
        call_ensures(connected_output, (stdout,), r),
    ensures
        ({
            let lines = lines_of(stdout@);
            &&& (forall|i: int| 0 <= i < lines.len() ==> !names_an_output(#[trigger] lines[i])) ==> r@
                == "DUMMY0"@
            &&& 0 <= k < lines.len() && names_an_output(lines[k]) && (forall|i: int|
                0 <= i < k ==> !names_an_output(#[trigger] lines[i])) ==> Some(r@) == first_word_of(
                lines[k],
            )
        }),
{
    let lines = lines_of(stdout@);
    if forall|i: int| 0 <= i < lines.len() ==> !names_an_output(#[trigger] lines[i]) {
        lemma_none_connected(lines);
    }
    if 0 <= k < lines.len() && names_an_output(lines[k]) && (forall|i: int|
        0 <= i < k ==> !names_an_output(#[trigger] lines[i])) {
        lemma_connected_at(lines, k);
    }
}

/// Whether a line says that an output is connected.
pub open spec fn names_an_output(line: Seq<char>) -> bool {
    holds(line, " connected"@) && first_word_of(line) is Some
}

proof fn lemma_none_connected(lines: Seq<Seq<char>>)
    requires
        forall|i: int| 0 <= i < lines.len() ==> !names_an_output(#[trigger] lines[i]),
    ensures
        first_connected(lines) is None,
    decreases lines.len(),
{
    if lines.len() > 0 {
        assert(!names_an_output(lines[0]));
        let rest = lines.skip(1);
        assert forall|i: int| 0 <= i < rest.len() implies !names_an_output(#[trigger] rest[i]) by {
            assert(rest[i] == lines[i + 1]);
        }
        lemma_none_connected(rest);
    }
}

proof fn lemma_connected_at(lines: Seq<Seq<char>>, k: int)
    requires
        0 <= k < lines.len(),
        names_an_output(lines[k]),
        forall|i: int| 0 <= i < k ==> !names_an_output(#[trigger] lines[i]),
    ensures
        first_connected(lines) == first_word_of(lines[k]),
    decreases k,
{
    if k > 0 {
        assert(!names_an_output(lines[0]));
        let rest = lines.skip(1);
        assert forall|i: int| 0 <= i < k - 1 implies !names_an_output(#[trigger] rest[i]) by {
            assert(rest[i] == lines[i + 1]);
        }
        lemma_connected_at(rest, k - 1);
    }
}

/// A display's name gives its number, and a lock names its holder, whatever white space is around the
/// number.
pub proof fn names_and_locks_are_read(
    name: &str,
    n: u32,
    number: u32,
    contents: &str,
    before: Seq<char>,
    after: Seq<char>,
    holder: Option<i32>,
)
    requires
        call_ensures(display_number, (name,), number),
        call_ensures(lock_holder, (contents,), holder),
        forall|i: int| 0 <= i < before.len() ==> is_white(#[trigger] before[i]),
        forall|i: int| 0 <= i < after.len() ==> is_white(#[trigger] after[i]),
    ensures
        name@ == ":"@ + decimal(n as nat) ==> number == n,
        n <= 0x7fff_ffff && contents@ == before + decimal(n as nat) + after ==> holder == Some(n as i32),
{
    display_names_give_numbers(n);
    decimal_reads_back(n as nat);
    let d = decimal(n as nat);
    if n <= 0x7fff_ffff && contents@ == before + d + after {
        assert(is_digit(d[0]) && is_digit(d.last()));
        assert(!is_white(d[0]) && !is_white(d.last()));
        padding_is_trimmed_away(before, d, after, white());
        assert(signed(d) == Some(n as int));
    }
}

/// The script of a sound server has its socket in the directory that it is given.
pub proof fn scripts_name_their_socket(dir: &str, r: String)
    requires
        call_ensures(pa_config, (dir,), r),
    ensures
        holds(r@, "socket="@ + dir@ + "/native"@),
{
    reveal_strlit("load-module module-null-sink sink_name=beam sink_properties=device.description=Beam\nset-default-sink beam\nload-module module-native-protocol-unix socket=");
    reveal_strlit("/native auth-anonymous=1\nload-module module-always-sink\n");
    reveal_strlit("socket=");
    reveal_strlit("/native");
    let head = "load-module module-null-sink sink_name=beam sink_properties=device.description=Beam\nset-default-sink beam\nload-module module-native-protocol-unix socket="@;
    let n = head.len() - 7;
    assert(head.skip(n as int) =~= "socket="@);
    assert(r@.subrange(n as int, n + 7 + dir@.len() + 7) =~= "socket="@ + dir@ + "/native"@);
    assert(matches_at(r@, "socket="@ + dir@ + "/native"@, n as int));
}

/// The configuration of a display without hardware has the dummy driver with memory for the largest
/// size, and no input devices; the mode of the size is made, at sixty frames, and chosen.
pub proof fn displays_without_hardware_have_one_mode(width: u32, height: u32, r: String, line: String)
    requires
        width <= u32::MAX - 160,
        height <= u32::MAX - 33,
        call_ensures(generate_xorg_config, (width, height), r),
        call_ensures(generate_modeline, (width, height, 60), line),
    ensures
        ({
            let mode = decimal(width as nat) + "x"@ + decimal(height as nat);
            r@ == DUMMY_BEFORE_MODELINE@ + mode + "\" "@ + line@ + DUMMY_BEFORE_MODES@ + mode
                + DUMMY_END@
        }),
        holds(DUMMY_BEFORE_MODELINE@, r#"Driver      "dummy"
    VideoRam    262144"#@),
        holds(DUMMY_BEFORE_MODELINE@, r#"HorizSync   1-200
    VertRefresh 1-200"#@),
        holds(DUMMY_BEFORE_MODES@, r#"DefaultDepth 24"#@),
        holds(DUMMY_BEFORE_MODES@, r#"Depth   24
        Virtual 7680 4320"#@),
        holds(DUMMY_END@, r#"Option "AutoAddDevices" "false"
    Option "AutoEnableDevices" "false"
    Option "DontVTSwitch" "true"
EndSection"#@),
        holds(DUMMY_END@, r#"Screen      "Beam Screen"
    Option "AutoAddDevices" "false""#@),
        ends(DUMMY_BEFORE_MODELINE@, r#"Modeline    ""#@),
        ends(DUMMY_BEFORE_MODES@, r#"Modes   ""#@),
{
    reveal_strlit(r#"Section "Device"
    Identifier  "Beam Virtual GPU"
    Driver      "dummy"
    VideoRam    262144
EndSection

Section "Monitor"
    Identifier  "Beam Monitor"
    HorizSync   1-200
    VertRefresh 1-200
    Modeline    ""#);
    reveal_strlit(r#"Driver      "dummy"
    VideoRam    262144"#);
    assert(DUMMY_BEFORE_MODELINE@.subrange(56, 98) =~= r#"Driver      "dummy"
    VideoRam    262144"#@);
    assert(matches_at(DUMMY_BEFORE_MODELINE@, r#"Driver      "dummy"
    VideoRam    262144"#@, 56));
    reveal_strlit(r#"HorizSync   1-200
    VertRefresh 1-200"#);
    assert(DUMMY_BEFORE_MODELINE@.subrange(164, 203) =~= r#"HorizSync   1-200
    VertRefresh 1-200"#@);
    assert(matches_at(DUMMY_BEFORE_MODELINE@, r#"HorizSync   1-200
    VertRefresh 1-200"#@, 164));
    reveal_strlit(r#"
EndSection

Section "Screen"
    Identifier  "Beam Screen"
    Device      "Beam Virtual GPU"
    Monitor     "Beam Monitor"
    DefaultDepth 24
    SubSection "Display"
        Depth   24
        Virtual 7680 4320
        Modes   ""#);
    reveal_strlit(r#"DefaultDepth 24"#);
    assert(DUMMY_BEFORE_MODES@.subrange(130, 145) =~= r#"DefaultDepth 24"#@);
    assert(matches_at(DUMMY_BEFORE_MODES@, r#"DefaultDepth 24"#@, 130));
    reveal_strlit(r#"Depth   24
        Virtual 7680 4320"#);
    assert(DUMMY_BEFORE_MODES@.subrange(179, 215) =~= r#"Depth   24
        Virtual 7680 4320"#@);
    assert(matches_at(DUMMY_BEFORE_MODES@, r#"Depth   24
        Virtual 7680 4320"#@, 179));
    reveal_strlit(r#""
    EndSubSection
EndSection

Section "ServerFlags"
    Option "AutoAddDevices" "false"
    Option "AutoEnableDevices" "false"
    Option "DontVTSwitch" "true"
EndSection

Section "ServerLayout"
    Identifier  "Beam Layout"
    Screen      "Beam Screen"
    Option "AutoAddDevices" "false"
EndSection
"#);
    reveal_strlit(r#"Option "AutoAddDevices" "false"
    Option "AutoEnableDevices" "false"
    Option "DontVTSwitch" "true"
EndSection"#);
    assert(DUMMY_END@.subrange(58, 172) =~= r#"Option "AutoAddDevices" "false"
    Option "AutoEnableDevices" "false"
    Option "DontVTSwitch" "true"
EndSection"#@);
    assert(matches_at(DUMMY_END@, r#"Option "AutoAddDevices" "false"
    Option "AutoEnableDevices" "false"
    Option "DontVTSwitch" "true"
EndSection"#@, 58));
    reveal_strlit(r#"Screen      "Beam Screen"
    Option "AutoAddDevices" "false""#);
    assert(DUMMY_END@.subrange(231, 292) =~= r#"Screen      "Beam Screen"
    Option "AutoAddDevices" "false""#@);
    assert(matches_at(DUMMY_END@, r#"Screen      "Beam Screen"
    Option "AutoAddDevices" "false""#@, 231));
    reveal_strlit(r#"Modeline    ""#);
    assert(DUMMY_BEFORE_MODELINE@.subrange(208, 221) =~= r#"Modeline    ""#@);
    reveal_strlit(r#"Modes   ""#);
    assert(DUMMY_BEFORE_MODES@.subrange(224, 233) =~= r#"Modes   ""#@);
}

/// The configuration of a display on a card names the card by its bus, the output that is taken for
/// connected, and the data of the monitor that is taken to be there.
pub proof fn cards_get_a_monitor(bus: &str, output: &str, edid: &str, r: String)
    requires
        call_ensures(generate_nvidia_xorg_config, (bus, output, edid), r),
    ensures
        r@ == NVIDIA_BEFORE_BUS@ + bus@ + r#""
    Option      "ConnectedMonitor" ""#@ + output@ + r#""
    Option      "CustomEDID" ""#@ + output@ + ":"@ + edid@
            + NVIDIA_END@,
        holds(NVIDIA_BEFORE_BUS@, r#"Driver      "nvidia""#@),
        holds(NVIDIA_END@, r#"Option      "AllowEmptyInitialConfiguration" "True""#@),
        holds(NVIDIA_END@, r#"HorizSync   1-200
    VertRefresh 1-200"#@),
        holds(NVIDIA_END@, r#"DefaultDepth 24
    SubSection "Display"
        Depth   24
    EndSubSection"#@),
        holds(NVIDIA_END@, r#"Option "AutoAddDevices" "false"
    Option "AutoEnableDevices" "false"
    Option "AutoAddGPU" "false"
    Option "DontVTSwitch" "true"
EndSection"#@),
        holds(NVIDIA_END@, r#"Screen      "Beam Screen"
    Option "AutoAddDevices" "false""#@),
        ends(NVIDIA_BEFORE_BUS@, r#"BusID       ""#@),
{
    reveal_strlit(r#"# Beam Virtual Display - NVIDIA GPU-accelerated
# Generated dynamically by beam-agent

Section "Device"
    Identifier  "Beam NVIDIA GPU"
    Driver      "nvidia"
    BusID       ""#);
    reveal_strlit(r#"Driver      "nvidia""#);
    assert(NVIDIA_BEFORE_BUS@.subrange(142, 162) =~= r#"Driver      "nvidia""#@);
    assert(matches_at(NVIDIA_BEFORE_BUS@, r#"Driver      "nvidia""#@, 142));
    reveal_strlit(r#""
    Option      "AllowEmptyInitialConfiguration" "True"
EndSection

Section "Monitor"
    Identifier  "Beam Monitor"
    HorizSync   1-200
    VertRefresh 1-200
EndSection

Section "Screen"
    Identifier  "Beam Screen"
    Device      "Beam NVIDIA GPU"
    Monitor     "Beam Monitor"
    DefaultDepth 24
    SubSection "Display"
        Depth   24
    EndSubSection
EndSection

Section "ServerFlags"
    Option "AutoAddDevices" "false"
    Option "AutoEnableDevices" "false"
    Option "AutoAddGPU" "false"
    Option "DontVTSwitch" "true"
EndSection

Section "ServerLayout"
    Identifier  "Beam Layout"
    Screen      "Beam Screen"
    Option "AutoAddDevices" "false"
EndSection
"#);
    reveal_strlit(r#"Option      "AllowEmptyInitialConfiguration" "True""#);
    assert(NVIDIA_END@.subrange(6, 57) =~= r#"Option      "AllowEmptyInitialConfiguration" "True""#@);
    assert(matches_at(NVIDIA_END@, r#"Option      "AllowEmptyInitialConfiguration" "True""#@, 6));
    reveal_strlit(r#"HorizSync   1-200
    VertRefresh 1-200"#);
    assert(NVIDIA_END@.subrange(123, 162) =~= r#"HorizSync   1-200
    VertRefresh 1-200"#@);
    assert(matches_at(NVIDIA_END@, r#"HorizSync   1-200
    VertRefresh 1-200"#@, 123));
    reveal_strlit(r#"DefaultDepth 24
    SubSection "Display"
        Depth   24
    EndSubSection"#);
    assert(NVIDIA_END@.subrange(291, 368) =~= r#"DefaultDepth 24
    SubSection "Display"
        Depth   24
    EndSubSection"#@);
    assert(matches_at(NVIDIA_END@, r#"DefaultDepth 24
    SubSection "Display"
        Depth   24
    EndSubSection"#@, 291));
    reveal_strlit(r#"Option "AutoAddDevices" "false"
    Option "AutoEnableDevices" "false"
    Option "AutoAddGPU" "false"
    Option "DontVTSwitch" "true"
EndSection"#);
    assert(NVIDIA_END@.subrange(407, 553) =~= r#"Option "AutoAddDevices" "false"
    Option "AutoEnableDevices" "false"
    Option "AutoAddGPU" "false"
    Option "DontVTSwitch" "true"
EndSection"#@);
    assert(matches_at(NVIDIA_END@, r#"Option "AutoAddDevices" "false"
    Option "AutoEnableDevices" "false"
    Option "AutoAddGPU" "false"
    Option "DontVTSwitch" "true"
EndSection"#@, 407));
    reveal_strlit(r#"Screen      "Beam Screen"
    Option "AutoAddDevices" "false""#);
    assert(NVIDIA_END@.subrange(612, 673) =~= r#"Screen      "Beam Screen"
    Option "AutoAddDevices" "false""#@);
    assert(matches_at(NVIDIA_END@, r#"Screen      "Beam Screen"
    Option "AutoAddDevices" "false""#@, 612));
    reveal_strlit(r#"BusID       ""#);
    assert(NVIDIA_BEFORE_BUS@.subrange(167, 180) =~= r#"BusID       ""#@);
}

/// A card is found by its bus and its output, by the first of each where they are not set, and has
/// its files in the one directory that is made for them.
pub proof fn cards_have_their_files(
    gpu: &GpuConfig,
    display_num: u32,
    width: u32,
    height: u32,
    packaged: bool,
    r: ConfigPlan,
    bus: &str,
    output: &str,
    edid: &str,
    content: String,
)
    requires
        width <= u32::MAX - 160,
        height <= u32::MAX - 33,
        gpu.driver@ == "nvidia"@,
        call_ensures(plan_config, (gpu, display_num, width, height, packaged), r),
        gpu.bus_id matches Some(b) ==> bus@ == b@,
        gpu.bus_id is None ==> bus@ == "PCI:0:0:0"@,
        gpu.dfp_output matches Some(o) ==> output@ == o@,
        gpu.dfp_output is None ==> output@ == "DFP-1"@,
        edid@ == "/etc/X11/beam/beam-edid-"@ + decimal(display_num as nat) + ".bin"@,
        call_ensures(generate_nvidia_xorg_config, (bus, output, edid), content),
    ensures
        r.make_dir matches Some(d) && d@ == "/etc/X11/beam"@,
        r.edid_path matches Some(p) && p@ == edid@,
        r.content matches Some(t) && t@ == content@,
{
}

/// The commands on a display are the ones of its size, its output and its layout, and they all run on
/// it. A mode is made by the numbers of its mode line at sixty frames.
pub proof fn displays_are_commanded_by_name(
    x_display: &str,
    width: u32,
    height: u32,
    output: &str,
    layout: &str,
    mode: String,
    keyboard: CommandLine,
    other: CommandLine,
    probe: CommandLine,
    query: CommandLine,
    resize: ResizeCommands,
    line: String,
    l: &str,
    numbers: Vec<&str>,
    late: String,
    unknown: String,
)
    requires
        width <= u32::MAX - 160,
        height <= u32::MAX - 33,
        call_ensures(mode_name, (width, height), mode),
        call_ensures(keyboard_command, (x_display,), keyboard),
        call_ensures(layout_command, (x_display, layout), other),
        call_ensures(probe_command, (x_display,), probe),
        call_ensures(query_command, (x_display,), query),
        call_ensures(resize_commands, (x_display, width, height, output), resize),
        call_ensures(generate_modeline, (width, height, 60), line),
        l@ == line@,
        call_ensures(words, (l,), numbers),
        call_ensures(not_ready, (x_display,), late),
        call_ensures(unknown_output, (), unknown),
    ensures
        mode@ == decimal(width as nat) + "x"@ + decimal(height as nat),
        keyboard@.program == "setxkbmap"@,
        keyboard@.args == seq!["-rules"@, "evdev"@, "-model"@, "pc105"@, "-layout"@, "us"@],
        other@.program == "setxkbmap"@,
        other@.args == seq![layout@],
        probe@.program == "xrandr"@,
        probe@.args.len() == 0,
        query@.program == "xrandr"@,
        query@.args == seq!["--query"@],
        resize.new_mode@.args == seq!["--newmode"@, mode@] + views(numbers@),
        resize.add_mode@.args == seq!["--addmode"@, output@, mode@],
        resize.switch@.args == seq!["--output"@, output@, "--mode"@, mode@],
        resize.new_mode@.program == "xrandr"@ && resize.add_mode@.program == "xrandr"@,
        resize.switch@.program == "xrandr"@,
        late@ == "X display "@ + x_display@ + " not ready after 2 seconds"@,
        unknown@ == "DUMMY0"@,
        ({
            let env = seq![("DISPLAY"@, x_display@)];
            &&& keyboard@.env == env && other@.env == env && probe@.env == env && query@.env == env
            &&& resize.new_mode@.env == env && resize.add_mode@.env == env
            &&& resize.switch@.env == env
        }),
{
}

/// A server neither resets, nor switches terminals, nor listens to the network, and a start that
/// fails is reported with the display, and with the status where there is one.
pub proof fn servers_keep_to_themselves(
    display_num: u32,
    path: &str,
    binary: bool,
    r: CommandLine,
    exit: Option<&str>,
    runs: bool,
    up: Result<(), String>,
    w: u32,
    h: u32,
    success: bool,
    stderr: &str,
    s: Result<(), String>,
)
    requires
        call_ensures(xorg_command, (display_num, path, binary), r),
        call_ensures(check_startup, (display_num, exit, runs), up),
        call_ensures(check_switch, (w, h, success, stderr), s),
    ensures
        r@.args.len() == 7,
        r@.args.skip(3) == seq!["-noreset"@, "-novtswitch"@, "-nolisten"@, "tcp"@],
        r@.env.len() == 0 && r@.removed_env.len() == 0,
        exit matches Some(status) ==> (up matches Err(e) && e@
            == "Xorg exited immediately with status: "@ + status@ + " on "@ + (":"@ + decimal(
            display_num as nat,
        ))),
        exit is None && !runs ==> (up matches Err(e) && e@ == "Xorg failed to start on "@ + (":"@
            + decimal(display_num as nat))),
        !success ==> (s matches Err(e) && e@ == "Failed to set resolution to "@ + (decimal(w as nat)
            + "x"@ + decimal(h as nat)) + ": "@ + stderr@),
{
    assert(r@.args.skip(3) =~= seq!["-noreset"@, "-novtswitch"@, "-nolisten"@, "tcp"@]);
}

/// The script of a sound server has a sink of the session's own, which is the default, and its socket
/// in the directory that it is given.
pub proof fn scripts_have_one_sink(dir: &str, r: String)
    requires
        call_ensures(pa_config, (dir,), r),
    ensures
        r@ == "load-module module-null-sink sink_name=beam sink_properties=device.description=Beam\nset-default-sink beam\nload-module module-native-protocol-unix socket="@
            + dir@ + "/native auth-anonymous=1\nload-module module-always-sink\n"@,
{
}

/// The number of a display is what its name is read as behind its colons, and 10 where that is no
/// number. The holder of a lock is what its contents are read as without the white space around them.
pub proof fn names_and_locks_are_read_as_numbers(
    name: &str,
    rest: &str,
    n: Option<u32>,
    number: u32,
    contents: &str,
    text: &str,
    pid: Option<i32>,
    holder: Option<i32>,
)
    requires
        call_ensures(display_number, (name,), number),
        call_ensures(trim_start_matches, (name, ':'), rest),
        call_ensures(parse_u32, (rest,), n),
        call_ensures(lock_holder, (contents,), holder),
        call_ensures(trim, (contents,), text),
        call_ensures(parse_i32, (text,), pid),
    ensures
        n matches Some(k) ==> number == k,
        n is None ==> number == 10,
        holder == pid,
{
}

} // verus!
