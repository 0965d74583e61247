//! The headless Wayland compositor of a session, with the bus and the portals around it: how they
//! are started one after the other, and how they are stopped.
use crate::command::{CommandLine, CommandView, bare};
use crate::desktop::ChildState;
use crate::text::{
    begins, decimal, decimal_u32, ends, ends_with, is_white, opt_text, runs, starts_with, text_eq,
    views, white, words, words_of,
};
use vstd::prelude::*;
use vstd::string::*;

verus! {

/// What a Wayland display is started with. The compositor settles the size with its clients; it is
/// kept for the recording.
pub struct WaylandDisplayConfig {
    pub display_num: u32,
    pub width: u32,
    pub height: u32,
}

/// A process of a Wayland session.
#[derive(Clone, Copy, PartialEq, Eq, Structural)]
pub enum Child {
    Compositor,
    /// The message bus of the session alone.
    Bus,
    /// The portal that knows how to record the compositor.
    PortalBackend,
    /// The portal that clients talk to.
    Portal,
    Desktop,
    SoundServer,
}

// ---------------------------------------------------------------------------
// Names
// ---------------------------------------------------------------------------

/// The socket name that a compositor is asked to use.
pub open spec fn wanted_socket_of(display_num: u32) -> Seq<char> {
    "wayland-beam-"@ + decimal(display_num as nat)
}

/// The runtime directory of a Wayland session.
pub open spec fn xdg_dir_of(display_num: u32) -> Seq<char> {
    "/tmp/beam-xdg-"@ + decimal(display_num as nat)
}

/// The runtime directory of a Wayland session.
pub fn xdg_dir(display_num: u32) -> (r: String)
    ensures
        r@ == xdg_dir_of(display_num),
{
    "/tmp/beam-xdg-".to_owned().concat(decimal_u32(display_num).as_str())
}

/// The output name of a Wayland session.
pub fn wayland_output_name(display_num: u32) -> (r: String)
    ensures
        r@ == "WAYLAND-"@ + decimal(display_num as nat),
{
    "WAYLAND-".to_owned().concat(decimal_u32(display_num).as_str())
}

/// The socket of a session's bus.
pub open spec fn bus_socket_of(display_num: u32) -> Seq<char> {
    xdg_dir_of(display_num) + "/bus"@
}

/// The address of a session's bus.
pub open spec fn bus_address_of(display_num: u32) -> Seq<char> {
    "unix:path="@ + bus_socket_of(display_num)
}

fn bus_socket(display_num: u32) -> (r: String)
    ensures
        r@ == bus_socket_of(display_num),
{
    xdg_dir(display_num).concat("/bus")
}

fn bus_addr(display_num: u32) -> (r: String)
    ensures
        r@ == bus_address_of(display_num),
{
    "unix:path=".to_owned().concat(bus_socket(display_num).as_str())
}

/// Whether a file is the socket of a compositor: a socket of that name which is not a lock.
pub open spec fn is_wayland_socket(name: Seq<char>, is_socket: bool) -> bool {
    begins(name, "wayland-"@) && !ends(name, ".lock"@) && is_socket
}

/// A file of a directory.
pub struct DirEntry {
    pub name: String,
    pub is_socket: bool,
}

/// The first of the files that is the socket of a compositor.
pub open spec fn socket_in(entries: Seq<DirEntry>) -> Option<Seq<char>>
    decreases entries.len(),
{
    if entries.len() == 0 {
        None
    } else if is_wayland_socket(entries[0].name@, entries[0].is_socket) {
        Some(entries[0].name@)
    } else {
        socket_in(entries.skip(1))
    }
}

/// The socket of a compositor among the files of its runtime directory. Its name is up to the
/// compositor, which need not use the one that it was asked to.
pub fn scan_for_wayland_socket(entries: &Vec<DirEntry>) -> (r: Option<String>)
    ensures
        opt_text(r) == socket_in(entries@),
{
    assert(entries@.skip(0) =~= entries@);
    for i in 0..entries.len()
        invariant
            socket_in(entries@.skip(i as int)) == socket_in(entries@),
    {
        let e = &entries[i];
        assert(entries@.skip(i as int).skip(1) =~= entries@.skip(i + 1));
        if starts_with(e.name.as_str(), "wayland-") && !ends_with(e.name.as_str(), ".lock")
            && e.is_socket {
            return Some(e.name.clone());
        }
    }
    assert(entries@.skip(entries@.len() as int).len() == 0);
    None
}

// ---------------------------------------------------------------------------
// Starting
// ---------------------------------------------------------------------------

/// How far the start of a Wayland session is.
#[derive(Clone, Copy, PartialEq, Eq, Structural)]
pub enum Phase {
    /// The runtime directory is to be made.
    MakeDir,
    /// The runtime directory is to be closed to others.
    MakePrivate,
    /// The user's media server is to be linked into it.
    LinkMedia,
    SpawnCompositor,
    /// The compositor's socket is to appear.
    AwaitCompositor,
    SpawnBus,
    /// The bus's socket is to appear.
    AwaitBus,
    SpawnBackend,
    SpawnPortal,
    /// The portal is to answer on the bus.
    AwaitPortal,
    Ready,
    Failed,
}

/// The start of a Wayland session.
pub struct Startup {
    display_num: u32,
    width: u32,
    height: u32,
    /// The compositor that was chosen.
    compositor: String,
    phase: Phase,
    /// The socket of the compositor, once it is known.
    socket: String,
}

/// The start in mathematical terms.
pub struct StartupView {
    pub display_num: u32,
    pub width: u32,
    pub height: u32,
    pub compositor: Seq<char>,
    pub phase: Phase,
    pub socket: Seq<char>,
}

impl View for Startup {
    type V = StartupView;

    closed spec fn view(&self) -> StartupView {
        StartupView {
            display_num: self.display_num,
            width: self.width,
            height: self.height,
            compositor: self.compositor@,
            phase: self.phase,
            socket: self.socket@,
        }
    }
}

/// What came of the last step.
pub enum Event {
    /// The step was done.
    Done,
    /// The step failed, or what was awaited did not come in time.
    Failed,
    /// The runtime directory was looked at, while the compositor's socket is awaited.
    Polled {
        /// The compositor's socket.
        socket: Option<String>,
        /// How the compositor exited, where it has.
        exit_status: Option<String>,
        /// Five seconds have passed.
        timed_out: bool,
    },
}

/// What is to be done next.
pub enum Action {
    MakeDir(String),
    MakePrivate(String),
    /// Link the media socket of the user to this path, where it exists; that it fails does not
    /// matter.
    LinkMedia(String),
    Spawn(Child, CommandLine),
    /// Look at the directory for the compositor's socket, and at the compositor.
    Poll(String),
    /// Wait up to 3 s for a file.
    AwaitFile(String),
    /// Wait up to 5 s for the command to succeed.
    AwaitCommand(CommandLine),
    Nothing,
}

/// What an event leads to.
pub enum Progress {
    /// Go on with the next step.
    Continue,
    /// Look again after 100 ms.
    Pause,
    /// The session is up.
    Ready,
    /// The start has failed: kill these processes, and report this.
    Fail { kill: Vec<Child>, error: String },
}

/// The processes that run in a phase, in the order in which they were started.
pub open spec fn running(phase: Phase) -> Seq<Child> {
    match phase {
        Phase::AwaitCompositor | Phase::SpawnBus => seq![Child::Compositor],
        Phase::AwaitBus | Phase::SpawnBackend => seq![Child::Compositor, Child::Bus],
        Phase::SpawnPortal => seq![Child::Compositor, Child::Bus, Child::PortalBackend],
        Phase::AwaitPortal | Phase::Ready => seq![
            Child::Compositor,
            Child::Bus,
            Child::PortalBackend,
            Child::Portal,
        ],
        _ => seq![],
    }
}

/// Whether an event can follow a phase: the directory is looked at while the compositor's socket
/// is awaited, and then only.
pub open spec fn fits(phase: Phase, e: Event) -> bool {
    (e is Polled) == (phase == Phase::AwaitCompositor)
}

/// Whether a compositor is known.
pub open spec fn is_compositor(name: Seq<char>) -> bool {
    name == "cage"@ || name == "sway"@
}

/// The phase that follows one whose step was done.
pub open spec fn following(phase: Phase) -> Phase {
    match phase {
        Phase::MakeDir => Phase::MakePrivate,
        Phase::MakePrivate => Phase::LinkMedia,
        Phase::LinkMedia => Phase::SpawnCompositor,
        Phase::SpawnCompositor => Phase::AwaitCompositor,
        Phase::AwaitCompositor => Phase::SpawnBus,
        Phase::SpawnBus => Phase::AwaitBus,
        Phase::AwaitBus => Phase::SpawnBackend,
        Phase::SpawnBackend => Phase::SpawnPortal,
        Phase::SpawnPortal => Phase::AwaitPortal,
        Phase::AwaitPortal => Phase::Ready,
        Phase::Ready => Phase::Ready,
        Phase::Failed => Phase::Failed,
    }
}

/// What is reported when the step of a phase fails.
pub open spec fn step_error(s: StartupView) -> Seq<char> {
    match s.phase {
        Phase::MakeDir => "failed to create XDG_RUNTIME_DIR "@ + xdg_dir_of(s.display_num),
        Phase::MakePrivate => "failed to chmod 0700 XDG_RUNTIME_DIR "@ + xdg_dir_of(s.display_num),
        Phase::SpawnCompositor => "failed to spawn `"@ + s.compositor + "`"@,
        Phase::SpawnBus =>
            "failed to spawn dbus-daemon for Wayland session (install `dbus-daemon`)"@,
        Phase::AwaitBus => "dbus-daemon did not create session bus socket"@,
        Phase::SpawnBackend =>
            "failed to spawn /usr/libexec/xdg-desktop-portal-wlr (install `xdg-desktop-portal-wlr`)"@,
        Phase::SpawnPortal =>
            "failed to spawn /usr/libexec/xdg-desktop-portal (install `xdg-desktop-portal`)"@,
        _ => "xdg-desktop-portal did not register on session bus"@,
    }
}

/// What is reported when the compositor exits before its socket appears.
pub open spec fn exit_error(s: StartupView, status: Seq<char>) -> Seq<char> {
    "compositor `"@ + s.compositor + "` exited early with status "@ + status
        + " before any wayland-* socket appeared in "@ + xdg_dir_of(s.display_num)
}

/// What is reported when the compositor's socket does not appear in time.
pub open spec fn timeout_error(s: StartupView) -> Seq<char> {
    "compositor `"@ + s.compositor + "` did not create a wayland-* socket in "@ + xdg_dir_of(
        s.display_num,
    ) + " within 5s"@
}

/// What is reported for a compositor that is not known.
pub open spec fn choice_error(s: StartupView) -> Seq<char> {
    "BEAM_WAYLAND_COMPOSITOR="@ + s.compositor
        + " not supported; expected `cage` or `sway`"@
}

/// What an event leads to, in mathematical terms.
pub enum ProgressView {
    Continue,
    Pause,
    Ready,
    Fail { kill: Seq<Child>, error: Seq<char> },
}

impl View for Progress {
    type V = ProgressView;

    open spec fn view(&self) -> ProgressView {
        match self {
            Progress::Continue => ProgressView::Continue,
            Progress::Pause => ProgressView::Pause,
            Progress::Ready => ProgressView::Ready,
            Progress::Fail { kill, error } => ProgressView::Fail { kill: kill@, error: error@ },
        }
    }
}

/// The start with another phase.
pub open spec fn in_phase(s: StartupView, phase: Phase) -> StartupView {
    StartupView { phase, ..s }
}

/// The end of a start that has failed.
pub open spec fn failing(s: StartupView, kill: Seq<Child>, error: Seq<char>) -> (
    StartupView,
    ProgressView,
) {
    (in_phase(s, Phase::Failed), ProgressView::Fail { kill, error })
}

/// The step from one phase to the next. A link that fails is no failure. Where a step fails, all
/// processes that run are killed; a compositor that has exited runs no more.
pub open spec fn advanced(s: StartupView, e: Event) -> (StartupView, ProgressView) {
    match e {
        Event::Polled { socket, exit_status, timed_out } => match socket {
            Some(name) => (
                StartupView { socket: name@, phase: Phase::SpawnBus, ..s },
                ProgressView::Continue,
            ),
            None => match exit_status {
                Some(status) => failing(s, seq![], exit_error(s, status@)),
                None => if timed_out {
                    failing(s, running(s.phase), timeout_error(s))
                } else {
                    (s, ProgressView::Pause)
                },
            },
        },
        Event::Failed => if s.phase == Phase::LinkMedia {
            after_link(s)
        } else if s.phase == Phase::Ready || s.phase == Phase::Failed {
            (s, ProgressView::Continue)
        } else {
            failing(s, running(s.phase), step_error(s))
        },
        Event::Done => if s.phase == Phase::LinkMedia {
            after_link(s)
        } else if s.phase == Phase::Ready || s.phase == Phase::Failed {
            (s, ProgressView::Continue)
        } else if s.phase == Phase::AwaitPortal {
            (in_phase(s, Phase::Ready), ProgressView::Ready)
        } else {
            (in_phase(s, following(s.phase)), ProgressView::Continue)
        },
    }
}

/// The step to the start of the compositor, which must be a known one.
pub open spec fn after_link(s: StartupView) -> (StartupView, ProgressView) {
    if is_compositor(s.compositor) {
        (in_phase(s, Phase::SpawnCompositor), ProgressView::Continue)
    } else {
        failing(s, seq![], choice_error(s))
    }
}

/// The command that starts a compositor: without hardware, drawn by the processor, and with
/// something to run for the one that ends with its client.
pub open spec fn compositor_command(s: StartupView) -> CommandView {
    CommandView {
        program: s.compositor,
        args: if s.compositor == "cage"@ {
            seq!["--"@, "/usr/bin/env"@, "sleep"@, "infinity"@]
        } else {
            seq!["--unsupported-gpu"@, "--config"@, "/dev/null"@]
        },
        env: seq![
            ("WAYLAND_DISPLAY"@, wanted_socket_of(s.display_num)),
            ("XDG_RUNTIME_DIR"@, xdg_dir_of(s.display_num)),
            ("XDG_SESSION_TYPE"@, "wayland"@),
            ("WLR_BACKENDS"@, "headless"@),
            ("WLR_RENDERER"@, "pixman"@),
            ("WLR_LIBINPUT_NO_DEVICES"@, "1"@),
        ],
        removed_env: seq![],
    }
}

/// The command that starts a session's bus.
pub open spec fn bus_command(s: StartupView) -> CommandView {
    CommandView {
        program: "dbus-daemon"@,
        args: seq![
            "--session"@,
            "--nofork"@,
            "--nopidfile"@,
            "--nosyslog"@,
            "--address="@ + bus_address_of(s.display_num),
        ],
        env: seq![("XDG_RUNTIME_DIR"@, xdg_dir_of(s.display_num))],
        removed_env: seq![],
    }
}

/// A command that starts a portal on the session's compositor and bus.
pub open spec fn portal_command(s: StartupView, program: Seq<char>) -> CommandView {
    CommandView {
        program,
        args: seq![],
        env: seq![
            ("WAYLAND_DISPLAY"@, s.socket),
            ("XDG_RUNTIME_DIR"@, xdg_dir_of(s.display_num)),
            ("XDG_SESSION_TYPE"@, "wayland"@),
            ("XDG_CURRENT_DESKTOP"@, "wlroots"@),
            ("DBUS_SESSION_BUS_ADDRESS"@, bus_address_of(s.display_num)),
        ],
        removed_env: seq![],
    }
}

/// The command that succeeds once the portal answers on the session's bus.
pub open spec fn portal_query(s: StartupView) -> CommandView {
    CommandView {
        program: "gdbus"@,
        args: seq![
            "introspect"@,
            "--session"@,
            "--dest=org.freedesktop.portal.Desktop"@,
            "--object-path=/org/freedesktop/portal/desktop"@,
        ],
        env: seq![
            ("DBUS_SESSION_BUS_ADDRESS"@, bus_address_of(s.display_num)),
            ("XDG_RUNTIME_DIR"@, xdg_dir_of(s.display_num)),
        ],
        removed_env: seq![],
    }
}

/// Whether an action is what a phase asks for.
pub open spec fn is_action_of(a: Action, s: StartupView) -> bool {
    match s.phase {
        Phase::MakeDir => a matches Action::MakeDir(path) && path@ == xdg_dir_of(s.display_num),
        Phase::MakePrivate => a matches Action::MakePrivate(path) && path@ == xdg_dir_of(
            s.display_num,
        ),
        Phase::LinkMedia => a matches Action::LinkMedia(path) && path@ == xdg_dir_of(
            s.display_num,
        ) + "/pipewire-0"@,
        Phase::SpawnCompositor => a matches Action::Spawn(child, cmd) && child == Child::Compositor
            && cmd@ == compositor_command(s),
        Phase::AwaitCompositor => a matches Action::Poll(path) && path@ == xdg_dir_of(
            s.display_num,
        ),
        Phase::SpawnBus => a matches Action::Spawn(child, cmd) && child == Child::Bus && cmd@
            == bus_command(s),
        Phase::AwaitBus => a matches Action::AwaitFile(path) && path@ == bus_socket_of(
            s.display_num,
        ),
        Phase::SpawnBackend => a matches Action::Spawn(child, cmd) && child == Child::PortalBackend
            && cmd@ == portal_command(s, "/usr/libexec/xdg-desktop-portal-wlr"@),
        Phase::SpawnPortal => a matches Action::Spawn(child, cmd) && child == Child::Portal && cmd@
            == portal_command(s, "/usr/libexec/xdg-desktop-portal"@),
        Phase::AwaitPortal => a matches Action::AwaitCommand(cmd) && cmd@ == portal_query(s),
        Phase::Ready => a is Nothing,
        Phase::Failed => a is Nothing,
    }
}

/// The media socket of a user, which is linked into the session's runtime directory.
pub fn media_socket(uid: u32) -> (r: String)
    ensures
        r@ == "/run/user/"@ + decimal(uid as nat) + "/pipewire-0"@,
{
    "/run/user/".to_owned().concat(decimal_u32(uid).as_str()).concat("/pipewire-0")
}

impl Startup {
    /// A start that has not begun. `compositor` is the one that was chosen; `cage` where none was.
    pub fn new(config: &WaylandDisplayConfig, compositor: Option<&str>) -> (r: Self)
        ensures
            r@ == (StartupView {
                display_num: config.display_num,
                width: config.width,
                height: config.height,
                compositor: match compositor {
                    Some(c) => c@,
                    None => "cage"@,
                },
                phase: Phase::MakeDir,
                socket: Seq::empty(),
            }),
    {
        Startup {
            display_num: config.display_num,
            width: config.width,
            height: config.height,
            compositor: match compositor {
                Some(c) => c.to_owned(),
                None => "cage".to_owned(),
            },
            phase: Phase::MakeDir,
            socket: String::new(),
        }
    }

    /// The size that the display is to be recorded in.
    pub fn size(&self) -> (r: (u32, u32))
        ensures
            r == (self@.width, self@.height),
    {
        (self.width, self.height)
    }

    /// The socket of the compositor, once it is known.
    pub fn wayland_display(&self) -> (r: &str)
        ensures
            r@ == self@.socket,
    {
        self.socket.as_str()
    }

    fn portal(&self, program: &str) -> (r: CommandLine)
        ensures
            r@ == portal_command(self@, program@),
    {
        CommandLine::new(program).env("WAYLAND_DISPLAY", self.socket.as_str()).env(
            "XDG_RUNTIME_DIR",
            xdg_dir(self.display_num).as_str(),
        ).env("XDG_SESSION_TYPE", "wayland").env("XDG_CURRENT_DESKTOP", "wlroots").env(
            "DBUS_SESSION_BUS_ADDRESS",
            bus_addr(self.display_num).as_str(),
        )
    }

    fn compositor(&self) -> (r: CommandLine)
        ensures
            r@ == compositor_command(self@),
    {
        let bare = CommandLine::new(self.compositor.as_str());
        let cmd = if text_eq(self.compositor.as_str(), "cage") {
            bare.arg("--").arg("/usr/bin/env").arg("sleep").arg("infinity")
        } else {
            bare.arg("--unsupported-gpu").arg("--config").arg("/dev/null")
        };
        let wanted = "wayland-beam-".to_owned().concat(decimal_u32(self.display_num).as_str());
        cmd.env("WAYLAND_DISPLAY", wanted.as_str()).env(
            "XDG_RUNTIME_DIR",
            xdg_dir(self.display_num).as_str(),
        ).env("XDG_SESSION_TYPE", "wayland").env("WLR_BACKENDS", "headless").env(
            "WLR_RENDERER",
            "pixman",
        ).env("WLR_LIBINPUT_NO_DEVICES", "1")
    }

    fn bus(&self) -> (r: CommandLine)
        ensures
            r@ == bus_command(self@),
    {
        let address = "--address=".to_owned().concat(bus_addr(self.display_num).as_str());
        CommandLine::new("dbus-daemon").arg("--session").arg("--nofork").arg("--nopidfile").arg(
            "--nosyslog",
        ).arg(address.as_str()).env("XDG_RUNTIME_DIR", xdg_dir(self.display_num).as_str())
    }

    fn query(&self) -> (r: CommandLine)
        ensures
            r@ == portal_query(self@),
    {
        CommandLine::new("gdbus").arg("introspect").arg("--session").arg(
            "--dest=org.freedesktop.portal.Desktop",
        ).arg("--object-path=/org/freedesktop/portal/desktop").env(
            "DBUS_SESSION_BUS_ADDRESS",
            bus_addr(self.display_num).as_str(),
        ).env("XDG_RUNTIME_DIR", xdg_dir(self.display_num).as_str())
    }

    /// What is to be done next.
    pub fn action(&self) -> (r: Action)
        ensures
            is_action_of(r, self@),
    {
        match self.phase {
            Phase::MakeDir => Action::MakeDir(xdg_dir(self.display_num)),
            Phase::MakePrivate => Action::MakePrivate(xdg_dir(self.display_num)),
            Phase::LinkMedia => Action::LinkMedia(
                xdg_dir(self.display_num).concat("/pipewire-0"),
            ),
            Phase::SpawnCompositor => Action::Spawn(Child::Compositor, self.compositor()),
            Phase::AwaitCompositor => Action::Poll(xdg_dir(self.display_num)),
            Phase::SpawnBus => Action::Spawn(Child::Bus, self.bus()),
            Phase::AwaitBus => Action::AwaitFile(bus_socket(self.display_num)),
            Phase::SpawnBackend => Action::Spawn(
                Child::PortalBackend,
                self.portal("/usr/libexec/xdg-desktop-portal-wlr"),
            ),
            Phase::SpawnPortal => Action::Spawn(
                Child::Portal,
                self.portal("/usr/libexec/xdg-desktop-portal"),
            ),
            Phase::AwaitPortal => Action::AwaitCommand(self.query()),
            Phase::Ready => Action::Nothing,
            Phase::Failed => Action::Nothing,
        }
    }

    fn error(&self) -> (r: String)
        ensures
            r@ == step_error(self@),
    {
        match self.phase {
            Phase::MakeDir => "failed to create XDG_RUNTIME_DIR ".to_owned().concat(
                xdg_dir(self.display_num).as_str(),
            ),
            Phase::MakePrivate => "failed to chmod 0700 XDG_RUNTIME_DIR ".to_owned().concat(
                xdg_dir(self.display_num).as_str(),
            ),
            Phase::SpawnCompositor => "failed to spawn `".to_owned().concat(
                self.compositor.as_str(),
            ).concat("`"),
            Phase::SpawnBus =>
                "failed to spawn dbus-daemon for Wayland session (install `dbus-daemon`)".to_owned(),
            Phase::AwaitBus => "dbus-daemon did not create session bus socket".to_owned(),
            Phase::SpawnBackend =>
                "failed to spawn /usr/libexec/xdg-desktop-portal-wlr (install `xdg-desktop-portal-wlr`)".to_owned(),
            Phase::SpawnPortal =>
                "failed to spawn /usr/libexec/xdg-desktop-portal (install `xdg-desktop-portal`)".to_owned(),
            _ => "xdg-desktop-portal did not register on session bus".to_owned(),
        }
    }

    fn alive(&self) -> (r: Vec<Child>)
        ensures
            r@ == running(self@.phase),
    {
        let mut r: Vec<Child> = Vec::new();
        match self.phase {
            Phase::AwaitCompositor | Phase::SpawnBus => {
                r.push(Child::Compositor);
            },
            Phase::AwaitBus | Phase::SpawnBackend => {
                r.push(Child::Compositor);
                r.push(Child::Bus);
            },
            Phase::SpawnPortal => {
                r.push(Child::Compositor);
                r.push(Child::Bus);
                r.push(Child::PortalBackend);
            },
            Phase::AwaitPortal | Phase::Ready => {
                r.push(Child::Compositor);
                r.push(Child::Bus);
                r.push(Child::PortalBackend);
                r.push(Child::Portal);
            },
            _ => {},
        }
        assert(r@ =~= running(self@.phase));
        r
    }

    fn pick_compositor(&mut self) -> (r: Progress)
        ensures
            (final(self)@, r@) == after_link(old(self)@),
    {
        let name: &str = self.compositor.as_str();
        if text_eq(name, "cage") || text_eq(name, "sway") {
            self.phase = Phase::SpawnCompositor;
            Progress::Continue
        } else {
            let error = "BEAM_WAYLAND_COMPOSITOR=".to_owned().concat(name).concat(
                " not supported; expected `cage` or `sway`",
            );
            self.phase = Phase::Failed;
            let kill: Vec<Child> = Vec::new();
            assert(kill@ =~= seq![]);
            Progress::Fail { kill, error }
        }
    }

    /// Takes in what came of the last step, and says what it leads to.
    pub fn advance(&mut self, event: &Event) -> (r: Progress)
        requires
            fits(old(self)@.phase, *event),
        ensures
            (final(self)@, r@) == advanced(old(self)@, *event),
    {
        match event {
            Event::Polled { socket, exit_status, timed_out } => match socket {
                Some(name) => {
                    self.socket = name.clone();
                    self.phase = Phase::SpawnBus;
                    Progress::Continue
                },
                None => match exit_status {
                    Some(status) => {
                        let error = "compositor `".to_owned().concat(
                            self.compositor.as_str(),
                        ).concat("` exited early with status ").concat(status.as_str()).concat(
                            " before any wayland-* socket appeared in ",
                        ).concat(xdg_dir(self.display_num).as_str());
                        self.phase = Phase::Failed;
                        let kill: Vec<Child> = Vec::new();
                        assert(kill@ =~= seq![]);
                        Progress::Fail { kill, error }
                    },
                    None => if *timed_out {
                        let error = "compositor `".to_owned().concat(
                            self.compositor.as_str(),
                        ).concat("` did not create a wayland-* socket in ").concat(
                            xdg_dir(self.display_num).as_str(),
                        ).concat(" within 5s");
                        let kill = self.alive();
                        self.phase = Phase::Failed;
                        Progress::Fail { kill, error }
                    } else {
                        Progress::Pause
                    },
                },
            },
            Event::Failed => match self.phase {
                Phase::LinkMedia => self.pick_compositor(),
                Phase::Ready | Phase::Failed => Progress::Continue,
                _ => {
                    let error = self.error();
                    let kill = self.alive();
                    self.phase = Phase::Failed;
                    Progress::Fail { kill, error }
                },
            },
            Event::Done => match self.phase {
                Phase::MakeDir => {
                    self.phase = Phase::MakePrivate;
                    Progress::Continue
                },
                Phase::MakePrivate => {
                    self.phase = Phase::LinkMedia;
                    Progress::Continue
                },
                Phase::LinkMedia => self.pick_compositor(),
                Phase::SpawnCompositor => {
                    self.phase = Phase::AwaitCompositor;
                    Progress::Continue
                },
                Phase::AwaitCompositor => {
                    self.phase = Phase::SpawnBus;
                    Progress::Continue
                },
                Phase::SpawnBus => {
                    self.phase = Phase::AwaitBus;
                    Progress::Continue
                },
                Phase::AwaitBus => {
                    self.phase = Phase::SpawnBackend;
                    Progress::Continue
                },
                Phase::SpawnBackend => {
                    self.phase = Phase::SpawnPortal;
                    Progress::Continue
                },
                Phase::SpawnPortal => {
                    self.phase = Phase::AwaitPortal;
                    Progress::Continue
                },
                Phase::AwaitPortal => {
                    self.phase = Phase::Ready;
                    Progress::Ready
                },
                Phase::Ready | Phase::Failed => Progress::Continue,
            },
        }
    }
}

// ---------------------------------------------------------------------------
// A session that is up
// ---------------------------------------------------------------------------

/// The variables of the programs of a session.
pub open spec fn session_env_of(socket: Seq<char>, xdg: Seq<char>) -> Seq<(Seq<char>, Seq<char>)> {
    seq![
        ("WAYLAND_DISPLAY"@, socket),
        ("XDG_RUNTIME_DIR"@, xdg),
        ("XDG_SESSION_TYPE"@, "wayland"@),
    ]
}

/// The command that starts the desktop of a session: the one that was chosen, `startxfce4` where
/// none was, split into words.
pub fn wayland_desktop_command(choice: Option<&str>, socket: &str, xdg: &str) -> (r: Result<
    CommandLine,
    String,
>)
    ensures
        ({
            let text = match choice {
                Some(c) => c@,
                None => "startxfce4"@,
            };
            let parts = words_of(text);
            match r {
                Ok(cmd) => parts.len() > 0 && cmd@ == (CommandView {
                    program: parts[0],
                    args: parts.skip(1),
                    env: session_env_of(socket@, xdg@),
                    removed_env: seq![],
                }),
                Err(e) => parts.len() == 0 && e@ == "BEAM_WAYLAND_DESKTOP is empty"@,
            }
        }),
{
    let text: &str = match choice {
        Some(c) => c,
        None => "startxfce4",
    };
    let parts = words(text);
    let ghost all = views(parts@);
    if parts.len() == 0 {
        return Err("BEAM_WAYLAND_DESKTOP is empty".to_owned());
    }
    let mut cmd = CommandLine::new(parts[0]);
    assert(all.skip(1).take(0) =~= Seq::<Seq<char>>::empty());
    let mut i: usize = 1;
    while i < parts.len()
        invariant
            all == views(parts@),
            1 <= i <= parts@.len(),
            cmd@ == (CommandView { args: all.skip(1).take(i - 1), ..bare(all[0]) }),
        decreases parts@.len() - i,
    {
        cmd = cmd.arg(parts[i]);
        assert(all.skip(1).take(i as int) =~= all.skip(1).take(i - 1).push(parts@[i as int]@));
        i = i + 1;
    }
    assert(all.skip(1).take(parts@.len() - 1) =~= all.skip(1));
    let cmd = cmd.env("WAYLAND_DISPLAY", socket).env("XDG_RUNTIME_DIR", xdg).env(
        "XDG_SESSION_TYPE",
        "wayland",
    );
    assert(cmd@.env =~= session_env_of(socket@, xdg@));
    Ok(cmd)
}

/// The command that starts the sound server of a session.
pub fn wayland_pulse_command(socket: &str, xdg: &str) -> (r: CommandLine)
    ensures
        r@ == (CommandView {
            program: "pulseaudio"@,
            args: seq!["--start"@, "--exit-idle-time=-1"@],
            env: session_env_of(socket@, xdg@),
            removed_env: seq![],
        }),
{
    CommandLine::new("pulseaudio").arg("--start").arg("--exit-idle-time=-1").env(
        "WAYLAND_DISPLAY",
        socket,
    ).env("XDG_RUNTIME_DIR", xdg).env("XDG_SESSION_TYPE", "wayland")
}

/// The processes of a session in the order in which they are stopped: clients first, and the
/// compositor last. The runtime directory is removed after them.
pub open spec fn shutdown_order_of(desktop: bool, sound_server: bool) -> Seq<Child> {
    (if desktop {
        seq![Child::Desktop]
    } else {
        Seq::empty()
    }) + (if sound_server {
        seq![Child::SoundServer]
    } else {
        Seq::empty()
    }) + seq![Child::Portal, Child::PortalBackend, Child::Bus, Child::Compositor]
}

/// The processes of a session in the order in which they are stopped.
pub fn shutdown_order(desktop: bool, sound_server: bool) -> (r: Vec<Child>)
    ensures
        r@ == shutdown_order_of(desktop, sound_server),
{
    let mut r: Vec<Child> = Vec::new();
    if desktop {
        r.push(Child::Desktop);
    }
    if sound_server {
        r.push(Child::SoundServer);
    }
    r.push(Child::Portal);
    r.push(Child::PortalBackend);
    r.push(Child::Bus);
    r.push(Child::Compositor);
    assert(r@ =~= shutdown_order_of(desktop, sound_server));
    r
}

/// What is done about a process that was asked to end.
#[derive(Clone, Copy, PartialEq, Eq, Structural)]
pub enum Grace {
    /// Nothing more.
    Over,
    /// Look again after 50 ms.
    Wait,
    /// Kill it.
    Kill,
}

/// What is done about a process that was asked to end. It has two seconds to do so.
pub fn after_terminate(state: ChildState, grace_over: bool) -> (r: Grace)
    ensures
        r == if state != ChildState::Running {
            Grace::Over
        } else if grace_over {
            Grace::Kill
        } else {
            Grace::Wait
        },
{
    if state != ChildState::Running {
        Grace::Over
    } else if grace_over {
        Grace::Kill
    } else {
        Grace::Wait
    }
}

// ---------------------------------------------------------------------------
// Laws
// ---------------------------------------------------------------------------

/// A start that fails leaves no process behind: all that run are killed, but for a compositor that
/// has exited by itself, and with which nothing else ran.
pub proof fn failed_starts_leave_no_orphans(s: StartupView, e: Event)
    requires
        fits(s.phase, e),
        advanced(s, e).1 is Fail,
    ensures
        ({
            let kill = advanced(s, e).1->kill;
            kill == running(s.phase) || (kill.len() == 0 && running(s.phase) == seq![
                Child::Compositor,
            ] && (e matches Event::Polled { exit_status, .. } && exit_status is Some))
        }),
        advanced(s, e).0.phase == Phase::Failed,
{
}

/// Each step either leaves the processes that run as they are, or adds the one whose start was
/// asked for.
pub proof fn processes_are_started_one_by_one(s: StartupView, e: Event)
    requires
        fits(s.phase, e),
        !(advanced(s, e).1 is Fail),
    ensures
        ({
            let before = running(s.phase);
            let after = running(advanced(s, e).0.phase);
            after == before || (e is Done && after.len() == before.len() + 1 && after.drop_last()
                == before)
        }),
{
    let before = running(s.phase);
    let after = running(advanced(s, e).0.phase);
    if after.len() == before.len() + 1 {
        assert(after.drop_last() =~= before);
    }
}

/// The phases that are still to come.
pub open spec fn phases_left(phase: Phase) -> nat {
    match phase {
        Phase::MakeDir => 10,
        Phase::MakePrivate => 9,
        Phase::LinkMedia => 8,
        Phase::SpawnCompositor => 7,
        Phase::AwaitCompositor => 6,
        Phase::SpawnBus => 5,
        Phase::AwaitBus => 4,
        Phase::SpawnBackend => 3,
        Phase::SpawnPortal => 2,
        Phase::AwaitPortal => 1,
        Phase::Ready => 0,
        Phase::Failed => 0,
    }
}

/// A start comes to an end: each event but a pause leaves fewer phases to come, until none is.
pub proof fn starts_come_to_an_end(s: StartupView, e: Event)
    requires
        fits(s.phase, e),
        phases_left(s.phase) > 0,
        !(advanced(s, e).1 is Pause),
    ensures
        phases_left(advanced(s, e).0.phase) < phases_left(s.phase),
{
}

/// A session is up only when its portal answered, with all four processes running.
pub proof fn ready_sessions_are_complete(s: StartupView, e: Event)
    requires
        fits(s.phase, e),
        advanced(s, e).1 is Ready,
    ensures
        s.phase == Phase::AwaitPortal,
        e is Done,
        running(advanced(s, e).0.phase) == seq![
            Child::Compositor,
            Child::Bus,
            Child::PortalBackend,
            Child::Portal,
        ],
{
}

/// Whatever runs in a session that is up is stopped when it ends, each once, and the compositor
/// last.
pub proof fn shutdown_is_complete(desktop: bool, sound_server: bool)
    ensures
        ({
            let order = shutdown_order_of(desktop, sound_server);
            &&& order.last() == Child::Compositor
            &&& order.no_duplicates()
            &&& forall|i: int|
                0 <= i < running(Phase::Ready).len() ==> order.contains(
                    #[trigger] running(Phase::Ready)[i],
                )
            &&& order.contains(Child::Desktop) == desktop
            &&& order.contains(Child::SoundServer) == sound_server
        }),
{
    let order = shutdown_order_of(desktop, sound_server);
    let n = order.len();
    assert(order[n - 1] == Child::Compositor);
    assert(order[n - 2] == Child::Bus);
    assert(order[n - 3] == Child::PortalBackend);
    assert(order[n - 4] == Child::Portal);
    if desktop {
        assert(order[0] == Child::Desktop);
    }
    if sound_server {
        assert(order[n - 5] == Child::SoundServer);
    }
}

/// The phases of a start in their order.
pub open spec fn phase_number(phase: Phase) -> int {
    match phase {
        Phase::MakeDir => 0,
        Phase::MakePrivate => 1,
        Phase::LinkMedia => 2,
        Phase::SpawnCompositor => 3,
        Phase::AwaitCompositor => 4,
        Phase::SpawnBus => 5,
        Phase::AwaitBus => 6,
        Phase::SpawnBackend => 7,
        Phase::SpawnPortal => 8,
        Phase::AwaitPortal => 9,
        Phase::Ready => 10,
        Phase::Failed => 11,
    }
}

/// Whether a list holds the processes that run in a phase: the compositor from its own start on, the
/// bus from its own, and so on for the two portals.
pub open spec fn runs_in(kill: Seq<Child>, phase: Phase) -> bool {
    let n = phase_number(phase);
    &&& kill.no_duplicates()
    &&& kill.contains(Child::Compositor) <==> 4 <= n <= 10
    &&& kill.contains(Child::Bus) <==> 6 <= n <= 10
    &&& kill.contains(Child::PortalBackend) <==> 8 <= n <= 10
    &&& kill.contains(Child::Portal) <==> 9 <= n <= 10
    &&& !kill.contains(Child::Desktop) && !kill.contains(Child::SoundServer)
}

proof fn lemma_runs_in(phase: Phase)
    requires
        phase != Phase::Failed,
    ensures
        runs_in(running(phase), phase),
{
    let k = running(phase);
    if k.len() >= 1 {
        assert(k[0] == Child::Compositor);
    }
    if k.len() >= 2 {
        assert(k[1] == Child::Bus);
    }
    if k.len() >= 3 {
        assert(k[2] == Child::PortalBackend);
    }
    if k.len() >= 4 {
        assert(k[3] == Child::Portal);
    }
}

/// A start goes from phase to phase as its steps are done, over the compositor's socket, whose name
/// it keeps, to the end; a link of the media socket that fails does not hold it up, a compositor
/// other than `cage` and `sway` does, and a step that fails ends it with just the processes killed
/// that run.
pub proof fn starts_go_step_by_step(s: &mut Startup, e: &Event, r: Progress)
    requires
        fits(old(s)@.phase, *e),
        call_ensures(Startup::advance, (s, e), r),
    ensures
        ({
            let p = old(s)@.phase;
            let n = phase_number(p);
            let known = old(s)@.compositor == "cage"@ || old(s)@.compositor == "sway"@;
            &&& *e is Done && n < 10 && n != 2 ==> phase_number(final(s)@.phase) == n + 1
            &&& *e is Done && n == 9 ==> r is Ready
            &&& *e is Done && n < 9 && n != 2 ==> r is Continue
            &&& n == 2 && known ==> r is Continue && final(s)@.phase == Phase::SpawnCompositor
            &&& n == 2 && !known ==> (r matches Progress::Fail { kill, .. } && kill@.len() == 0)
            &&& *e is Failed && n < 10 && n != 2 ==> (r matches Progress::Fail { kill, .. } && runs_in(
                kill@,
                p,
            )) && final(s)@.phase == Phase::Failed
            &&& n >= 10 ==> final(s)@.phase == p && (r is Continue)
            &&& *e matches Event::Polled { socket: Some(name), .. } ==> r is Continue
                && final(s)@.phase == Phase::SpawnBus && final(s)@.socket == name@
            &&& *e matches Event::Polled { socket: None, exit_status: Some(_), .. } ==> (
            r matches Progress::Fail { kill, .. } && kill@.len() == 0) && final(s)@.phase
                == Phase::Failed
            &&& *e matches Event::Polled { socket: None, exit_status: None, timed_out: true } ==> (
            r matches Progress::Fail { kill, .. } && runs_in(kill@, p)) && final(s)@.phase
                == Phase::Failed
            &&& *e matches Event::Polled { socket: None, exit_status: None, timed_out: false }
                ==> r is Pause && final(s)@ == old(s)@
            &&& !(*e is Polled) ==> final(s)@.socket == old(s)@.socket
            &&& final(s)@.display_num == old(s)@.display_num
            &&& final(s)@.compositor == old(s)@.compositor
            &&& (final(s)@.width, final(s)@.height) == (old(s)@.width, old(s)@.height)
        }),
{
    if old(s)@.phase != Phase::Failed {
        lemma_runs_in(old(s)@.phase);
    }
}

/// What is started in a phase is the process of the phase, on the session's own directory.
pub proof fn phases_ask_for_their_own(s: &Startup, a: Action)
    requires
        call_ensures(Startup::action, (s,), a),
    ensures
        ({
            let n = phase_number(s@.phase);
            let dir = "/tmp/beam-xdg-"@ + decimal(s@.display_num as nat);
            &&& a matches Action::MakeDir(p) ==> n == 0 && p@ == dir
            &&& a matches Action::MakePrivate(p) ==> n == 1 && p@ == dir
            &&& a matches Action::LinkMedia(p) ==> n == 2 && p@ == dir + "/pipewire-0"@
            &&& a matches Action::Poll(p) ==> n == 4 && p@ == dir
            &&& a matches Action::AwaitFile(p) ==> n == 6 && p@ == dir + "/bus"@
            &&& a is AwaitCommand ==> n == 9
            &&& a is Nothing <==> n >= 10
            &&& a matches Action::Spawn(c, line) ==> {
                &&& c == Child::Compositor <==> n == 3
                &&& c == Child::Bus <==> n == 5
                &&& c == Child::PortalBackend <==> n == 7
                &&& c == Child::Portal <==> n == 8
                &&& line@.env.contains(("XDG_RUNTIME_DIR"@, dir))
                &&& n == 3 ==> line@.program == s@.compositor
                &&& n >= 7 ==> line@.env.contains(("WAYLAND_DISPLAY"@, s@.socket))
            }
        }),
{
    if let Action::Spawn(c, line) = a {
        let dir = "/tmp/beam-xdg-"@ + decimal(s@.display_num as nat);
        if c == Child::Compositor {
            assert(line@.env[1] == ("XDG_RUNTIME_DIR"@, dir));
        } else if c == Child::Bus {
            assert(line@.env[0] == ("XDG_RUNTIME_DIR"@, dir));
        } else {
            assert(line@.env[1] == ("XDG_RUNTIME_DIR"@, dir));
            assert(line@.env[0] == ("WAYLAND_DISPLAY"@, s@.socket));
        }
    }
}

/// Whether a file can be the socket of a compositor.
pub open spec fn looks_like_wayland(e: DirEntry) -> bool {
    e.is_socket && begins(e.name@, "wayland-"@) && !ends(e.name@, ".lock"@)
}

/// The socket of a compositor is the first file that is a socket named `wayland-` something and no
/// lock; where there is none, none is found.
pub proof fn sockets_are_told_by_their_names(
    entries: &Vec<DirEntry>,
    r: Option<String>,
    k: int,
)
    requires
        call_ensures(scan_for_wayland_socket, (entries,), r),
    ensures
        (forall|i: int| 0 <= i < entries@.len() ==> !looks_like_wayland(#[trigger] entries@[i])) ==> r
            is None,
        0 <= k < entries@.len() && looks_like_wayland(entries@[k]) && (forall|i: int|
            0 <= i < k ==> !looks_like_wayland(#[trigger] entries@[i])) ==> (r matches Some(name)
            && name@ == entries@[k].name@),
{
    if forall|i: int| 0 <= i < entries@.len() ==> !looks_like_wayland(#[trigger] entries@[i]) {
        lemma_no_socket(entries@);
    }
    if 0 <= k < entries@.len() && looks_like_wayland(entries@[k]) && (forall|i: int|
        0 <= i < k ==> !looks_like_wayland(#[trigger] entries@[i])) {
        lemma_first_socket(entries@, k);
    }
}

proof fn lemma_no_socket(entries: Seq<DirEntry>)
    requires
        forall|i: int| 0 <= i < entries.len() ==> !looks_like_wayland(#[trigger] entries[i]),
    ensures
        socket_in(entries) is None,
    decreases entries.len(),
{
    if entries.len() > 0 {
        assert(!looks_like_wayland(entries[0]));
        let rest = entries.skip(1);
        assert forall|i: int| 0 <= i < rest.len() implies !looks_like_wayland(#[trigger] rest[i]) by {
            assert(!looks_like_wayland(entries[i + 1]));
        }
        lemma_no_socket(rest);
    }
}

proof fn lemma_first_socket(entries: Seq<DirEntry>, k: int)
    requires
        0 <= k < entries.len(),
        looks_like_wayland(entries[k]),
        forall|i: int| 0 <= i < k ==> !looks_like_wayland(#[trigger] entries[i]),
    ensures
        socket_in(entries) == Some(entries[k].name@),
    decreases k,
{
    if k > 0 {
        assert(!looks_like_wayland(entries[0]));
        let rest = entries.skip(1);
        assert forall|i: int| 0 <= i < k - 1 implies !looks_like_wayland(#[trigger] rest[i]) by {
            assert(!looks_like_wayland(entries[i + 1]));
        }
        lemma_first_socket(rest, k - 1);
    }
}

/// A desktop is started by its own words: the first is the program, and the others are its
/// arguments. Where none is chosen it is `startxfce4`, and where nothing is, an error.
pub proof fn desktops_are_started_by_their_words(
    choice: Option<&str>,
    socket: &str,
    xdg: &str,
    r: Result<CommandLine, String>,
)
    requires
        call_ensures(wayland_desktop_command, (choice, socket, xdg), r),
    ensures
        choice is None ==> (r matches Ok(c) && c@.program == "startxfce4"@ && c@.args.len() == 0),
        choice matches Some(t) ==> {
            &&& words_of(t@).len() == 0 <==> r is Err
            &&& r matches Ok(c) ==> seq![c@.program] + c@.args == words_of(t@)
        },
        r matches Ok(c) ==> c@.env == seq![
            ("WAYLAND_DISPLAY"@, socket@),
            ("XDG_RUNTIME_DIR"@, xdg@),
            ("XDG_SESSION_TYPE"@, "wayland"@),
        ],
{
    if let Some(t) = choice {
        if let Ok(c) = r {
            assert(seq![c@.program] + c@.args =~= words_of(t@));
        }
    } else {
        lemma_one_word();
        if let Ok(c) = r {
            assert(c@.args.len() == 0);
        }
    }
}

proof fn lemma_one_word()
    ensures
        words_of("startxfce4"@) == seq!["startxfce4"@],
{
    reveal_strlit("startxfce4");
    let s = "startxfce4"@;
    assert(words_of(s) =~= seq![s]) by {
        lemma_word_alone(s);
    }
}

proof fn lemma_word_alone(s: Seq<char>)
    requires
        s.len() > 0,
        forall|i: int| 0 <= i < s.len() ==> !is_white(#[trigger] s[i]),
    ensures
        words_of(s) == seq![s],
    decreases s.len(),
{
    let front = s.drop_last();
    assert(!is_white(s[s.len() - 1]));
    if s.len() == 1 {
        assert(front =~= Seq::<char>::empty());
        assert(seq![s.last()] =~= s);
        assert(runs(front, white()) =~= Seq::<Seq<char>>::empty());
        assert(Seq::<Seq<char>>::empty().push(s) =~= seq![s]);
    } else {
        assert forall|i: int| 0 <= i < front.len() implies !is_white(#[trigger] front[i]) by {
            assert(!is_white(s[i]));
        }
        lemma_word_alone(front);
        assert(!is_white(s[s.len() - 2]));
        assert(front.push(s.last()) =~= s);
        assert(seq![front].drop_last().push(s) =~= seq![s]);
    }
}

/// Whatever was started is stopped, once, and what was started on top of something else before it:
/// the desktop and the sound first, and the compositor last.
pub proof fn sessions_are_taken_down_from_the_top(desktop: bool, sound: bool, r: Vec<Child>)
    requires
        call_ensures(shutdown_order, (desktop, sound), r),
    ensures
        r@.no_duplicates(),
        r@.contains(Child::Desktop) <==> desktop,
        r@.contains(Child::SoundServer) <==> sound,
        r@.last() == Child::Compositor,
        r@.len() == 4 + (if desktop { 1int } else { 0 }) + (if sound { 1int } else { 0 }),
        r@[r@.len() - 2] == Child::Bus,
        r@[r@.len() - 3] == Child::PortalBackend,
        r@[r@.len() - 4] == Child::Portal,
{
    if desktop {
        assert(r@[0] == Child::Desktop);
    }
    if sound {
        assert(r@[if desktop { 1int } else { 0 }] == Child::SoundServer);
    }
}

/// A process that was asked to end is left alone once it does, waited for while it has time, and
/// killed when it has none.
pub proof fn processes_get_their_grace(state: ChildState, over: bool, r: Grace)
    requires
        call_ensures(after_terminate, (state, over), r),
    ensures
        r == Grace::Kill <==> state == ChildState::Running && over,
        r == Grace::Wait <==> state == ChildState::Running && !over,
        r == Grace::Over <==> state != ChildState::Running,
{
}

/// What a start runs is told of the session's own directory, bus and compositor: the compositor draws
/// without hardware, and runs something where it would end without a client; the bus has its socket
/// in the directory; both portals find both; and the portal is asked for on that bus.
pub proof fn sessions_run_on_their_own(s: &Startup, a: Action)
    requires
        call_ensures(Startup::action, (s,), a),
    ensures
        ({
            let n = decimal(s@.display_num as nat);
            let dir = "/tmp/beam-xdg-"@ + n;
            let bus = "unix:path="@ + (dir + "/bus"@);
            &&& a matches Action::Spawn(child, c) ==> {
                &&& c@.removed_env.len() == 0
                &&& child == Child::Compositor ==> {
                    &&& c@.program == s@.compositor
                    &&& s@.compositor == "cage"@ ==> c@.args == seq![
                        "--"@,
                        "/usr/bin/env"@,
                        "sleep"@,
                        "infinity"@,
                    ]
                    &&& s@.compositor != "cage"@ ==> c@.args == seq![
                        "--unsupported-gpu"@,
                        "--config"@,
                        "/dev/null"@,
                    ]
                    &&& c@.env == seq![
                        ("WAYLAND_DISPLAY"@, "wayland-beam-"@ + n),
                        ("XDG_RUNTIME_DIR"@, dir),
                        ("XDG_SESSION_TYPE"@, "wayland"@),
                        ("WLR_BACKENDS"@, "headless"@),
                        ("WLR_RENDERER"@, "pixman"@),
                        ("WLR_LIBINPUT_NO_DEVICES"@, "1"@),
                    ]
                }
                &&& child == Child::Bus ==> {
                    &&& c@.program == "dbus-daemon"@
                    &&& c@.args == seq![
                        "--session"@,
                        "--nofork"@,
                        "--nopidfile"@,
                        "--nosyslog"@,
                        "--address="@ + bus,
                    ]
                    &&& c@.env == seq![("XDG_RUNTIME_DIR"@, dir)]
                }
                &&& child == Child::PortalBackend ==> c@.program
                    == "/usr/libexec/xdg-desktop-portal-wlr"@
                &&& child == Child::Portal ==> c@.program == "/usr/libexec/xdg-desktop-portal"@
                &&& child == Child::PortalBackend || child == Child::Portal ==> c@.args.len() == 0
                    && c@.env == seq![
                    ("WAYLAND_DISPLAY"@, s@.socket),
                    ("XDG_RUNTIME_DIR"@, dir),
                    ("XDG_SESSION_TYPE"@, "wayland"@),
                    ("XDG_CURRENT_DESKTOP"@, "wlroots"@),
                    ("DBUS_SESSION_BUS_ADDRESS"@, bus),
                ]
            }
            &&& a matches Action::AwaitCommand(c) ==> {
                &&& c@.program == "gdbus"@
                &&& c@.args == seq![
                    "introspect"@,
                    "--session"@,
                    "--dest=org.freedesktop.portal.Desktop"@,
                    "--object-path=/org/freedesktop/portal/desktop"@,
                ]
                &&& c@.env == seq![("DBUS_SESSION_BUS_ADDRESS"@, bus), ("XDG_RUNTIME_DIR"@, dir)]
            }
        }),
{
}

/// A start that fails says which step it was: the directory, the compositor, the bus or the portals.
pub proof fn failed_starts_say_why(s: &mut Startup, e: &Event, r: Progress)
    requires
        fits(old(s)@.phase, *e),
        call_ensures(Startup::advance, (s, e), r),
    ensures
        ({
            let a = old(s)@;
            let dir = "/tmp/beam-xdg-"@ + decimal(a.display_num as nat);
            r matches Progress::Fail { kill, error } ==> {
                &&& a.phase == Phase::MakeDir ==> error@ == "failed to create XDG_RUNTIME_DIR "@ + dir
                &&& a.phase == Phase::MakePrivate ==> error@
                    == "failed to chmod 0700 XDG_RUNTIME_DIR "@ + dir
                &&& a.phase == Phase::LinkMedia ==> error@ == "BEAM_WAYLAND_COMPOSITOR="@
                    + a.compositor + " not supported; expected `cage` or `sway`"@
                &&& a.phase == Phase::SpawnCompositor ==> error@ == "failed to spawn `"@ + a.compositor
                    + "`"@
                &&& *e matches Event::Polled { exit_status: Some(status), .. } ==> error@
                    == "compositor `"@ + a.compositor + "` exited early with status "@ + status@
                    + " before any wayland-* socket appeared in "@ + dir
                &&& *e matches Event::Polled { exit_status: None, .. } ==> error@ == "compositor `"@
                    + a.compositor + "` did not create a wayland-* socket in "@ + dir + " within 5s"@
                &&& a.phase == Phase::SpawnBus ==> error@
                    == "failed to spawn dbus-daemon for Wayland session (install `dbus-daemon`)"@
                &&& a.phase == Phase::AwaitBus ==> error@
                    == "dbus-daemon did not create session bus socket"@
                &&& a.phase == Phase::SpawnBackend ==> error@
                    == "failed to spawn /usr/libexec/xdg-desktop-portal-wlr (install `xdg-desktop-portal-wlr`)"@
                &&& a.phase == Phase::SpawnPortal ==> error@
                    == "failed to spawn /usr/libexec/xdg-desktop-portal (install `xdg-desktop-portal`)"@
                &&& a.phase == Phase::AwaitPortal ==> error@
                    == "xdg-desktop-portal did not register on session bus"@
            }
        }),
{
}

/// A start begins with the first phase and the compositor that was chosen, or `cage` where none was;
/// it tells its size and its socket as they are, and what it names is named after its number.
pub proof fn starts_begin_as_asked_for(
    config: &WaylandDisplayConfig,
    choice: Option<&str>,
    fresh: Startup,
    s: &Startup,
    size: (u32, u32),
    socket: &str,
    n: u32,
    dir: String,
    output: String,
    media: String,
    to: &str,
    xdg: &str,
    sound: CommandLine,
)
    requires
        call_ensures(Startup::new, (config, choice), fresh),
        call_ensures(Startup::size, (s,), size),
        call_ensures(Startup::wayland_display, (s,), socket),
        call_ensures(xdg_dir, (n,), dir),
        call_ensures(wayland_output_name, (n,), output),
        call_ensures(media_socket, (n,), media),
        call_ensures(wayland_pulse_command, (to, xdg), sound),
    ensures
        fresh@.phase == Phase::MakeDir && fresh@.socket.len() == 0,
        fresh@.display_num == config.display_num,
        (fresh@.width, fresh@.height) == (config.width, config.height),
        choice matches Some(c) ==> fresh@.compositor == c@,
        choice is None ==> fresh@.compositor == "cage"@,
        size.0 == s@.width && size.1 == s@.height,
        socket@ == s@.socket,
        dir@ == "/tmp/beam-xdg-"@ + decimal(n as nat),
        output@ == "WAYLAND-"@ + decimal(n as nat),
        media@ == "/run/user/"@ + decimal(n as nat) + "/pipewire-0"@,
        sound@.program == "pulseaudio"@,
        sound@.args == seq!["--start"@, "--exit-idle-time=-1"@],
        sound@.env == seq![
            ("WAYLAND_DISPLAY"@, to@),
            ("XDG_RUNTIME_DIR"@, xdg@),
            ("XDG_SESSION_TYPE"@, "wayland"@),
        ],
{
}

} // verus!
