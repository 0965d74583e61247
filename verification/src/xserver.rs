//! How an X server comes up, and how its display is given another size, as state machines.
use crate::command::{CommandLine, CommandView};
use crate::display::{
    PROBE_ATTEMPTS, Probe, after_probe, check_startup, check_switch, connected_output,
    connected_output_of, is_temporary, is_worth_a_warning, keyboard_command, keyboard_command_of,
    mode_name_of, needs_resize, not_ready, probe_command, query_command, resize_commands,
    startup_error, static_config_path, unknown_output, xorg_command, xorg_command_of, xrandr,
};
use crate::launch::{display_name, display_name_of};
use crate::modeline::{generate_modeline, modeline_of};
use crate::text::{begins, decimal, holds, opt_text, views, words, words_of};
use vstd::prelude::*;
use vstd::string::*;

verus! {

// ---------------------------------------------------------------------------
// Resizing
// ---------------------------------------------------------------------------

/// How far a resize is.
#[derive(Clone, Copy, PartialEq, Eq, Structural)]
pub enum ResizePhase {
    /// The display is to be reached; so many attempts have failed.
    Probe(u32),
    /// The mode is to be made.
    NewMode,
    /// The mode is to be added to the output.
    AddMode,
    /// The output is to be switched to the mode.
    Switch,
    Done,
    Failed,
}

/// A resize of a display.
pub struct Resizing {
    x_display: String,
    width: u32,
    height: u32,
    output_name: String,
    phase: ResizePhase,
}

/// A resize in mathematical terms.
pub struct ResizingView {
    pub x_display: Seq<char>,
    pub width: u32,
    pub height: u32,
    pub output_name: Seq<char>,
    pub phase: ResizePhase,
}

impl View for Resizing {
    type V = ResizingView;

    closed spec fn view(&self) -> ResizingView {
        ResizingView {
            x_display: self.x_display@,
            width: self.width,
            height: self.height,
            output_name: self.output_name@,
            phase: self.phase,
        }
    }
}

/// What came of a command.
pub enum CommandOutcome {
    /// It could not be run.
    NotRun,
    /// It ran.
    Ran { success: bool, stderr: String },
}

/// What a resize leads to.
pub enum ResizeProgress {
    Continue,
    /// Go on, and say that the command failed.
    Warn,
    /// Wait 200 ms before going on.
    Pause,
    Done,
    Fail(String),
}

/// What a resize leads to, in mathematical terms.
pub enum ResizeProgressView {
    Continue,
    Warn,
    Pause,
    Done,
    Fail(Seq<char>),
}

impl View for ResizeProgress {
    type V = ResizeProgressView;

    open spec fn view(&self) -> ResizeProgressView {
        match self {
            ResizeProgress::Continue => ResizeProgressView::Continue,
            ResizeProgress::Warn => ResizeProgressView::Warn,
            ResizeProgress::Pause => ResizeProgressView::Pause,
            ResizeProgress::Done => ResizeProgressView::Done,
            ResizeProgress::Fail(error) => ResizeProgressView::Fail(error@),
        }
    }
}

/// Whether there is a mode of a size: its blanking must not overflow.
pub open spec fn has_mode(width: u32, height: u32) -> bool {
    width <= u32::MAX - 160 && height <= u32::MAX - 33
}

/// Whether a state can be that of a resize.
pub open spec fn is_resizing(s: ResizingView) -> bool {
    has_mode(s.width, s.height) && (s.phase matches ResizePhase::Probe(n) ==> n < PROBE_ATTEMPTS)
}

/// The command that a phase of a resize asks for.
pub open spec fn resize_command(s: ResizingView) -> Option<CommandView> {
    let mode = mode_name_of(s.width, s.height);
    match s.phase {
        ResizePhase::Probe(_) => Some(xrandr(s.x_display, seq![])),
        ResizePhase::NewMode => Some(
            xrandr(
                s.x_display,
                seq!["--newmode"@, mode] + words_of(modeline_of(s.width, s.height, 60)),
            ),
        ),
        ResizePhase::AddMode => Some(
            xrandr(s.x_display, seq!["--addmode"@, s.output_name, mode]),
        ),
        ResizePhase::Switch => Some(
            xrandr(s.x_display, seq!["--output"@, s.output_name, "--mode"@, mode]),
        ),
        ResizePhase::Done => None,
        ResizePhase::Failed => None,
    }
}

/// The error for a command that cannot be run.
pub open spec fn not_run_error(phase: ResizePhase) -> Seq<char> {
    match phase {
        ResizePhase::NewMode => "Failed to run xrandr --newmode"@,
        ResizePhase::AddMode => "Failed to run xrandr --addmode"@,
        _ => "Failed to run xrandr --output"@,
    }
}

/// Whether a command succeeded.
pub open spec fn succeeded(o: CommandOutcome) -> bool {
    o matches CommandOutcome::Ran { success, .. } && success
}

/// What a command had to say on its errors.
pub open spec fn complaint(o: CommandOutcome) -> Seq<char> {
    match o {
        CommandOutcome::Ran { stderr, .. } => stderr@,
        CommandOutcome::NotRun => Seq::empty(),
    }
}

/// The step from one phase of a resize to the next. The display is tried to be reached for two
/// seconds. That the mode cannot be made or added is no failure: it may be there already.
pub open spec fn resized(s: ResizingView, o: CommandOutcome) -> (ResizingView, ResizeProgressView) {
    let to = |phase: ResizePhase| ResizingView { phase, ..s };
    let passing = if !succeeded(o) && !holds(complaint(o), "already exists"@) {
        ResizeProgressView::Warn
    } else {
        ResizeProgressView::Continue
    };
    match s.phase {
        ResizePhase::Probe(n) => if succeeded(o) {
            (to(ResizePhase::NewMode), ResizeProgressView::Continue)
        } else if n < PROBE_ATTEMPTS - 1 {
            (to(ResizePhase::Probe((n + 1) as u32)), ResizeProgressView::Pause)
        } else {
            (
                to(ResizePhase::Failed),
                ResizeProgressView::Fail(
                    "X display "@ + s.x_display + " not ready after 2 seconds"@,
                ),
            )
        },
        ResizePhase::NewMode => if o is NotRun {
            (to(ResizePhase::Failed), ResizeProgressView::Fail(not_run_error(s.phase)))
        } else {
            (to(ResizePhase::AddMode), passing)
        },
        ResizePhase::AddMode => if o is NotRun {
            (to(ResizePhase::Failed), ResizeProgressView::Fail(not_run_error(s.phase)))
        } else {
            (to(ResizePhase::Switch), passing)
        },
        ResizePhase::Switch => if o is NotRun {
            (to(ResizePhase::Failed), ResizeProgressView::Fail(not_run_error(s.phase)))
        } else if succeeded(o) {
            (to(ResizePhase::Done), ResizeProgressView::Done)
        } else {
            (
                to(ResizePhase::Failed),
                ResizeProgressView::Fail(
                    "Failed to set resolution to "@ + mode_name_of(s.width, s.height) + ": "@
                        + complaint(o),
                ),
            )
        },
        ResizePhase::Done => (s, ResizeProgressView::Done),
        ResizePhase::Failed => (s, ResizeProgressView::Continue),
    }
}

impl Resizing {
    /// A resize that has not begun.
    pub fn new(x_display: &str, width: u32, height: u32, output_name: &str) -> (r: Self)
        requires
            has_mode(width, height),
        ensures
            r@ == (ResizingView {
                x_display: x_display@,
                width,
                height,
                output_name: output_name@,
                phase: ResizePhase::Probe(0),
            }),
            is_resizing(r@),
    {
        Resizing {
            x_display: x_display.to_owned(),
            width,
            height,
            output_name: output_name.to_owned(),
            phase: ResizePhase::Probe(0),
        }
    }

    /// The command to be run next.
    pub fn command(&self) -> (r: Option<CommandLine>)
        requires
            is_resizing(self@),
        ensures
            match r {
                Some(c) => resize_command(self@) == Some(c@),
                None => resize_command(self@) is None,
            },
    {
        let all = resize_commands(
            self.x_display.as_str(),
            self.width,
            self.height,
            self.output_name.as_str(),
        );
        match self.phase {
            ResizePhase::Probe(_) => Some(probe_command(self.x_display.as_str())),
            ResizePhase::NewMode => Some(all.new_mode),
            ResizePhase::AddMode => Some(all.add_mode),
            ResizePhase::Switch => Some(all.switch),
            ResizePhase::Done => None,
            ResizePhase::Failed => None,
        }
    }

    fn fail(&mut self, error: &str) -> (r: ResizeProgress)
        ensures
            final(self)@ == (ResizingView { phase: ResizePhase::Failed, ..old(self)@ }),
            r@ == ResizeProgressView::Fail(error@),
    {
        self.phase = ResizePhase::Failed;
        ResizeProgress::Fail(error.to_owned())
    }

    fn pass(&mut self, phase: ResizePhase, success: bool, stderr: &str) -> (r: ResizeProgress)
        ensures
            final(self)@ == (ResizingView { phase, ..old(self)@ }),
            r@ == if !success && !holds(stderr@, "already exists"@) {
                ResizeProgressView::Warn
            } else {
                ResizeProgressView::Continue
            },
    {
        self.phase = phase;
        if is_worth_a_warning(success, stderr) {
            ResizeProgress::Warn
        } else {
            ResizeProgress::Continue
        }
    }

    /// Takes in what came of the last command, and says what it leads to.
    pub fn advance(&mut self, outcome: &CommandOutcome) -> (r: ResizeProgress)
        requires
            is_resizing(old(self)@),
        ensures
            (final(self)@, r@) == resized(old(self)@, *outcome),
            is_resizing(final(self)@),
    {
        match self.phase {
            ResizePhase::Probe(n) => {
                let reached = match outcome {
                    CommandOutcome::Ran { success, .. } => *success,
                    CommandOutcome::NotRun => false,
                };
                match after_probe(n, reached) {
                    Probe::Ready => {
                        self.phase = ResizePhase::NewMode;
                        ResizeProgress::Continue
                    },
                    Probe::Wait => {
                        self.phase = ResizePhase::Probe(n + 1);
                        ResizeProgress::Pause
                    },
                    Probe::GiveUp => {
                        let error = not_ready(self.x_display.as_str());
                        self.fail(error.as_str())
                    },
                }
            },
            ResizePhase::NewMode => match outcome {
                CommandOutcome::NotRun => self.fail("Failed to run xrandr --newmode"),
                CommandOutcome::Ran { success, stderr } => self.pass(
                    ResizePhase::AddMode,
                    *success,
                    stderr.as_str(),
                ),
            },
            ResizePhase::AddMode => match outcome {
                CommandOutcome::NotRun => self.fail("Failed to run xrandr --addmode"),
                CommandOutcome::Ran { success, stderr } => self.pass(
                    ResizePhase::Switch,
                    *success,
                    stderr.as_str(),
                ),
            },
            ResizePhase::Switch => match outcome {
                CommandOutcome::NotRun => self.fail("Failed to run xrandr --output"),
                CommandOutcome::Ran { success, stderr } => match check_switch(
                    self.width,
                    self.height,
                    *success,
                    stderr.as_str(),
                ) {
                    Ok(()) => {
                        self.phase = ResizePhase::Done;
                        ResizeProgress::Done
                    },
                    Err(error) => self.fail(error.as_str()),
                },
            },
            ResizePhase::Done => ResizeProgress::Done,
            ResizePhase::Failed => ResizeProgress::Continue,
        }
    }
}

// ---------------------------------------------------------------------------
// Starting
// ---------------------------------------------------------------------------

/// How far the start of an X server is.
#[derive(Clone, Copy, PartialEq, Eq, Structural)]
pub enum StartPhase {
    /// The server is to be started.
    Spawn,
    /// It is to be seen whether the server runs.
    Look,
    /// The outputs are to be listed; so many attempts have failed.
    Query(u32),
    /// The display is to be given its size.
    Resize,
    /// The keyboard is to be given its rules.
    Keyboard,
    Ready,
    Failed,
}

/// The start of an X server.
pub struct ServerStart {
    display_num: u32,
    config_path: String,
    binary_exists: bool,
    phase: StartPhase,
    output_name: String,
}

/// The start in mathematical terms.
pub struct ServerStartView {
    pub display_num: u32,
    pub config_path: Seq<char>,
    /// Whether the server's own binary exists.
    pub binary_exists: bool,
    pub phase: StartPhase,
    /// The output of the display, once it is known.
    pub output_name: Seq<char>,
}

impl View for ServerStart {
    type V = ServerStartView;

    closed spec fn view(&self) -> ServerStartView {
        ServerStartView {
            display_num: self.display_num,
            config_path: self.config_path@,
            binary_exists: self.binary_exists,
            phase: self.phase,
            output_name: self.output_name@,
        }
    }
}

/// What came of a step.
pub enum StartEvent {
    Done,
    Failed,
    /// How the server has exited, where it has, and whether the holder of its lock exists.
    Looked { exit_status: Option<String>, runs: bool },
    /// What the list of outputs printed, where it succeeded.
    Printed(Option<String>),
}

/// What is to be done.
pub enum StartAction {
    /// Start the server.
    Spawn(CommandLine),
    /// Wait half a second, and see whether the server runs.
    Look,
    /// List the outputs.
    Query(CommandLine),
    /// Give the display its size, on its output.
    Resize,
    /// Give the keyboard its rules.
    Keyboard(CommandLine),
    Nothing,
}

/// What a step leads to.
pub enum StartProgress {
    Continue,
    /// Wait 200 ms before going on.
    Pause,
    Ready,
    Fail(String),
}

/// What a step leads to, in mathematical terms.
pub enum StartProgressView {
    Continue,
    Pause,
    Ready,
    Fail(Seq<char>),
}

impl View for StartProgress {
    type V = StartProgressView;

    open spec fn view(&self) -> StartProgressView {
        match self {
            StartProgress::Continue => StartProgressView::Continue,
            StartProgress::Pause => StartProgressView::Pause,
            StartProgress::Ready => StartProgressView::Ready,
            StartProgress::Fail(error) => StartProgressView::Fail(error@),
        }
    }
}

/// Whether a state can be that of a start.
pub open spec fn is_starting(s: ServerStartView) -> bool {
    s.phase matches StartPhase::Query(n) ==> n < PROBE_ATTEMPTS
}

/// Whether an action is what a phase of a start asks for.
pub open spec fn is_start_action(a: StartAction, s: ServerStartView) -> bool {
    let x_display = display_name_of(s.display_num);
    match s.phase {
        StartPhase::Spawn => a matches StartAction::Spawn(c) && c@ == xorg_command_of(
            s.display_num,
            s.config_path,
            s.binary_exists,
        ),
        StartPhase::Look => a is Look,
        StartPhase::Query(_) => a matches StartAction::Query(c) && c@ == xrandr(
            x_display,
            seq!["--query"@],
        ),
        StartPhase::Resize => a is Resize,
        StartPhase::Keyboard => a matches StartAction::Keyboard(c) && c@ == keyboard_command_of(
            x_display,
        ),
        StartPhase::Ready => a is Nothing,
        StartPhase::Failed => a is Nothing,
    }
}

/// The phase once the output is known. A display on the packaged configuration starts without a
/// mode of the session's size, and is resized at once.
pub open spec fn after_output(s: ServerStartView, output_name: Seq<char>) -> ServerStartView {
    ServerStartView {
        output_name,
        phase: if s.config_path == static_config_path() {
            StartPhase::Resize
        } else {
            StartPhase::Keyboard
        },
        ..s
    }
}

/// The step from one phase of a start to the next. The outputs are asked for during two seconds;
/// a display that does not name one is taken to run on the dummy driver. Neither the size nor the
/// keyboard is worth giving up for. An event that does not belong to the phase changes nothing.
pub open spec fn started(s: ServerStartView, e: StartEvent) -> (ServerStartView, StartProgressView) {
    let to = |phase: StartPhase| ServerStartView { phase, ..s };
    match (s.phase, e) {
        (StartPhase::Spawn, StartEvent::Done) => (
            to(StartPhase::Look),
            StartProgressView::Continue,
        ),
        (StartPhase::Spawn, StartEvent::Failed) => (
            to(StartPhase::Failed),
            StartProgressView::Fail("Failed to start Xorg on "@ + display_name_of(s.display_num)),
        ),
        (StartPhase::Look, StartEvent::Looked { exit_status, runs }) => match startup_error(
            s.display_num,
            opt_text(exit_status),
            runs,
        ) {
            Some(error) => (to(StartPhase::Failed), StartProgressView::Fail(error)),
            None => (to(StartPhase::Query(0)), StartProgressView::Continue),
        },
        (StartPhase::Query(n), StartEvent::Printed(printed)) => match printed {
            Some(stdout) => (
                after_output(s, connected_output_of(stdout@)),
                StartProgressView::Continue,
            ),
            None => if n < PROBE_ATTEMPTS - 1 {
                (to(StartPhase::Query((n + 1) as u32)), StartProgressView::Pause)
            } else {
                (after_output(s, "DUMMY0"@), StartProgressView::Continue)
            },
        },
        (StartPhase::Resize, StartEvent::Done) => (
            to(StartPhase::Keyboard),
            StartProgressView::Continue,
        ),
        (StartPhase::Resize, StartEvent::Failed) => (
            to(StartPhase::Keyboard),
            StartProgressView::Continue,
        ),
        (StartPhase::Keyboard, StartEvent::Done) => (
            to(StartPhase::Ready),
            StartProgressView::Ready,
        ),
        (StartPhase::Keyboard, StartEvent::Failed) => (
            to(StartPhase::Ready),
            StartProgressView::Ready,
        ),
        (StartPhase::Ready, _) => (s, StartProgressView::Ready),
        _ => (s, StartProgressView::Continue),
    }
}

impl ServerStart {
    /// A start that has not begun, with the configuration at a path. `binary_exists` says whether
    /// `/usr/lib/xorg/Xorg` does.
    pub fn new(display_num: u32, config_path: &str, binary_exists: bool) -> (r: Self)
        ensures
            r@ == (ServerStartView {
                display_num,
                config_path: config_path@,
                binary_exists,
                phase: StartPhase::Spawn,
                output_name: Seq::empty(),
            }),
            is_starting(r@),
    {
        ServerStart {
            display_num,
            config_path: config_path.to_owned(),
            binary_exists,
            phase: StartPhase::Spawn,
            output_name: String::new(),
        }
    }

    /// The output of the display, once it is known.
    pub fn output_name(&self) -> (r: &str)
        ensures
            r@ == self@.output_name,
    {
        self.output_name.as_str()
    }

    /// The configuration, where it was written for this session and is to be removed after it.
    pub fn cleanup_config(&self) -> (r: Option<String>)
        ensures
            opt_text(r) == if begins(self@.config_path, "/tmp/"@) {
                Some(self@.config_path)
            } else {
                None
            },
    {
        if is_temporary(self.config_path.as_str()) {
            Some(self.config_path.clone())
        } else {
            None
        }
    }

    /// What is to be done next.
    pub fn action(&self) -> (r: StartAction)
        ensures
            is_start_action(r, self@),
    {
        let x_display = display_name(self.display_num);
        match self.phase {
            StartPhase::Spawn => StartAction::Spawn(
                xorg_command(self.display_num, self.config_path.as_str(), self.binary_exists),
            ),
            StartPhase::Look => StartAction::Look,
            StartPhase::Query(_) => StartAction::Query(query_command(x_display.as_str())),
            StartPhase::Resize => StartAction::Resize,
            StartPhase::Keyboard => StartAction::Keyboard(keyboard_command(x_display.as_str())),
            StartPhase::Ready => StartAction::Nothing,
            StartPhase::Failed => StartAction::Nothing,
        }
    }

    fn note_output(&mut self, output_name: String)
        ensures
            final(self)@ == after_output(old(self)@, output_name@),
    {
        self.output_name = output_name;
        self.phase = if needs_resize(self.config_path.as_str()) {
            StartPhase::Resize
        } else {
            StartPhase::Keyboard
        };
    }

    /// Takes in what came of the last step, and says what it leads to.
    pub fn advance(&mut self, event: &StartEvent) -> (r: StartProgress)
        requires
            is_starting(old(self)@),
        ensures
            (final(self)@, r@) == started(old(self)@, *event),
            is_starting(final(self)@),
    {
        match (self.phase, event) {
            (StartPhase::Spawn, StartEvent::Done) => {
                self.phase = StartPhase::Look;
                StartProgress::Continue
            },
            (StartPhase::Spawn, StartEvent::Failed) => {
                self.phase = StartPhase::Failed;
                StartProgress::Fail(
                    "Failed to start Xorg on ".to_owned().concat(
                        display_name(self.display_num).as_str(),
                    ),
                )
            },
            (StartPhase::Look, StartEvent::Looked { exit_status, runs }) => {
                let status: Option<&str> = match exit_status {
                    Some(s) => Some(s.as_str()),
                    None => None,
                };
                match check_startup(self.display_num, status, *runs) {
                    Ok(()) => {
                        self.phase = StartPhase::Query(0);
                        StartProgress::Continue
                    },
                    Err(error) => {
                        self.phase = StartPhase::Failed;
                        StartProgress::Fail(error)
                    },
                }
            },
            (StartPhase::Query(n), StartEvent::Printed(printed)) => match printed {
                Some(stdout) => {
                    let name = connected_output(stdout.as_str());
                    self.note_output(name);
                    StartProgress::Continue
                },
                None => match after_probe(n, false) {
                    Probe::Wait => {
                        self.phase = StartPhase::Query(n + 1);
                        StartProgress::Pause
                    },
                    _ => {
                        self.note_output(unknown_output());
                        StartProgress::Continue
                    },
                },
            },
            (StartPhase::Resize, StartEvent::Done) | (StartPhase::Resize, StartEvent::Failed) => {
                self.phase = StartPhase::Keyboard;
                StartProgress::Continue
            },
            (StartPhase::Keyboard, StartEvent::Done) | (
                StartPhase::Keyboard,
                StartEvent::Failed,
            ) => {
                self.phase = StartPhase::Ready;
                StartProgress::Ready
            },
            (StartPhase::Ready, _) => StartProgress::Ready,
            _ => StartProgress::Continue,
        }
    }
}

// ---------------------------------------------------------------------------
// Laws
// ---------------------------------------------------------------------------

/// How many commands a resize has before it, at most.
pub open spec fn commands_left(phase: ResizePhase) -> int {
    match phase {
        ResizePhase::Probe(n) => PROBE_ATTEMPTS - n + 3,
        ResizePhase::NewMode => 3,
        ResizePhase::AddMode => 2,
        ResizePhase::Switch => 1,
        ResizePhase::Done => 0,
        ResizePhase::Failed => 0,
    }
}

/// A resize comes to an end, whatever its commands do, and keeps to its display and its size.
pub proof fn resizes_come_to_an_end(s: ResizingView, o: CommandOutcome)
    requires
        is_resizing(s),
        commands_left(s.phase) > 0,
    ensures
        ({
            let after = resized(s, o).0;
            &&& is_resizing(after)
            &&& 0 <= commands_left(after.phase) < commands_left(s.phase)
            &&& (after.x_display, after.width, after.height, after.output_name) == (
                s.x_display,
                s.width,
                s.height,
                s.output_name,
            )
        }),
{
}

/// A resize is done only when the switch to the mode has succeeded, and a mode that was there
/// before does not stand in its way.
pub proof fn resizes_are_done_by_a_switch(s: ResizingView, o: CommandOutcome)
    requires
        is_resizing(s),
        s.phase != ResizePhase::Done,
    ensures
        resized(s, o).1 is Done <==> s.phase == ResizePhase::Switch && succeeded(o),
        (s.phase == ResizePhase::NewMode || s.phase == ResizePhase::AddMode) && holds(
            complaint(o),
            "already exists"@,
        ) && o is Ran ==> resized(s, o).1 is Continue,
{
}

/// How many steps a start has before it, at most.
pub open spec fn steps_left(phase: StartPhase) -> int {
    match phase {
        StartPhase::Spawn => PROBE_ATTEMPTS + 4,
        StartPhase::Look => PROBE_ATTEMPTS + 3,
        StartPhase::Query(n) => PROBE_ATTEMPTS - n + 2,
        StartPhase::Resize => 2,
        StartPhase::Keyboard => 1,
        StartPhase::Ready => 0,
        StartPhase::Failed => 0,
    }
}

/// Whether an event can come of what a phase asks for.
pub open spec fn answers(phase: StartPhase, e: StartEvent) -> bool {
    match phase {
        StartPhase::Look => e is Looked,
        StartPhase::Query(_) => e is Printed,
        _ => e is Done || e is Failed,
    }
}

/// A start comes to an end, whatever its steps come to.
pub proof fn server_starts_come_to_an_end(s: ServerStartView, e: StartEvent)
    requires
        is_starting(s),
        answers(s.phase, e),
        steps_left(s.phase) > 0,
    ensures
        is_starting(started(s, e).0),
        0 <= steps_left(started(s, e).0.phase) < steps_left(s.phase),
{
}

/// Once a server is known to run, its start does not fail any more.
pub proof fn running_servers_get_ready(s: ServerStartView, e: StartEvent)
    requires
        s.phase is Query || s.phase == StartPhase::Resize || s.phase == StartPhase::Keyboard,
    ensures
        !(started(s, e).1 is Fail),
        started(s, e).0.phase != StartPhase::Failed,
{
}

/// The states that a start goes through once the output is known.
pub open spec fn knows_output(phase: StartPhase) -> bool {
    phase == StartPhase::Resize || phase == StartPhase::Keyboard || phase == StartPhase::Ready
}

/// The output is known before the display is given its size, and stays. A display of the session's
/// own configuration is not resized.
pub proof fn outputs_stay(s: ServerStartView, e: StartEvent)
    ensures
        knows_output(s.phase) ==> knows_output(started(s, e).0.phase) && started(s, e).0.output_name
            == s.output_name,
        s.phase != StartPhase::Resize && started(s, e).0.phase == StartPhase::Resize ==> s.phase is Query
            && s.config_path == static_config_path(),
{
}

/// A resize goes from command to command: the display is tried ten times, with a pause after each
/// failure; the mode is made and added, whether it was there or not; and the switch decides. A
/// command that cannot be run ends it.
pub proof fn resizes_go_step_by_step(s: &mut Resizing, o: &CommandOutcome, r: ResizeProgress)
    requires
        is_resizing(old(s)@),
        call_ensures(Resizing::advance, (s, o), r),
    ensures
        ({
            let a = old(s)@.phase;
            let b = final(s)@.phase;
            let good = *o matches CommandOutcome::Ran { success, .. } && success;
            let old_mode = *o matches CommandOutcome::Ran { success, stderr } && holds(
                stderr@,
                "already exists"@,
            );
            &&& a matches ResizePhase::Probe(n) ==> {
                &&& good ==> b == ResizePhase::NewMode && r is Continue
                &&& !good && n < 9 ==> b == ResizePhase::Probe((n + 1) as u32) && r is Pause
                &&& !good && n >= 9 ==> b == ResizePhase::Failed && r is Fail
            }
            &&& a == ResizePhase::NewMode && *o is Ran ==> b == ResizePhase::AddMode
            &&& a == ResizePhase::AddMode && *o is Ran ==> b == ResizePhase::Switch
            &&& (a == ResizePhase::NewMode || a == ResizePhase::AddMode) && *o is Ran ==> (r is Warn
                <==> !good && !old_mode) && (r is Continue <==> good || old_mode)
            &&& a == ResizePhase::Switch && good ==> b == ResizePhase::Done && r is Done
            &&& a == ResizePhase::Switch && !good ==> b == ResizePhase::Failed && r is Fail
            &&& *o is NotRun && (a == ResizePhase::NewMode || a == ResizePhase::AddMode)
                ==> b == ResizePhase::Failed && r is Fail
            &&& (final(s)@.width, final(s)@.height) == (old(s)@.width, old(s)@.height)
            &&& final(s)@.x_display == old(s)@.x_display
            &&& final(s)@.output_name == old(s)@.output_name
        }),
{
}

/// The mode that is made, the one that is added to the output and the one that the output is
/// switched to are the same, by the width and the height that were asked for, on the display.
pub proof fn resizes_use_one_mode(s: &Resizing, c: Option<CommandLine>)
    requires
        is_resizing(s@),
        call_ensures(Resizing::command, (s,), c),
    ensures
        ({
            let mode = decimal(s@.width as nat) + "x"@ + decimal(s@.height as nat);
            &&& c is None <==> s@.phase == ResizePhase::Done || s@.phase == ResizePhase::Failed
            &&& c matches Some(l) ==> l@.program == "xrandr"@ && l@.env == seq![
                ("DISPLAY"@, s@.x_display),
            ]
            &&& s@.phase == ResizePhase::NewMode ==> c->0@.args[0] == "--newmode"@ && c->0@.args[1]
                == mode
            &&& s@.phase == ResizePhase::AddMode ==> c->0@.args == seq![
                "--addmode"@,
                s@.output_name,
                mode,
            ]
            &&& s@.phase == ResizePhase::Switch ==> c->0@.args == seq![
                "--output"@,
                s@.output_name,
                "--mode"@,
                mode,
            ]
            &&& s@.phase is Probe ==> c->0@.args.len() == 0
        }),
{
}

/// A server's start goes from step to step: it fails where the server cannot be started, has exited,
/// or does not run half a second later, and from then on it gets ready, with the output that is
/// connected, or that of the dummy driver after ten attempts to list them.
pub proof fn server_starts_go_step_by_step(s: &mut ServerStart, e: &StartEvent, r: StartProgress)
    requires
        is_starting(old(s)@),
        call_ensures(ServerStart::advance, (s, e), r),
    ensures
        ({
            let a = old(s)@.phase;
            let b = final(s)@.phase;
            let packaged = old(s)@.config_path == "/etc/X11/beam-xorg.conf"@;
            let known = if packaged {
                StartPhase::Resize
            } else {
                StartPhase::Keyboard
            };
            &&& a == StartPhase::Spawn && *e is Done ==> b == StartPhase::Look && r is Continue
            &&& a == StartPhase::Spawn && *e is Failed ==> b == StartPhase::Failed && r is Fail
            &&& a == StartPhase::Look ==> (*e matches StartEvent::Looked { exit_status, runs } ==> {
                &&& exit_status is Some || !runs ==> b == StartPhase::Failed && r is Fail
                &&& exit_status is None && runs ==> b == StartPhase::Query(0) && r is Continue
            })
            &&& a matches StartPhase::Query(n) ==> (*e matches StartEvent::Printed(p) ==> {
                &&& p matches Some(t) ==> b == known && final(s)@.output_name == connected_output_of(
                    t@,
                ) && r is Continue
                &&& p is None && n < 9 ==> b == StartPhase::Query((n + 1) as u32) && r is Pause
                &&& p is None && n >= 9 ==> b == known && final(s)@.output_name == "DUMMY0"@
                    && r is Continue
            })
            &&& a == StartPhase::Resize && (*e is Done || *e is Failed) ==> b == StartPhase::Keyboard
                && r is Continue
            &&& a == StartPhase::Keyboard && (*e is Done || *e is Failed) ==> b == StartPhase::Ready
                && r is Ready
            &&& !(a is Query) ==> final(s)@.output_name == old(s)@.output_name
            &&& final(s)@.display_num == old(s)@.display_num
            &&& final(s)@.config_path == old(s)@.config_path
        }),
{
}

/// A configuration is removed after its session exactly where it lies below `/tmp`.
pub proof fn own_configurations_are_removed(s: &ServerStart, r: Option<String>)
    requires
        call_ensures(ServerStart::cleanup_config, (s,), r),
    ensures
        r is Some <==> begins(s@.config_path, "/tmp/"@),
        r matches Some(p) ==> p@ == s@.config_path,
{
}

/// A resize begins with the first probe of its display, names the step that could not be run, says
/// what the display said when it would not switch, and does nothing once it is over. A mode is made
/// by the numbers of its mode line at sixty frames.
pub proof fn resizes_say_why(
    x_display: &str,
    width: u32,
    height: u32,
    output: &str,
    fresh: Resizing,
    s: &mut Resizing,
    o: &CommandOutcome,
    r: ResizeProgress,
    t: &Resizing,
    c: Option<CommandLine>,
    line: String,
    l: &str,
    numbers: Vec<&str>,
)
    requires
        width <= u32::MAX - 160 && height <= u32::MAX - 33,
        call_ensures(Resizing::new, (x_display, width, height, output), fresh),
        is_resizing(old(s)@),
        call_ensures(Resizing::advance, (s, o), r),
        is_resizing(t@),
        call_ensures(Resizing::command, (t,), c),
        call_ensures(generate_modeline, (t@.width, t@.height, 60), line),
        l@ == line@,
        call_ensures(words, (l,), numbers),
    ensures
        fresh@.phase == ResizePhase::Probe(0),
        fresh@.x_display == x_display@ && fresh@.output_name == output@,
        fresh@.width == width && fresh@.height == height,
        ({
            let a = old(s)@;
            &&& a.phase is Probe ==> (r matches ResizeProgress::Fail(e) ==> e@ == "X display "@
                + a.x_display + " not ready after 2 seconds"@)
            &&& a.phase == ResizePhase::NewMode ==> (r matches ResizeProgress::Fail(e) ==> e@
                == "Failed to run xrandr --newmode"@)
            &&& a.phase == ResizePhase::AddMode ==> (r matches ResizeProgress::Fail(e) ==> e@
                == "Failed to run xrandr --addmode"@)
            &&& a.phase == ResizePhase::Switch ==> (r matches ResizeProgress::Fail(e) ==> match *o {
                CommandOutcome::NotRun => e@ == "Failed to run xrandr --output"@,
                CommandOutcome::Ran { stderr, .. } => e@ == "Failed to set resolution to "@ + (decimal(
                    a.width as nat,
                ) + "x"@ + decimal(a.height as nat)) + ": "@ + stderr@,
            })
            &&& a.phase == ResizePhase::Done ==> r is Done && final(s)@ == a
            &&& a.phase == ResizePhase::Failed ==> r is Continue && final(s)@ == a
        }),
        t@.phase == ResizePhase::NewMode ==> c->0@.args.skip(2) == views(numbers@),
{
    if t@.phase == ResizePhase::NewMode {
        assert(c->0@.args.skip(2) =~= views(numbers@));
    }
}

/// A server is started with its configuration, looked at, asked for its outputs and given the
/// keyboard, on its own display and in these phases; what happens in another phase changes nothing.
pub proof fn servers_are_started_on_their_display(
    n: u32,
    path: &str,
    binary: bool,
    fresh: ServerStart,
    s: &ServerStart,
    a: StartAction,
    output: &str,
    p: &str,
    server: CommandLine,
    x_display: &str,
    query: CommandLine,
    keyboard: CommandLine,
)
    requires
        call_ensures(ServerStart::new, (n, path, binary), fresh),
        call_ensures(ServerStart::action, (s,), a),
        call_ensures(ServerStart::output_name, (s,), output),
        p@ == s@.config_path,
        call_ensures(xorg_command, (s@.display_num, p, s@.binary_exists), server),
        x_display@ == ":"@ + decimal(s@.display_num as nat),
        call_ensures(query_command, (x_display,), query),
        call_ensures(keyboard_command, (x_display,), keyboard),
    ensures
        fresh@.phase == StartPhase::Spawn && fresh@.output_name.len() == 0,
        fresh@.display_num == n && fresh@.config_path == path@ && fresh@.binary_exists == binary,
        output@ == s@.output_name,
        a is Spawn <==> s@.phase == StartPhase::Spawn,
        a matches StartAction::Spawn(c) ==> c@ == server@,
        a is Look <==> s@.phase == StartPhase::Look,
        a is Query <==> s@.phase is Query,
        a matches StartAction::Query(c) ==> c@ == query@,
        a is Resize <==> s@.phase == StartPhase::Resize,
        a is Keyboard <==> s@.phase == StartPhase::Keyboard,
        a matches StartAction::Keyboard(c) ==> c@ == keyboard@,
        a is Nothing <==> s@.phase == StartPhase::Ready || s@.phase == StartPhase::Failed,
{
}

/// A start that fails says whether the server could not be started, exited or did not run, and on
/// which display; the output is the one that the list of outputs gives. What does not belong to a
/// phase changes nothing.
pub proof fn failed_servers_say_why(
    s: &mut ServerStart,
    e: &StartEvent,
    r: StartProgress,
    stdout: &str,
    found: String,
)
    requires
        is_starting(old(s)@),
        call_ensures(ServerStart::advance, (s, e), r),
        call_ensures(connected_output, (stdout,), found),
    ensures
        ({
            let a = old(s)@;
            let b = final(s)@;
            let display = ":"@ + decimal(a.display_num as nat);
            &&& b.binary_exists == a.binary_exists
            &&& a.phase == StartPhase::Spawn ==> (r matches StartProgress::Fail(m) ==> m@
                == "Failed to start Xorg on "@ + display)
            &&& *e matches StartEvent::Looked { exit_status: Some(status), .. } ==> (
            r matches StartProgress::Fail(m) ==> m@ == "Xorg exited immediately with status: "@
                + status@ + " on "@ + display)
            &&& *e matches StartEvent::Looked { exit_status: None, .. } ==> (
            r matches StartProgress::Fail(m) ==> m@ == "Xorg failed to start on "@ + display)
            &&& a.phase is Query ==> (*e matches StartEvent::Printed(Some(t)) ==> (t@ == stdout@
                ==> b.output_name == found@))
            &&& a.phase == StartPhase::Ready ==> b == a && r is Ready
            &&& a.phase == StartPhase::Failed ==> b == a && r is Continue
            &&& *e is Looked && a.phase != StartPhase::Look ==> b == a
            &&& *e is Printed && !(a.phase is Query) ==> b == a
            &&& (*e is Done || *e is Failed) && (a.phase == StartPhase::Look || a.phase is Query)
                ==> b == a && r is Continue
        }),
{
}

} // verus!
