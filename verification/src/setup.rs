//! What is done, step by step, for a display's configuration, its desktop and its sound.
use crate::command::{CommandLine, CommandView};
use crate::desktop::{
    KeyringPlan, Setting, background_command, background_command_of, first_settings,
    first_settings_list, keyring_command_of, keyring_control_of, keyring_data_of, keyring_plan,
    openbox_command, openbox_command_of, openbox_terminal, openbox_terminal_of, pulse_dir,
    pulse_dir_of, pulse_script, pulse_script_of, pulseaudio_command, pulseaudio_command_of,
    runtime_dir, runtime_dir_of, setting_command, setting_command_of, setting_view, xfce_command,
    xfce_command_of,
};
use crate::display::{ConfigPlan, ConfigPlanView, pa_config, pa_config_of};
use crate::launch::{display_name, display_name_of};
use crate::seed::{FileAction, FileActionView};
use crate::text::{decimal, opt_view};
use vstd::prelude::*;
use vstd::string::*;

verus! {

/// Something to be done for a session.
pub enum Deed {
    /// Do something to the file system.
    File(FileAction),
    /// Remove a file.
    RemoveFile(String),
    /// Write the data of a monitor to a file.
    WriteEdid(String),
    /// Start a process that is stopped with the display.
    Keep(CommandLine),
    /// Start such a process as the leader of a process group, which is stopped with it.
    KeepGroup(CommandLine),
    /// Start a process that is left to itself.
    Launch(CommandLine),
    /// Run a process to its end.
    Run(CommandLine),
}

/// What becomes of a deed that fails.
pub enum Failure {
    /// It is passed over.
    Ignore,
    /// It ends the setup, with the error that it had.
    Report,
    /// It ends the setup, with the given error.
    ReportAs(String),
}

/// A step of a setup.
pub struct Task {
    pub deed: Deed,
    pub failure: Failure,
}

/// A deed in mathematical terms.
pub enum DeedView {
    File(FileActionView),
    RemoveFile(Seq<char>),
    WriteEdid(Seq<char>),
    Keep(CommandView),
    KeepGroup(CommandView),
    Launch(CommandView),
    Run(CommandView),
}

/// A failure in mathematical terms.
pub enum FailureView {
    Ignore,
    Report,
    ReportAs(Seq<char>),
}

/// A step in mathematical terms.
pub struct TaskView {
    pub deed: DeedView,
    pub failure: FailureView,
}

impl View for Deed {
    type V = DeedView;

    open spec fn view(&self) -> DeedView {
        match self {
            Deed::File(action) => DeedView::File(action@),
            Deed::RemoveFile(path) => DeedView::RemoveFile(path@),
            Deed::WriteEdid(path) => DeedView::WriteEdid(path@),
            Deed::Keep(command) => DeedView::Keep(command@),
            Deed::KeepGroup(command) => DeedView::KeepGroup(command@),
            Deed::Launch(command) => DeedView::Launch(command@),
            Deed::Run(command) => DeedView::Run(command@),
        }
    }
}

impl View for Failure {
    type V = FailureView;

    open spec fn view(&self) -> FailureView {
        match self {
            Failure::Ignore => FailureView::Ignore,
            Failure::Report => FailureView::Report,
            Failure::ReportAs(error) => FailureView::ReportAs(error@),
        }
    }
}

impl View for Task {
    type V = TaskView;

    open spec fn view(&self) -> TaskView {
        TaskView { deed: self.deed@, failure: self.failure@ }
    }
}

/// The steps of a setup in mathematical terms.
pub open spec fn tasks_view(v: Seq<Task>) -> Seq<TaskView> {
    v.map_values(|t: Task| t@)
}

/// A step that may fail.
pub open spec fn may(deed: DeedView) -> TaskView {
    TaskView { deed, failure: FailureView::Ignore }
}

/// A step that must not fail.
pub open spec fn must(deed: DeedView, error: Seq<char>) -> TaskView {
    TaskView { deed, failure: FailureView::ReportAs(error) }
}

fn add_task(tasks: &mut Vec<Task>, deed: Deed, failure: Failure)
    ensures
        tasks_view(final(tasks)@) == tasks_view(old(tasks)@).push(
            TaskView { deed: deed@, failure: failure@ },
        ),
{
    let task = Task { deed, failure };
    tasks.push(task);
    assert(tasks_view(tasks@) =~= tasks_view(old(tasks)@).push(task@));
}

// ---------------------------------------------------------------------------
// The display
// ---------------------------------------------------------------------------

/// A step where there is a path for it.
pub open spec fn if_some(path: Option<Seq<char>>, task: spec_fn(Seq<char>) -> TaskView) -> Seq<
    TaskView,
> {
    match path {
        Some(p) => seq![task(p)],
        None => seq![],
    }
}

/// The error for a configuration that cannot be written. Only one for an NVIDIA card has the data
/// of a monitor.
pub open spec fn config_error(plan: ConfigPlanView) -> Seq<char> {
    if plan.edid_path is Some {
        "Failed to write nvidia Xorg config to "@ + plan.config_path
    } else {
        "Failed to write Xorg config to "@ + plan.config_path
    }
}

/// The steps by which the configuration of a display is written: the directory, the data of the
/// monitor, and the file itself, in place of one that may be there.
pub open spec fn config_tasks_of(plan: ConfigPlanView) -> Seq<TaskView> {
    if_some(
        plan.make_dir,
        |dir: Seq<char>| may(DeedView::File(FileActionView::MakeDir(dir))),
    ) + if_some(
        plan.edid_path,
        |path: Seq<char>|
            TaskView { deed: DeedView::WriteEdid(path), failure: FailureView::Report },
    ) + match plan.content {
        Some(content) => seq![
            may(DeedView::RemoveFile(plan.config_path)),
            must(
                DeedView::File(FileActionView::Write(plan.config_path, content)),
                config_error(plan),
            ),
        ],
        None => seq![],
    }
}

/// The steps by which the configuration of a display is written.
pub fn config_tasks(plan: &ConfigPlan) -> (r: Vec<Task>)
    ensures
        tasks_view(r@) == config_tasks_of(plan@),
{
    let mut r: Vec<Task> = Vec::new();
    match &plan.make_dir {
        Some(dir) => {
            add_task(&mut r, Deed::File(FileAction::MakeDir(dir.clone())), Failure::Ignore);
        },
        None => {},
    }
    match &plan.edid_path {
        Some(path) => {
            add_task(&mut r, Deed::WriteEdid(path.clone()), Failure::Report);
        },
        None => {},
    }
    match &plan.content {
        Some(content) => {
            let path = plan.config_path.as_str();
            let error = match &plan.edid_path {
                Some(_) => "Failed to write nvidia Xorg config to ".to_owned().concat(path),
                None => "Failed to write Xorg config to ".to_owned().concat(path),
            };
            add_task(&mut r, Deed::RemoveFile(plan.config_path.clone()), Failure::Ignore);
            add_task(
                &mut r,
                Deed::File(FileAction::Write(plan.config_path.clone(), content.clone())),
                Failure::ReportAs(error),
            );
        },
        None => {},
    }
    assert(tasks_view(r@) =~= config_tasks_of(plan@));
    r
}

// ---------------------------------------------------------------------------
// The desktop
// ---------------------------------------------------------------------------

/// The steps that start XFCE: a runtime directory of its own, made anew and private, and the
/// session in a process group of its own.
pub open spec fn xfce_tasks_of(
    display_num: u32,
    config_dir: Seq<char>,
    browser: Option<Seq<char>>,
    terminal: Option<Seq<char>>,
) -> Seq<TaskView> {
    let dir = runtime_dir_of(display_num);
    seq![
        may(DeedView::File(FileActionView::RemoveDir(dir))),
        must(
            DeedView::File(FileActionView::MakeDir(dir)),
            "Failed to create runtime dir: "@ + dir,
        ),
        may(DeedView::File(FileActionView::MakePrivate(dir))),
        must(
            DeedView::KeepGroup(xfce_command_of(display_num, config_dir, browser, terminal)),
            "Failed to start XFCE4 desktop via dbus-launch"@,
        ),
    ]
}

/// The steps that start XFCE with its configuration in a directory. Once it is started, it is to
/// be settled in the background.
pub fn xfce_tasks(
    display_num: u32,
    config_dir: &str,
    browser: Option<&str>,
    terminal: Option<&str>,
) -> (r: Vec<Task>)
    ensures
        tasks_view(r@) == xfce_tasks_of(
            display_num,
            config_dir@,
            opt_view(browser),
            opt_view(terminal),
        ),
{
    let dir = runtime_dir(display_num);
    let mut r: Vec<Task> = Vec::new();
    add_task(&mut r, Deed::File(FileAction::RemoveDir(dir.clone())), Failure::Ignore);
    add_task(
        &mut r,
        Deed::File(FileAction::MakeDir(dir.clone())),
        Failure::ReportAs("Failed to create runtime dir: ".to_owned().concat(dir.as_str())),
    );
    add_task(&mut r, Deed::File(FileAction::MakePrivate(dir)), Failure::Ignore);
    add_task(
        &mut r,
        Deed::KeepGroup(xfce_command(display_num, config_dir, browser, terminal)),
        Failure::ReportAs("Failed to start XFCE4 desktop via dbus-launch".to_owned()),
    );
    assert(tasks_view(r@) =~= xfce_tasks_of(
        display_num,
        config_dir@,
        opt_view(browser),
        opt_view(terminal),
    ));
    r
}

/// The steps that start Openbox, with a background and, where there is one, a terminal.
pub open spec fn openbox_tasks_of(display_num: u32, xfce4_terminal: bool, xterm: bool) -> Seq<
    TaskView,
> {
    seq![
        must(
            DeedView::Keep(openbox_command_of(display_num)),
            "Failed to start openbox"@,
        ),
        may(DeedView::Run(background_command_of(display_num))),
    ] + match openbox_terminal_of(display_num, xfce4_terminal, xterm) {
        Some(command) => seq![may(DeedView::Launch(command))],
        None => seq![],
    }
}

/// The steps that start Openbox, with a background and, where one is installed, a terminal.
pub fn openbox_tasks(display_num: u32, xfce4_terminal: bool, xterm: bool) -> (r: Vec<Task>)
    ensures
        tasks_view(r@) == openbox_tasks_of(display_num, xfce4_terminal, xterm),
{
    let mut r: Vec<Task> = Vec::new();
    add_task(
        &mut r,
        Deed::Keep(openbox_command(display_num)),
        Failure::ReportAs("Failed to start openbox".to_owned()),
    );
    add_task(&mut r, Deed::Run(background_command(display_num)), Failure::Ignore);
    match openbox_terminal(display_num, xfce4_terminal, xterm) {
        Some(command) => {
            add_task(&mut r, Deed::Launch(command), Failure::Ignore);
        },
        None => {},
    }
    assert(tasks_view(r@) =~= openbox_tasks_of(display_num, xfce4_terminal, xterm));
    r
}

/// The steps that set the keyring up: a control directory of its own, made anew, the directory of
/// the passwords, the name of the default keyring where it is not set, and the keyring itself.
pub open spec fn keyring_tasks_of(
    display_num: u32,
    home: Seq<char>,
    address: Seq<char>,
    default_exists: bool,
) -> Seq<TaskView> {
    let keyrings = keyring_data_of(home) + "/keyrings"@;
    seq![
        may(DeedView::File(FileActionView::RemoveDir(keyring_control_of(display_num)))),
        may(DeedView::File(FileActionView::MakeDir(keyring_control_of(display_num)))),
        may(DeedView::File(FileActionView::MakeDir(keyrings))),
    ] + (if default_exists {
        seq![]
    } else {
        seq![may(DeedView::File(FileActionView::Write(keyrings + "/default"@, "login"@)))]
    }) + seq![may(DeedView::Launch(keyring_command_of(display_num, home, address)))]
}

/// The steps that apply the settings of a first session.
pub open spec fn setting_tasks_of(display_num: u32, address: Option<Seq<char>>) -> Seq<TaskView> {
    first_settings_list().map_values(
        |s: (Seq<char>, Seq<char>, Seq<char>, Seq<char>)|
            may(
                DeedView::Run(
                    setting_command_of(s, display_name_of(display_num), address),
                ),
            ),
    )
}

/// The steps that settle XFCE once it runs: the keyring, where the session's bus was found, and
/// the settings, in a first session. Later ones keep what the user has changed.
pub open spec fn settle_tasks_of(
    display_num: u32,
    home: Seq<char>,
    address: Option<Seq<char>>,
    default_exists: bool,
    first_session: bool,
) -> Seq<TaskView> {
    (match address {
        Some(a) => keyring_tasks_of(display_num, home, a, default_exists),
        None => seq![],
    }) + (if first_session {
        setting_tasks_of(display_num, address)
    } else {
        seq![]
    })
}

/// The steps that settle XFCE once it runs. `address` is that of the session's bus, where it was
/// found in time, and `default_exists` whether the default keyring has a name.
pub fn settle_tasks(
    display_num: u32,
    home: &str,
    address: Option<&str>,
    default_exists: bool,
    first_session: bool,
) -> (r: Vec<Task>)
    ensures
        tasks_view(r@) == settle_tasks_of(
            display_num,
            home@,
            opt_view(address),
            default_exists,
            first_session,
        ),
{
    let mut r: Vec<Task> = Vec::new();
    match address {
        Some(a) => {
            let plan = keyring_plan(display_num, home, a);
            add_task(
                &mut r,
                Deed::File(FileAction::RemoveDir(plan.control_dir.clone())),
                Failure::Ignore,
            );
            add_task(&mut r, Deed::File(FileAction::MakeDir(plan.control_dir)), Failure::Ignore);
            add_task(&mut r, Deed::File(FileAction::MakeDir(plan.keyrings_dir)), Failure::Ignore);
            if !default_exists {
                add_task(
                    &mut r,
                    Deed::File(FileAction::Write(plan.default_file, "login".to_owned())),
                    Failure::Ignore,
                );
            }
            add_task(&mut r, Deed::Launch(plan.command), Failure::Ignore);
            assert(tasks_view(r@) =~= keyring_tasks_of(display_num, home@, a@, default_exists));
        },
        None => {
            assert(tasks_view(r@) =~= seq![]);
        },
    }
    let ghost keyring = tasks_view(r@);
    let ghost wanted = setting_tasks_of(display_num, opt_view(address));
    if first_session {
        let settings = first_settings();
        let x_display = display_name(display_num);
        assert(keyring + wanted.take(0) =~= keyring);
        for i in 0..settings.len()
            invariant
                x_display@ == display_name_of(display_num),
                settings@.map_values(|s: Setting| setting_view(s)) == first_settings_list(),
                wanted == setting_tasks_of(display_num, opt_view(address)),
                tasks_view(r@) == keyring + wanted.take(i as int),
        {
            let s = &settings[i];
            assert(settings@.map_values(|s: Setting| setting_view(s))[i as int] == setting_view(
                *s,
            ));
            add_task(
                &mut r,
                Deed::Run(setting_command(s, x_display.as_str(), address)),
                Failure::Ignore,
            );
            assert(keyring + wanted.take(i + 1) =~= (keyring + wanted.take(i as int)).push(
                wanted[i as int],
            ));
        }
        assert(settings@.map_values(|s: Setting| setting_view(s)).len() == settings@.len());
        assert(wanted.take(wanted.len() as int) =~= wanted);
    } else {
        assert(keyring + Seq::<TaskView>::empty() =~= keyring);
    }
    r
}

// ---------------------------------------------------------------------------
// Sound
// ---------------------------------------------------------------------------

/// The steps that start the sound server of a display: its directory, made anew, its script, and
/// the server.
pub open spec fn sound_tasks_of(display_num: u32) -> Seq<TaskView> {
    let dir = pulse_dir_of(display_num);
    let script = pulse_script_of(display_num);
    seq![
        may(DeedView::File(FileActionView::RemoveDir(dir))),
        must(
            DeedView::File(FileActionView::MakeDir(dir)),
            "Failed to create PulseAudio dir: "@ + dir,
        ),
        must(
            DeedView::File(FileActionView::Write(script, pa_config_of(dir))),
            "Failed to write PA config to "@ + script,
        ),
        must(
            DeedView::Keep(pulseaudio_command_of(display_num)),
            "Failed to start PulseAudio"@,
        ),
    ]
}

/// The steps that start the sound server of a display.
pub fn sound_tasks(display_num: u32) -> (r: Vec<Task>)
    ensures
        tasks_view(r@) == sound_tasks_of(display_num),
{
    let dir = pulse_dir(display_num);
    let script = pulse_script(display_num);
    let mut r: Vec<Task> = Vec::new();
    add_task(&mut r, Deed::File(FileAction::RemoveDir(dir.clone())), Failure::Ignore);
    add_task(
        &mut r,
        Deed::File(FileAction::MakeDir(dir.clone())),
        Failure::ReportAs("Failed to create PulseAudio dir: ".to_owned().concat(dir.as_str())),
    );
    let error = "Failed to write PA config to ".to_owned().concat(script.as_str());
    add_task(
        &mut r,
        Deed::File(FileAction::Write(script, pa_config(dir.as_str()))),
        Failure::ReportAs(error),
    );
    add_task(
        &mut r,
        Deed::Keep(pulseaudio_command(display_num)),
        Failure::ReportAs("Failed to start PulseAudio".to_owned()),
    );
    assert(tasks_view(r@) =~= sound_tasks_of(display_num));
    r
}

// ---------------------------------------------------------------------------
// Laws
// ---------------------------------------------------------------------------

/// The directory of a sound server is there before its script is, and the script before the
/// server is started; and the server is told to read that script and to keep to that directory.
pub proof fn sound_servers_find_their_script(display_num: u32)
    ensures
        ({
            let tasks = sound_tasks_of(display_num);
            &&& tasks[1].deed == DeedView::File(FileActionView::MakeDir(pulse_dir_of(display_num)))
            &&& tasks[2].deed matches DeedView::File(FileActionView::Write(path, content)) && path
                == pulse_script_of(display_num) && content == pa_config_of(
                pulse_dir_of(display_num),
            )
            &&& tasks[3].deed matches DeedView::Keep(command) && command.args.last()
                == pulse_script_of(display_num) && command.env.contains(
                ("PULSE_RUNTIME_PATH"@, pulse_dir_of(display_num)),
            )
        }),
{
    let command = pulseaudio_command_of(display_num);
    assert(command.env[0] == ("PULSE_RUNTIME_PATH"@, pulse_dir_of(display_num)));
}

/// Settling a desktop never fails: each of its steps may. It does nothing at all in a later
/// session whose bus was not found.
pub proof fn settling_never_fails(
    display_num: u32,
    home: Seq<char>,
    address: Option<Seq<char>>,
    default_exists: bool,
    first_session: bool,
)
    ensures
        ({
            let tasks = settle_tasks_of(display_num, home, address, default_exists, first_session);
            &&& forall|i: int| 0 <= i < tasks.len() ==> (#[trigger] tasks[i]).failure is Ignore
            &&& address is None && !first_session ==> tasks.len() == 0
        }),
{
    let tasks = settle_tasks_of(display_num, home, address, default_exists, first_session);
    let settings = setting_tasks_of(display_num, address);
    assert forall|i: int| 0 <= i < tasks.len() implies (#[trigger] tasks[i]).failure is Ignore by {
        match address {
            Some(a) => {
                let keyring = keyring_tasks_of(display_num, home, a, default_exists);
                if i >= keyring.len() {
                    assert(tasks[i] == settings[i - keyring.len()]);
                }
            },
            None => {
                assert(tasks[i] == settings[i]);
            },
        }
    }
}

/// The desktop is started last, when all that it needs is there: what comes before it fails the
/// setup or makes no difference, and nothing comes after it.
pub proof fn desktops_start_last(
    display_num: u32,
    config_dir: Seq<char>,
    browser: Option<Seq<char>>,
    terminal: Option<Seq<char>>,
)
    ensures
        ({
            let tasks = xfce_tasks_of(display_num, config_dir, browser, terminal);
            &&& tasks.last().deed is KeepGroup
            &&& forall|i: int|
                0 <= i < tasks.len() - 1 ==> (#[trigger] tasks[i]).deed is File
        }),
{
}

/// A configuration is written exactly where there is one to write, in place of what was there; a
/// monitor's data and its directory come before it.
pub proof fn configurations_replace_what_was_there(plan: &ConfigPlan, r: Vec<Task>)
    requires
        call_ensures(config_tasks, (plan,), r),
    ensures
        ({
            let t = tasks_view(r@);
            &&& plan.content is None && plan.edid_path is None && plan.make_dir is None ==> t.len() == 0
            &&& plan.content matches Some(c) ==> {
                &&& t.last().deed == DeedView::File(FileActionView::Write(plan.config_path@, c@))
                &&& t.last().failure is ReportAs
                &&& t[t.len() - 2].deed == DeedView::RemoveFile(plan.config_path@)
                &&& t[t.len() - 2].failure is Ignore
            }
            &&& plan.edid_path matches Some(p) ==> t[if plan.make_dir is Some {
                1int
            } else {
                0
            }].deed == DeedView::WriteEdid(p@)
            &&& plan.make_dir matches Some(d) ==> t[0].deed == DeedView::File(
                FileActionView::MakeDir(d@),
            )
        }),
{
}

/// XFCE starts in a private directory of its own, Openbox with a background, and sound with a script
/// of its own; the step that starts each must not fail.
pub proof fn programs_must_start(
    display_num: u32,
    config_dir: &str,
    browser: Option<&str>,
    terminal: Option<&str>,
    x: Vec<Task>,
    xfce4_terminal: bool,
    xterm: bool,
    o: Vec<Task>,
    s: Vec<Task>,
    sound: CommandLine,
    desktop: CommandLine,
)
    requires
        call_ensures(xfce_tasks, (display_num, config_dir, browser, terminal), x),
        call_ensures(openbox_tasks, (display_num, xfce4_terminal, xterm), o),
        call_ensures(sound_tasks, (display_num,), s),
        call_ensures(pulseaudio_command, (display_num,), sound),
        call_ensures(xfce_command, (display_num, config_dir, browser, terminal), desktop),
    ensures
        ({
            let n = decimal(display_num as nat);
            let tx = tasks_view(x@);
            let to = tasks_view(o@);
            let ts = tasks_view(s@);
            &&& tx.len() == 4
            &&& tx[1].deed == DeedView::File(FileActionView::MakeDir("/tmp/beam-run-"@ + n))
            &&& tx[2].deed == DeedView::File(FileActionView::MakePrivate("/tmp/beam-run-"@ + n))
            &&& tx[3].deed == DeedView::KeepGroup(desktop@) && tx[3].failure is ReportAs
            &&& to[0].deed is Keep && to[0].failure is ReportAs
            &&& to.len() == if xfce4_terminal || xterm { 3int } else { 2 }
            &&& ts.len() == 4
            &&& ts[1].deed == DeedView::File(FileActionView::MakeDir("/tmp/beam-pulse-"@ + n))
            &&& ts[3].deed == DeedView::Keep(sound@) && ts[3].failure is ReportAs
        }),
{
}

/// A desktop is settled by its keyring where its bus was found, with a default name where it has
/// none, and by the fifteen first settings in a first session; nothing of it can fail a session.
pub proof fn desktops_are_settled_by_what_is_there(
    display_num: u32,
    home: &str,
    address: Option<&str>,
    default_exists: bool,
    first: bool,
    r: Vec<Task>,
    i: int,
)
    requires
        call_ensures(settle_tasks, (display_num, home, address, default_exists, first), r),
        0 <= i < r@.len(),
    ensures
        r@.len() == (if address is None {
            0int
        } else if default_exists {
            4
        } else {
            5
        }) + (if first { 15int } else { 0 }),
        tasks_view(r@)[i].failure is Ignore,
{
    settling_never_fails(display_num, home@, opt_view(address), default_exists, first);
    assert(first_settings_list().len() == 15);
    assert(setting_tasks_of(display_num, opt_view(address)).len() == 15);
    assert(tasks_view(r@).len() == r@.len());
}

/// A configuration takes just the steps that its plan has, and each that must not fail is told by
/// what it was for.
pub proof fn plans_have_no_other_steps(plan: &ConfigPlan, r: Vec<Task>)
    requires
        call_ensures(config_tasks, (plan,), r),
    ensures
        ({
            let t = tasks_view(r@);
            let first = if plan.make_dir is Some { 1int } else { 0 };
            &&& t.len() == first + (if plan.edid_path is Some { 1int } else { 0 }) + (
            if plan.content is Some { 2int } else { 0 })
            &&& plan.make_dir is Some ==> t[0].failure is Ignore
            &&& plan.edid_path is Some ==> t[first].failure is Report
            &&& plan.content is Some ==> t.last().failure == FailureView::ReportAs(
                if plan.edid_path is Some {
                    "Failed to write nvidia Xorg config to "@ + plan.config_path@
                } else {
                    "Failed to write Xorg config to "@ + plan.config_path@
                },
            )
        }),
{
}

/// What is made for a desktop is emptied first, and what must not fail is told by what it was for.
/// Openbox is kept, its background is painted, and the terminal is started for the user.
pub proof fn desktops_are_made_from_nothing(
    n: u32,
    config_dir: &str,
    browser: Option<&str>,
    terminal: Option<&str>,
    x: Vec<Task>,
    xfce4: bool,
    xterm: bool,
    o: Vec<Task>,
    s: Vec<Task>,
    manager: CommandLine,
    background: CommandLine,
    window: Option<CommandLine>,
    dir: &str,
    script: String,
)
    requires
        call_ensures(xfce_tasks, (n, config_dir, browser, terminal), x),
        call_ensures(openbox_tasks, (n, xfce4, xterm), o),
        call_ensures(sound_tasks, (n,), s),
        call_ensures(openbox_command, (n,), manager),
        call_ensures(background_command, (n,), background),
        call_ensures(openbox_terminal, (n, xfce4, xterm), window),
        dir@ == "/tmp/beam-pulse-"@ + decimal(n as nat),
        call_ensures(pa_config, (dir,), script),
    ensures
        ({
            let run = "/tmp/beam-run-"@ + decimal(n as nat);
            let file = dir@ + ".pa"@;
            let tx = tasks_view(x@);
            let to = tasks_view(o@);
            let ts = tasks_view(s@);
            &&& tx[0] == (TaskView {
                deed: DeedView::File(FileActionView::RemoveDir(run)),
                failure: FailureView::Ignore,
            })
            &&& tx[1].failure == FailureView::ReportAs("Failed to create runtime dir: "@ + run)
            &&& tx[2].failure is Ignore
            &&& tx[3].failure == FailureView::ReportAs(
                "Failed to start XFCE4 desktop via dbus-launch"@,
            )
            &&& to[0] == (TaskView {
                deed: DeedView::Keep(manager@),
                failure: FailureView::ReportAs("Failed to start openbox"@),
            })
            &&& to[1] == (TaskView {
                deed: DeedView::Run(background@),
                failure: FailureView::Ignore,
            })
            &&& window matches Some(w) ==> to.len() == 3 && to[2] == (TaskView {
                deed: DeedView::Launch(w@),
                failure: FailureView::Ignore,
            })
            &&& window is None ==> to.len() == 2
            &&& ts[0] == (TaskView {
                deed: DeedView::File(FileActionView::RemoveDir(dir@)),
                failure: FailureView::Ignore,
            })
            &&& ts[1].failure == FailureView::ReportAs("Failed to create PulseAudio dir: "@ + dir@)
            &&& ts[2] == (TaskView {
                deed: DeedView::File(FileActionView::Write(file, script@)),
                failure: FailureView::ReportAs("Failed to write PA config to "@ + file),
            })
            &&& ts[3].failure == FailureView::ReportAs("Failed to start PulseAudio"@)
        }),
{
}

/// A keyring has its sockets in a directory that is made anew, its passwords in one that stays, the
/// name of the default one only where it has none, and runs on the bus that was found. In a first
/// session each of the first settings is made, in their order, on the display.
pub proof fn sessions_are_settled_in_order(
    n: u32,
    home: &str,
    address: Option<&str>,
    default_exists: bool,
    first: bool,
    r: Vec<Task>,
    bus: &str,
    plan: KeyringPlan,
    all: Vec<Setting>,
    i: int,
    one: &Setting,
    x_display: &str,
    command: CommandLine,
)
    requires
        call_ensures(settle_tasks, (n, home, address, default_exists, first), r),
        address is Some ==> bus@ == address->0@,
        call_ensures(keyring_plan, (n, home, bus), plan),
        call_ensures(first_settings, (), all),
        0 <= i < all@.len(),
        *one == all@[i],
        x_display@ == ":"@ + decimal(n as nat),
        call_ensures(setting_command, (one, x_display, address), command),
    ensures
        ({
            let t = tasks_view(r@);
            let k = if address is None {
                0int
            } else if default_exists {
                4
            } else {
                5
            };
            &&& address is Some ==> {
                &&& t[0].deed == DeedView::File(FileActionView::RemoveDir(plan.control_dir@))
                &&& t[1].deed == DeedView::File(FileActionView::MakeDir(plan.control_dir@))
                &&& t[2].deed == DeedView::File(FileActionView::MakeDir(plan.keyrings_dir@))
                &&& !default_exists ==> t[3].deed == DeedView::File(
                    FileActionView::Write(plan.default_file@, "login"@),
                )
                &&& t[k - 1].deed == DeedView::Launch(plan.command@)
            }
            &&& first ==> t.len() > k + i && t[k + i].deed == DeedView::Run(command@)
        }),
{
    let t = tasks_view(r@);
    let v = all@.map_values(|s: Setting| setting_view(s));
    assert(v[i] == setting_view(*one));
    let settings = setting_tasks_of(n, opt_view(address));
    assert(settings.len() == v.len());
    if first {
        match address {
            Some(a) => {
                let keyring = keyring_tasks_of(n, home@, a@, default_exists);
                assert(t[keyring.len() + i] == settings[i]);
            },
            None => {
                assert(t[i] == settings[i]);
            },
        }
    }
}

} // verus!
