use beam::display::{plan_config, GpuConfig};
use beam::seed::FileAction;
use beam::setup::{
    config_tasks, openbox_tasks, settle_tasks, sound_tasks, xfce_tasks, Deed, Failure, Task,
};
use beam::xserver::{
    CommandOutcome, ResizeProgress, Resizing, ServerStart, StartAction, StartEvent, StartProgress,
};

fn ran(success: bool, stderr: &str) -> CommandOutcome {
    CommandOutcome::Ran { success, stderr: stderr.to_string() }
}

fn args(r: &Resizing) -> String {
    r.command().unwrap().args.join(" ")
}

fn error(p: ResizeProgress) -> String {
    match p {
        ResizeProgress::Fail(e) => e,
        _ => panic!("no failure"),
    }
}

#[test]
fn displays_are_resized() {
    let mut r = Resizing::new(":1", 1920, 1080, "DUMMY0");
    assert_eq!(args(&r), "");
    assert!(matches!(r.advance(&ran(false, "")), ResizeProgress::Pause));
    assert!(matches!(r.advance(&ran(true, "")), ResizeProgress::Continue));
    assert!(args(&r).starts_with("--newmode 1920x1080 "));
    assert!(matches!(r.advance(&ran(false, "mode already exists")), ResizeProgress::Continue));
    assert_eq!(args(&r), "--addmode DUMMY0 1920x1080");
    assert!(matches!(r.advance(&ran(false, "bad")), ResizeProgress::Warn));
    assert_eq!(args(&r), "--output DUMMY0 --mode 1920x1080");
    assert!(matches!(r.advance(&ran(true, "")), ResizeProgress::Done));
    assert!(r.command().is_none());
}

#[test]
fn resizes_can_fail() {
    let mut r = Resizing::new(":1", 8, 6, "O");
    for _ in 0..9 {
        assert!(matches!(r.advance(&CommandOutcome::NotRun), ResizeProgress::Pause));
    }
    assert_eq!(error(r.advance(&ran(false, ""))), "X display :1 not ready after 2 seconds");
    assert!(r.command().is_none());

    for (before, message) in [
        (1, "Failed to run xrandr --newmode"),
        (2, "Failed to run xrandr --addmode"),
        (3, "Failed to run xrandr --output"),
    ] {
        let mut r = Resizing::new(":1", 8, 6, "O");
        for _ in 0..before {
            r.advance(&ran(true, ""));
        }
        assert_eq!(error(r.advance(&CommandOutcome::NotRun)), message);
    }
    let mut r = Resizing::new(":1", 8, 6, "O");
    for _ in 0..3 {
        r.advance(&ran(true, ""));
    }
    assert_eq!(error(r.advance(&ran(false, "no"))), "Failed to set resolution to 8x6: no");
}

fn looked(exit: Option<&str>, runs: bool) -> StartEvent {
    StartEvent::Looked { exit_status: exit.map(str::to_string), runs }
}

#[test]
fn servers_are_started() {
    let mut s = ServerStart::new(7, "/etc/X11/beam-xorg.conf", true);
    match s.action() {
        StartAction::Spawn(c) => {
            assert_eq!(c.program, "Xorg");
            assert_eq!(c.args[..3], [":7", "-config", "beam-xorg.conf"]);
        }
        _ => panic!("no start"),
    }
    assert!(matches!(s.advance(&StartEvent::Done), StartProgress::Continue));
    assert!(matches!(s.action(), StartAction::Look));
    assert!(matches!(s.advance(&looked(None, true)), StartProgress::Continue));
    assert!(matches!(s.action(), StartAction::Query(_)));
    assert!(matches!(s.advance(&StartEvent::Printed(None)), StartProgress::Pause));
    let printed = "Screen 0\nDFP-1 connected primary\n".to_string();
    assert!(matches!(s.advance(&StartEvent::Printed(Some(printed))), StartProgress::Continue));
    assert_eq!(s.output_name(), "DFP-1");
    assert!(matches!(s.action(), StartAction::Resize));
    assert!(matches!(s.advance(&StartEvent::Failed), StartProgress::Continue));
    assert!(matches!(s.action(), StartAction::Keyboard(_)));
    assert!(matches!(s.advance(&StartEvent::Done), StartProgress::Ready));
    assert!(matches!(s.action(), StartAction::Nothing));
    assert_eq!(s.cleanup_config(), None);
}

#[test]
fn silent_displays_run_on_the_dummy_driver() {
    let mut s = ServerStart::new(7, "/tmp/beam-xorg-7.conf", false);
    s.advance(&StartEvent::Done);
    s.advance(&looked(None, true));
    for _ in 0..9 {
        assert!(matches!(s.advance(&StartEvent::Printed(None)), StartProgress::Pause));
    }
    assert!(matches!(s.advance(&StartEvent::Printed(None)), StartProgress::Continue));
    assert_eq!(s.output_name(), "DUMMY0");
    assert!(matches!(s.action(), StartAction::Keyboard(_)));
    assert_eq!(s.cleanup_config().as_deref(), Some("/tmp/beam-xorg-7.conf"));
}

#[test]
fn servers_can_fail() {
    for (event, message) in [
        (None, "Failed to start Xorg on :7"),
        (
            Some(looked(Some("exit status: 1"), true)),
            "Xorg exited immediately with status: exit status: 1 on :7",
        ),
        (Some(looked(None, false)), "Xorg failed to start on :7"),
    ] {
        let mut s = ServerStart::new(7, "/tmp/x", false);
        let progress = match event {
            None => s.advance(&StartEvent::Failed),
            Some(e) => {
                s.advance(&StartEvent::Done);
                s.advance(&e)
            }
        };
        assert!(matches!(progress, StartProgress::Fail(e) if e == message));
        assert!(matches!(s.action(), StartAction::Nothing));
    }
}

// --- setups ---

fn told(t: &Task) -> String {
    let deed = match &t.deed {
        Deed::File(FileAction::MakeDir(p)) => format!("make {p}"),
        Deed::File(FileAction::RemoveDir(p)) => format!("remove {p}"),
        Deed::File(FileAction::MakePrivate(p)) => format!("private {p}"),
        Deed::File(FileAction::Write(p, c)) => format!("write {p} {}", c.len()),
        Deed::RemoveFile(p) => format!("unlink {p}"),
        Deed::WriteEdid(p) => format!("edid {p}"),
        Deed::Keep(c) => format!("keep {}", c.program),
        Deed::KeepGroup(c) => format!("group {}", c.program),
        Deed::Launch(c) => format!("launch {}", c.program),
        Deed::Run(c) => format!("run {}", c.program),
    };
    match &t.failure {
        Failure::Ignore => deed,
        Failure::Report => format!("{deed}!"),
        Failure::ReportAs(e) => format!("{deed}! {e}"),
    }
}

fn all(tasks: Vec<Task>) -> Vec<String> {
    tasks.iter().map(told).collect()
}

#[test]
fn configurations_are_written() {
    let dummy = GpuConfig { driver: "dummy".to_string(), bus_id: None, dfp_output: None };
    let plan = plan_config(&dummy, 7, 640, 480, false);
    let length = plan.content.as_ref().unwrap().len();
    assert_eq!(
        all(config_tasks(&plan)),
        [
            "unlink /tmp/beam-xorg-7.conf".to_string(),
            format!("write /tmp/beam-xorg-7.conf {length}! Failed to write Xorg config to /tmp/beam-xorg-7.conf"),
        ]
    );
    assert!(config_tasks(&plan_config(&dummy, 7, 640, 480, true)).is_empty());
    let nvidia = GpuConfig { driver: "nvidia".to_string(), bus_id: None, dfp_output: None };
    let told = all(config_tasks(&plan_config(&nvidia, 7, 640, 480, true)));
    assert_eq!(told.len(), 4);
    assert_eq!(told[0], "make /etc/X11/beam");
    assert_eq!(told[1], "edid /etc/X11/beam/beam-edid-7.bin!");
    assert_eq!(told[2], "unlink /etc/X11/beam/beam-xorg-7.conf");
    assert!(told[3].ends_with("! Failed to write nvidia Xorg config to /etc/X11/beam/beam-xorg-7.conf"));
}

#[test]
fn desktops_are_set_up() {
    assert_eq!(
        all(xfce_tasks(7, "/c", None, None)),
        [
            "remove /tmp/beam-run-7",
            "make /tmp/beam-run-7! Failed to create runtime dir: /tmp/beam-run-7",
            "private /tmp/beam-run-7",
            "group /usr/bin/dbus-launch! Failed to start XFCE4 desktop via dbus-launch",
        ]
    );
    assert_eq!(
        all(openbox_tasks(7, false, true)),
        ["keep openbox! Failed to start openbox", "run xsetroot", "launch xterm"]
    );
    assert_eq!(openbox_tasks(7, false, false).len(), 2);
    assert_eq!(
        all(sound_tasks(7))[1..],
        [
            "make /tmp/beam-pulse-7! Failed to create PulseAudio dir: /tmp/beam-pulse-7".to_string(),
            format!(
                "write /tmp/beam-pulse-7.pa {}! Failed to write PA config to /tmp/beam-pulse-7.pa",
                beam::display::pa_config("/tmp/beam-pulse-7").len()
            ),
            "keep pulseaudio! Failed to start PulseAudio".to_string(),
        ]
    );
}

#[test]
fn desktops_are_settled() {
    let keyring = [
        "remove /tmp/beam-keyring-7",
        "make /tmp/beam-keyring-7",
        "make /h/.local/share/beam/keyring/keyrings",
        "write /h/.local/share/beam/keyring/keyrings/default 5",
        "launch sh",
    ];
    assert_eq!(all(settle_tasks(7, "/h", Some("unix:x"), false, false)), keyring);
    let first = all(settle_tasks(7, "/h", Some("unix:x"), true, true));
    assert_eq!(first.len(), 4 + 15);
    assert_eq!(first[3..5], ["launch sh", "run xfconf-query"]);
    assert_eq!(settle_tasks(7, "/h", None, false, true).len(), 15);
    assert!(settle_tasks(7, "/h", None, false, false).is_empty());
}
