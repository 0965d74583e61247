use beam::compositor::{
    after_terminate, media_socket, scan_for_wayland_socket, shutdown_order,
    wayland_desktop_command, wayland_output_name, wayland_pulse_command, xdg_dir, Action, Child,
    DirEntry, Event, Grace, Progress, Startup, WaylandDisplayConfig,
};
use beam::desktop::ChildState;
use beam::media::{
    build_audio_pipeline, capture_and_encode, pull_encoded, video_source, PropertyValue, Received,
};
use beam::portal::{
    call_outcome, extract_gdbus_dict_value, extract_node_id, parse_node_id_from_streams,
    parse_object_path, read_line, response_code, response_value, LatencyMeter,
    LineOutcome, PortalAction, PortalOpening, SessionPlace,
};

// --- starting ---

fn start(compositor: Option<&str>) -> Startup {
    Startup::new(&WaylandDisplayConfig { display_num: 9, width: 640, height: 480 }, compositor)
}

fn poll(socket: Option<&str>, exit: Option<&str>, timed_out: bool) -> Event {
    Event::Polled {
        socket: socket.map(str::to_string),
        exit_status: exit.map(str::to_string),
        timed_out,
    }
}

fn failure(p: Progress) -> (Vec<Child>, String) {
    match p {
        Progress::Fail { kill, error } => (kill, error),
        _ => panic!("no failure"),
    }
}

/// Goes on until the compositor's socket is awaited.
fn spawned(compositor: Option<&str>) -> Startup {
    let mut s = start(compositor);
    for _ in 0..4 {
        assert!(matches!(s.advance(&Event::Done), Progress::Continue));
    }
    s
}

#[test]
fn sessions_come_up_step_by_step() {
    let mut s = start(None);
    assert_eq!(s.size(), (640, 480));
    assert!(matches!(s.action(), Action::MakeDir(p) if p == "/tmp/beam-xdg-9"));
    s.advance(&Event::Done);
    assert!(matches!(s.action(), Action::MakePrivate(p) if p == "/tmp/beam-xdg-9"));
    s.advance(&Event::Done);
    assert!(matches!(s.action(), Action::LinkMedia(p) if p == "/tmp/beam-xdg-9/pipewire-0"));
    assert!(matches!(s.advance(&Event::Failed), Progress::Continue));
    let Action::Spawn(child, cmd) = s.action() else { panic!("no spawn") };
    assert!(child == Child::Compositor);
    assert_eq!(cmd.program, "cage");
    assert_eq!(cmd.args, ["--", "/usr/bin/env", "sleep", "infinity"]);
    assert!(cmd.env.contains(&("WAYLAND_DISPLAY".to_string(), "wayland-beam-9".to_string())));
    s.advance(&Event::Done);
    assert!(matches!(s.action(), Action::Poll(p) if p == "/tmp/beam-xdg-9"));
    assert!(matches!(s.advance(&poll(None, None, false)), Progress::Pause));
    assert!(matches!(s.advance(&poll(Some("wayland-1"), None, true)), Progress::Continue));
    assert_eq!(s.wayland_display(), "wayland-1");
    let Action::Spawn(child, cmd) = s.action() else { panic!("no spawn") };
    assert!(child == Child::Bus);
    assert_eq!(cmd.args[4], "--address=unix:path=/tmp/beam-xdg-9/bus");
    s.advance(&Event::Done);
    assert!(matches!(s.action(), Action::AwaitFile(p) if p == "/tmp/beam-xdg-9/bus"));
    s.advance(&Event::Done);
    let Action::Spawn(child, cmd) = s.action() else { panic!("no spawn") };
    assert!(child == Child::PortalBackend);
    assert_eq!(cmd.program, "/usr/libexec/xdg-desktop-portal-wlr");
    assert_eq!(cmd.env[0], ("WAYLAND_DISPLAY".to_string(), "wayland-1".to_string()));
    s.advance(&Event::Done);
    let Action::Spawn(child, cmd) = s.action() else { panic!("no spawn") };
    assert!(child == Child::Portal);
    assert_eq!(cmd.program, "/usr/libexec/xdg-desktop-portal");
    s.advance(&Event::Done);
    let Action::AwaitCommand(cmd) = s.action() else { panic!("no wait") };
    assert_eq!(cmd.program, "gdbus");
    assert!(matches!(s.advance(&Event::Done), Progress::Ready));
    assert!(matches!(s.action(), Action::Nothing));
}

#[test]
fn failed_starts_leave_no_orphans() {
    let mut s = start(None);
    let (kill, error) = failure(s.advance(&Event::Failed));
    assert!(kill.is_empty());
    assert_eq!(error, "failed to create XDG_RUNTIME_DIR /tmp/beam-xdg-9");
    assert!(matches!(s.action(), Action::Nothing));

    let mut s = start(Some("mutter"));
    s.advance(&Event::Done);
    s.advance(&Event::Done);
    let (kill, error) = failure(s.advance(&Event::Done));
    assert!(kill.is_empty());
    assert_eq!(
        error,
        "BEAM_WAYLAND_COMPOSITOR=mutter not supported; expected `cage` or `sway`"
    );

    let mut s = spawned(Some("sway"));
    let (kill, error) = failure(s.advance(&poll(None, Some("exit status: 1"), true)));
    assert!(kill.is_empty());
    assert_eq!(
        error,
        "compositor `sway` exited early with status exit status: 1 before any wayland-* socket appeared in /tmp/beam-xdg-9"
    );

    let mut s = spawned(None);
    let (kill, error) = failure(s.advance(&poll(None, None, true)));
    assert!(kill == [Child::Compositor]);
    assert_eq!(
        error,
        "compositor `cage` did not create a wayland-* socket in /tmp/beam-xdg-9 within 5s"
    );

    let all = [Child::Compositor, Child::Bus, Child::PortalBackend, Child::Portal];
    for (steps, alive) in [(0, 1), (1, 2), (2, 2), (3, 3), (4, 4)] {
        let mut s = spawned(None);
        s.advance(&poll(Some("wayland-0"), None, false));
        for _ in 0..steps {
            assert!(matches!(s.advance(&Event::Done), Progress::Continue));
        }
        let (kill, _) = failure(s.advance(&Event::Failed));
        assert!(kill == all[..alive]);
    }
}

#[test]
fn sockets_are_found() {
    let entry = |name: &str, is_socket: bool| DirEntry { name: name.to_string(), is_socket };
    let dir = vec![
        entry("bus", true),
        entry("wayland-0.lock", true),
        entry("wayland-0", false),
        entry("wayland-1", true),
        entry("wayland-2", true),
    ];
    assert_eq!(scan_for_wayland_socket(&dir).as_deref(), Some("wayland-1"));
    assert_eq!(scan_for_wayland_socket(&vec![entry("x", true)]), None);
    assert_eq!(xdg_dir(9), "/tmp/beam-xdg-9");
    assert_eq!(wayland_output_name(9), "WAYLAND-9");
    assert_eq!(media_socket(1000), "/run/user/1000/pipewire-0");
}

#[test]
fn wayland_desktops_are_started() {
    let c = wayland_desktop_command(None, "wayland-0", "/x").ok().unwrap();
    assert_eq!(c.program, "startxfce4");
    assert!(c.args.is_empty());
    let c = wayland_desktop_command(Some(" sway  -c\t/f "), "wayland-0", "/x").ok().unwrap();
    assert_eq!(c.program, "sway");
    assert_eq!(c.args, ["-c", "/f"]);
    assert_eq!(c.env.len(), 3);
    assert_eq!(
        wayland_desktop_command(Some(" \n"), "w", "/x").err().unwrap(),
        "BEAM_WAYLAND_DESKTOP is empty"
    );
    assert_eq!(wayland_pulse_command("w", "/x").args, ["--start", "--exit-idle-time=-1"]);
}

#[test]
fn wayland_sessions_end_in_order() {
    let tail = [Child::Portal, Child::PortalBackend, Child::Bus, Child::Compositor];
    assert!(shutdown_order(false, false) == tail);
    let all = shutdown_order(true, true);
    assert!(all[..2] == [Child::Desktop, Child::SoundServer] && all[2..] == tail);
    assert!(after_terminate(ChildState::Running, false) == Grace::Wait);
    assert!(after_terminate(ChildState::Running, true) == Grace::Kill);
    assert!(after_terminate(ChildState::Exited, false) == Grace::Over);
    assert!(after_terminate(ChildState::Unknown, true) == Grace::Over);
}

// --- the portal ---

#[test]
fn object_paths_are_read() {
    assert_eq!(parse_object_path("('/path/to/object',)"), Ok("/path/to/object".to_string()));
    assert_eq!(parse_object_path(" ('/a',)\n"), Ok("/a".to_string()));
    assert_eq!(parse_object_path("/a"), Ok("/a".to_string()));
    assert_eq!(
        parse_object_path("(nothing,)"),
        Err("Unexpected gdbus output (expected object path): (nothing,)".to_string())
    );
    assert!(parse_object_path("").is_err());
}

#[test]
fn dict_values_are_read() {
    let line = "/p : org.freedesktop.portal.Request.Response (uint32 0, {'session_handle': <'/org/s'>, 'n': < x >})";
    assert_eq!(extract_gdbus_dict_value(line, "session_handle").as_deref(), Some("/org/s"));
    assert_eq!(extract_gdbus_dict_value(line, "n").as_deref(), Some("x"));
    assert_eq!(extract_gdbus_dict_value(line, "m"), None);
    assert_eq!(extract_gdbus_dict_value("'k': x", "k"), None);
    assert_eq!(extract_gdbus_dict_value("'k': <x", "k"), None);
}

#[test]
fn node_ids_are_read() {
    assert_eq!(parse_node_id_from_streams("[(<uint32 42>, {'p': <(0, 0)>})]"), Ok(42));
    assert_eq!(parse_node_id_from_streams("[(uint32 42"), Ok(42));
    assert_eq!(parse_node_id_from_streams("uint32 0"), Ok(0));
    assert_eq!(parse_node_id_from_streams("uint32 x, 0, 99999999999, 7"), Ok(32));
    assert_eq!(parse_node_id_from_streams("[(0, 99999999999, 7)]"), Ok(7));
    assert_eq!(
        parse_node_id_from_streams("uint32 99999999999"),
        Err("Parse node_id as u32".to_string())
    );
    assert_eq!(
        parse_node_id_from_streams("none"),
        Err("No uint32 node ID found in streams: none".to_string())
    );
    assert_eq!(extract_node_id(Some(&vec![None, Some(5), Some(6)])), Ok(5));
    assert_eq!(
        extract_node_id(None),
        Err("Start response missing 'streams' key".to_string())
    );
    assert!(extract_node_id(Some(&vec![None])).is_err());
}

#[test]
fn responses_are_read() {
    assert!(matches!(read_line("signal", "", "/r", false), LineOutcome::Ignore));
    assert!(matches!(read_line("Response (uint32 0, {})", "", "/r", false), LineOutcome::Value(v) if v == "ok"));
    assert!(
        matches!(read_line("Response (uint32 0, {})", "k", "/r", false), LineOutcome::Value(v) if v.is_empty())
    );
    assert!(
        matches!(read_line("Response (uint32 0, {'k': <'v'>})", "k", "/r", false), LineOutcome::Value(v) if v == "v")
    );
    assert!(
        matches!(read_line("Response (uint32 1, {})", "k", "/r", false), LineOutcome::Refused(e) if e == "Portal Response indicates failure: Response (uint32 1, {})")
    );
    assert_eq!(response_value("v".to_string(), "k", "/r"), Ok("v".to_string()));
    assert_eq!(
        response_value(String::new(), "", "/r"),
        Err("Portal Response not received on /r (compositor not responding?)".to_string())
    );
    assert_eq!(
        response_value(String::new(), "k", "/r"),
        Err("Portal Response key 'k' not found or empty on /r".to_string())
    );
    assert!(
        matches!(read_line("Response (uint32 0, {})", "", "/r", true), LineOutcome::Refused(e) if e == "Timeout waiting for portal Response on /r")
    );
    assert_eq!(response_code(0), Ok(()));
    assert!(response_code(1).unwrap_err().contains("cancelled"));
    assert_eq!(
        response_code(2),
        Err("Portal request failed with response code 2".to_string())
    );
    assert_eq!(call_outcome(true, "", b" x\xff \n", b""), Ok("x\u{fffd}".to_string()));
    assert_eq!(
        call_outcome(false, "exit status: 1", b"", b"no"),
        Err("gdbus call failed (exit status: 1): no".to_string())
    );
}

fn place() -> SessionPlace {
    SessionPlace {
        wayland_display: "wayland-0".to_string(),
        xdg_runtime_dir: "/tmp/beam-xdg-9".to_string(),
    }
}

fn called(p: &PortalOpening) -> String {
    match p.action() {
        PortalAction::Call(cmd) => cmd.args[1].clone(),
        _ => panic!("no call"),
    }
}

#[test]
fn recordings_are_opened() {
    let mut p = PortalOpening::new(place(), 77);
    assert_eq!(
        called(&p),
        r#"gdbus call --session --dest=org.freedesktop.portal.Desktop --object-path=/org/freedesktop/portal/desktop --method=org.freedesktop.portal.ScreenCast.CreateSession "{\"session_handle_token\": <\"beam_sess_77\">, \"handle_token\": <\"beam_cr_77\">}""#
    );
    assert_eq!(p.advance(Some("('/req/1',)")), Ok(()));
    match p.action() {
        PortalAction::Await(cmd, key) => {
            assert_eq!(key, "session_handle");
            assert_eq!(cmd.args[3], "--object-path=/req/1");
        }
        _ => panic!("no wait"),
    }
    assert_eq!(p.advance(Some("/session/1")), Ok(()));
    assert_eq!(
        called(&p),
        r#"gdbus call --session --dest=org.freedesktop.portal.Desktop --object-path=/org/freedesktop/portal/desktop --method=org.freedesktop.portal.ScreenCast.SelectSources "/session/1" "{\"handle_token\": <\"beam_sel_77\">, \"types\": <uint32 1>, \"multiple\": <false>, \"cursor_mode\": <uint32 1>}""#
    );
    assert_eq!(p.advance(Some("('/req/2',)")), Ok(()));
    assert!(matches!(p.action(), PortalAction::Await(_, "")));
    assert_eq!(p.advance(Some("ok")), Ok(()));
    assert_eq!(
        called(&p),
        r#"gdbus call --session --dest=org.freedesktop.portal.Desktop --object-path=/org/freedesktop/portal/desktop --method=org.freedesktop.portal.ScreenCast.Start "/session/1" "" "{\"handle_token\": <\"beam_start_77\">}""#
    );
    assert_eq!(p.advance(Some("('/req/3',)")), Ok(()));
    assert!(matches!(p.action(), PortalAction::Await(_, "streams")));
    assert_eq!(p.node_id(), None);
    assert_eq!(p.advance(Some("[(<uint32 55>, {})]")), Ok(()));
    assert_eq!(p.node_id(), Some(55));
    assert!(matches!(p.action(), PortalAction::Nothing));
    let close = p.close_command();
    assert_eq!(
        close.args[1],
        "gdbus call --session --dest=org.freedesktop.portal.Desktop --object-path=/session/1 --method=org.freedesktop.portal.Session.Close"
    );
    assert_eq!(close.env[2].1, "unix:path=/tmp/beam-xdg-9/bus");
}

#[test]
fn openings_can_fail() {
    let replies = ["('/r',)", "/s", "('/r',)", "ok", "('/r',)", "uint32 1"];
    let errors = [
        "CreateSession gdbus call failed",
        "CreateSession Response not received",
        "SelectSources gdbus call failed",
        "SelectSources Response not received",
        "Start gdbus call failed",
        "Start Response not received",
    ];
    for n in 0..6 {
        let mut p = PortalOpening::new(place(), 1);
        for reply in &replies[..n] {
            assert_eq!(p.advance(Some(reply)), Ok(()));
        }
        assert_eq!(p.advance(None), Err(errors[n].to_string()));
        assert!(matches!(p.action(), PortalAction::Nothing));
    }
    for (n, error) in [
        (0, "Failed to parse CreateSession request path"),
        (2, "Failed to parse SelectSources request path"),
        (4, "Failed to parse Start request path"),
        (5, "Failed to parse PipeWire node ID from streams"),
    ] {
        let mut p = PortalOpening::new(place(), 1);
        for reply in &replies[..n] {
            assert_eq!(p.advance(Some(reply)), Ok(()));
        }
        assert_eq!(p.advance(Some("nonsense")), Err(error.to_string()));
    }
}

#[test]
fn latencies_are_measured() {
    let mut off = LatencyMeter::new(Some("0"));
    assert!(off.record(5).is_none() && off.record(5_000).is_none());
    let mut m = LatencyMeter::new(Some("1"));
    assert!(m.record(1_000).is_none());
    let s = m.record(3_999).unwrap();
    assert_eq!((s.frame, s.delta_us, s.log, s.heartbeat), (0, 2, true, false));
    assert_eq!(m.record(1_000).unwrap().delta_us, 0);
    let mut logged = Vec::new();
    let mut beats = Vec::new();
    for i in 0..130u64 {
        let s = m.record(10_000 + i).unwrap();
        if s.log {
            logged.push(s.frame);
        }
        if s.heartbeat {
            beats.push(s.frame);
        }
    }
    assert_eq!(logged, (2..20).chain([60, 120]).collect::<Vec<u64>>());
    assert_eq!(beats, [60, 120]);
}

// --- media ---

#[test]
fn pipelines_are_described() {
    let video = video_source(42);
    assert_eq!(video.len(), 2);
    assert!(matches!(&video[0].properties[0].1, PropertyValue::Text(t) if t == "42"));
    assert_eq!(video[0].name.as_deref(), Some("src"));
    let audio = build_audio_pipeline(48000, 2, "");
    let names: Vec<&str> = audio.iter().map(|e| e.factory.as_str()).collect();
    assert_eq!(
        names,
        [
            "pipewiresrc",
            "capsfilter",
            "audioconvert",
            "audioresample",
            "opusenc",
            "opusparse",
            "appsink"
        ]
    );
    assert_eq!(audio[0].properties.len(), 1);
    assert!(matches!(
        &audio[1].properties[0].1,
        PropertyValue::RawAudio { rate: 48000, channels: 2 }
    ));
    let aimed = build_audio_pipeline(48000, 2, "7");
    assert!(matches!(&aimed[0].properties[1].1, PropertyValue::Named(t) if t == "7"));
}

#[test]
fn ends_are_read() {
    assert_eq!(pull_encoded(Received::Data(vec![1])), Ok(Some(vec![1])));
    assert_eq!(pull_encoded(Received::Empty), Ok(None));
    assert_eq!(
        pull_encoded(Received::Gone),
        Err("WaylandCapture pipeline disconnected".to_string())
    );
    assert_eq!(capture_and_encode(false, Received::Data(vec![1])), Ok(vec![1]));
    assert_eq!(capture_and_encode(false, Received::Empty), Ok(vec![]));
    assert_eq!(
        capture_and_encode(false, Received::Gone),
        Err("audio pipeline channel disconnected".to_string())
    );
    assert!(capture_and_encode(true, Received::Data(vec![1])).is_err());
}
