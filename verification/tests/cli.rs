use beam::backend::{dispatch, resolve_backend, unknown_backend, Dispatch};
use beam::cli::{parse_args, Args, Invocation};
use beam::config::VideoConfig;
use beam::session::{SessionManager, SessionRequest};

const UBUNTU: &str = "NAME=\"Ubuntu\"\nVERSION_ID=\"26.04\"\nID=ubuntu\nID_LIKE=debian\n";

#[test]
fn explicit_passes_through() {
    assert_eq!(resolve_backend("xorg", UBUNTU), "xorg");
    assert_eq!(resolve_backend("wayland", ""), "wayland");
    assert_eq!(resolve_backend("garbage", UBUNTU), "garbage");
}

#[test]
fn auto_resolves_to_known_value() {
    for os in ["", UBUNTU, "garbage\n", "ID=fedora\nVERSION_ID=44\n"] {
        let r = resolve_backend("auto", os);
        assert!(r == "xorg" || r == "wayland");
    }
}

#[test]
fn explicit_xorg_passes_through() {
    assert_eq!(resolve_backend("xorg", UBUNTU), "xorg");
}

#[test]
fn explicit_wayland_passes_through() {
    assert_eq!(resolve_backend("wayland", ""), "wayland");
}

#[test]
fn auto_returns_xorg_or_wayland() {
    for os in ["", UBUNTU] {
        let r = resolve_backend("auto", os);
        assert!(
            r == "xorg" || r == "wayland",
            "auto should resolve to xorg or wayland, got {r}"
        );
    }
}

#[test]
fn auto_follows_the_system() {
    for (os, expected) in [
        (UBUNTU, "wayland"),
        ("ID=ubuntu\nVERSION_ID=\"26.04.1\"\n", "wayland"),
        ("ID=ubuntu\r\nVERSION_ID=27.0\r\n", "wayland"),
        ("ID=\"ubuntu\"\nVERSION_ID=\"24.04\"", "xorg"),
        ("ID=ubuntu\nVERSION_ID=26.03\n", "xorg"),
        ("ID=ubuntu\nVERSION_ID=26\n", "xorg"),
        ("ID=ubuntu\nVERSION_ID=\n", "xorg"),
        ("ID=debian\nVERSION_ID=26.04\n", "xorg"),
        ("VERSION_ID=26.04\nID=debian\nID=ubuntu\n", "wayland"),
        ("ID=ubuntu\nID=debian\nVERSION_ID=26.04\n", "xorg"),
        ("ID=ubuntu\nVERSION_ID=+26.+4\n", "wayland"),
    ] {
        assert_eq!(resolve_backend("auto", os), expected, "{os}");
    }
}

#[test]
fn auto_finds_wayland_distributions() {
    for (os, expected) in [
        ("ID=fedora\nVERSION_ID=44\nVARIANT_ID=workstation\n", "wayland"),
        ("ID=fedora\nVARIANT_ID=\"kde\"\n", "wayland"),
        ("VARIANT_ID=silverblue\n", "wayland"),
        ("VARIANT_ID=kinoite\n", "wayland"),
        ("VARIANT_ID=sway\n", "wayland"),
        ("VARIANT_ID=sericea\n", "wayland"),
        ("ID=fedora\nVARIANT_ID=server\n", "xorg"),
        ("VARIANT_ID=kde\nVARIANT_ID=server\n", "xorg"),
        ("ID=nobara\nID_LIKE=\"fedora\"\n", "wayland"),
        ("ID=almalinux\nID_LIKE=\"rhel centos fedora\"\n", "wayland"),
        ("ID=mint\nID_LIKE=\"ubuntu debian\"\n", "xorg"),
        ("ID=x\nID_LIKE=fedorax\n", "xorg"),
        ("ID=ubuntu\nVERSION_ID=24.04\nID_LIKE=debian\n", "xorg"),
    ] {
        assert_eq!(resolve_backend("auto", os), expected, "{os}");
        assert_eq!(resolve_backend("xorg", os), "xorg");
    }
}

#[test]
fn backends_are_dispatched() {
    assert!(dispatch("xorg") == Dispatch::Xorg);
    assert!(dispatch("wayland") == Dispatch::Wayland);
    assert!(dispatch("auto") == Dispatch::Unknown);
    assert_eq!(
        unknown_backend("mir"),
        "Unknown backend 'mir'. Expected one of: xorg, wayland, auto."
    );
}

fn read(args: &[&str], token: Option<&str>) -> Result<Invocation, String> {
    let mut all = vec!["beam-agent".to_string()];
    all.extend(args.iter().map(|s| s.to_string()));
    parse_args(&all, token.map(str::to_string), "")
}

fn run(args: &[&str], token: Option<&str>) -> Args {
    match read(args, token) {
        Ok(Invocation::Run(a)) => a,
        _ => panic!("no options"),
    }
}

fn error(args: &[&str]) -> String {
    read(args, None).err().unwrap()
}

const ID: &str = "550e8400-e29b-41d4-a716-446655440000";
const ID_VALUE: u128 = 0x550e8400e29b41d4a716446655440000;

#[test]
fn defaults_apply() {
    let a = run(&["--session-id", ID], None);
    assert_eq!(a.display, ":0");
    assert_eq!(a.server_url, "");
    assert_eq!(a.session_id, ID_VALUE);
    assert_eq!(a.agent_token, None);
    assert_eq!(a.tls_cert_path, None);
    assert_eq!((a.width, a.height), (1920, 1080));
    assert_eq!((a.framerate, a.bitrate), (120, 100_000));
    assert_eq!(a.encoder, None);
    assert_eq!((a.max_width, a.max_height), (3840, 2160));
    assert_eq!(a.gpu_driver, "auto");
    assert_eq!(a.display_start, 10);
    assert_eq!(a.backend, "xorg");
}

#[test]
fn options_are_taken() {
    let a = run(
        &[
            "--display", ":5", "--server-url", "wss://x", "--session-id", ID, "--agent-token", "t",
            "--tls-cert", "/c", "--width", "1", "--height", "+2", "--framerate", "3", "--bitrate",
            "4", "--encoder", "e", "--max-width", "5", "--max-height", "4294967295",
            "--gpu-driver", "g", "--backend", "wayland", "--display-start", "7", "--width", "9",
        ],
        Some("other"),
    );
    assert_eq!(a.display, ":5");
    assert_eq!(a.agent_token.as_deref(), Some("t"));
    assert_eq!((a.width, a.height, a.framerate, a.bitrate), (9, 2, 3, 4));
    assert_eq!((a.max_width, a.max_height, a.display_start), (5, u32::MAX, 7));
    assert_eq!((a.gpu_driver.as_str(), a.backend.as_str()), ("g", "wayland"));
}

#[test]
fn the_environment_gives_the_token() {
    assert_eq!(run(&["--session-id", ID], Some("env")).agent_token.as_deref(), Some("env"));
}

#[test]
fn identifiers_come_in_many_forms() {
    for text in [
        "550e8400e29b41d4a716446655440000",
        "550E8400-E29B-41D4-A716-446655440000",
        "{550e8400-e29b-41d4-a716-446655440000}",
        "urn:uuid:550e8400-e29b-41d4-a716-446655440000",
        "URN:UUID:550e8400-e29b-41d4-a716-446655440000",
    ] {
        assert_eq!(run(&["--session-id", text], None).session_id, ID_VALUE, "{text}");
    }
    for text in [
        "",
        "x",
        "550e8400-e29b-41d4-a716-44665544000",
        "550e8400-e29b-41d4-a716-44665544000g",
        "550e8400e29b-41d4-a716-446655440000-",
        "(550e8400-e29b-41d4-a716-446655440000)",
        "urn-uuid:550e8400-e29b-41d4-a716-446655440000",
        "550e8400-e29b-41d4-a716-4466554400é",
        "é50e8400e29b41d4a71644665544000",
    ] {
        assert_eq!(error(&["--session-id", text]), "Invalid session-id UUID", "{text}");
    }
}

#[test]
fn errors_are_reported() {
    assert_eq!(error(&[]), "--session-id is required");
    assert_eq!(error(&["--session-id", ID, "--nope"]), "Unknown argument: --nope");
    assert_eq!(error(&["--session-id", ID, "--display"]), "Missing --display value");
    assert_eq!(error(&["--session-id"]), "Missing --session-id value");
    assert_eq!(error(&["--width", "x"]), "Invalid --width value");
    assert_eq!(error(&["--width", ""]), "Invalid --width value");
    assert_eq!(error(&["--width", "-1"]), "Invalid --width value");
    assert_eq!(error(&["--bitrate", "4294967296"]), "Invalid --bitrate value");
}

#[test]
fn version_and_help_come_first() {
    assert!(matches!(read(&["-V", "--nope"], None), Ok(Invocation::Version)));
    assert!(matches!(read(&["--version"], None), Ok(Invocation::Version)));
    assert!(matches!(read(&["--width", "3", "-h"], None), Ok(Invocation::Help)));
    assert!(matches!(read(&["--help"], None), Ok(Invocation::Help)));
    // A flag takes whatever is behind it.
    assert_eq!(run(&["--display", "-h", "--session-id", ID], None).display, "-h");
}

#[test]
fn agents_read_what_the_server_passes() {
    let mut m = SessionManager::new(
        30,
        1280,
        720,
        Some("/etc/cert.pem".to_string()),
        VideoConfig::default(),
        "dummy".to_string(),
        "auto".to_string(),
        UBUNTU,
    );
    let request = SessionRequest {
        username: "ann".to_string(),
        max_sessions: 1,
        initial_width: None,
        initial_height: None,
        idle_timeout_override: None,
    };
    let info = m.create_session(request, 1, "tok".to_string(), "rel".to_string()).ok().unwrap();
    let args = m.spawn_agent(&info, "wss://s", "tok", "beam-agent", None);
    let at = args.iter().position(|a| a == "--").unwrap();
    let own: Vec<String> = args[at + 1..].to_vec();
    let Ok(Invocation::Run(a)) = parse_args(&own, Some("tok".to_string()), "") else {
        panic!("no options");
    };
    assert_eq!(a.display, ":30");
    assert_eq!(a.server_url, "wss://s");
    assert_eq!(a.session_id, info.id);
    assert_eq!(a.agent_token.as_deref(), Some("tok"));
    assert_eq!(a.tls_cert_path.as_deref(), Some("/etc/cert.pem"));
    assert_eq!((a.width, a.height), (1280, 720));
    assert_eq!((a.framerate, a.bitrate, a.max_width, a.max_height), (120, 50000, 3840, 2160));
    assert_eq!(a.encoder, None);
    assert_eq!((a.gpu_driver.as_str(), a.backend.as_str()), ("dummy", "wayland"));
    assert_eq!(a.display_start, 30);
}
