use beam::config::VideoConfig;
use beam::ids::{generate_agent_token, generate_release_token};
use beam::launch::{
    display_name, holds_record, kill_unit, lock_path, query_unit, record_file, spawn_outcome,
    spawn_result, stale_paths, stop_unit, SpawnReply,
};
use beam::pool::DisplayPool;
use beam::session::{
    constant_time_eq, unit_name, AgentState, FoundRecord, PersistedSession, SessionManager,
    SessionRequest,
};

fn manager() -> SessionManager {
    SessionManager::new(
        100,
        1920,
        1080,
        None,
        VideoConfig::default(),
        "auto".to_string(),
        "auto".to_string(),
        "",
    )
}

fn request(username: &str, idle: Option<u64>) -> SessionRequest {
    SessionRequest {
        username: username.to_string(),
        max_sessions: 8,
        initial_width: None,
        initial_height: None,
        idle_timeout_override: idle,
    }
}

fn add(m: &mut SessionManager, id: u128, username: &str, now: u64, idle: Option<u64>) -> u32 {
    m.reserve_session(
        id,
        request(username, idle),
        now,
        "token".to_string(),
        "release".to_string(),
    )
    .ok()
    .unwrap()
    .display
}

#[test]
fn display_pool_allocates_sequentially() {
    let mut pool = DisplayPool::new(10);
    assert_eq!(pool.allocate(), 10);
    assert_eq!(pool.allocate(), 11);
    assert_eq!(pool.allocate(), 12);
}

#[test]
fn display_pool_recycles() {
    let mut pool = DisplayPool::new(10);
    assert_eq!(pool.allocate(), 10);
    assert_eq!(pool.allocate(), 11);
    pool.release(10);
    // Should reuse 10 before allocating 12
    assert_eq!(pool.allocate(), 10);
    assert_eq!(pool.allocate(), 12);
}

#[test]
fn display_pool_reserves() {
    let mut pool = DisplayPool::new(10);
    assert_eq!(pool.allocate(), 10);
    pool.release(10);
    pool.reserve(10);
    pool.reserve(14);
    assert_eq!(pool.allocate(), 15);
    assert!(pool.available());
    let last = DisplayPool::new(u32::MAX);
    assert!(!last.available());
}

#[test]
fn agent_token_is_64_hex_chars() {
    let token = generate_agent_token(&[0x5au8; 32]);
    assert_eq!(token.len(), 64);
    assert!(token.chars().all(|c| c.is_ascii_hexdigit()));
    assert_eq!(token, "5a".repeat(32));
}

#[test]
fn agent_token_is_unique() {
    let mut other = [7u8; 32];
    other[31] = 8;
    let t1 = generate_agent_token(&[7u8; 32]);
    let t2 = generate_agent_token(&other);
    assert_ne!(t1, t2);
}

#[test]
fn verify_agent_token_rejects_wrong_token() {
    let mut m = manager();
    let id = 77u128;
    // Non-existent session should reject
    assert!(!m.verify_agent_token(id, "fake-token"));
    add(&mut m, id, "test", 0, None);
    assert!(!m.verify_agent_token(id, "fake-token"));
    assert!(!m.verify_agent_token(id, "toke"));
    assert!(m.verify_agent_token(id, "token"));
}

#[test]
fn constant_time_eq_works() {
    assert!(constant_time_eq(b"hello", b"hello"));
    assert!(!constant_time_eq(b"hello", b"world"));
    assert!(!constant_time_eq(b"hello", b"hell"));
    assert!(!constant_time_eq(b"", b"a"));
    assert!(constant_time_eq(b"", b""));
}

#[test]
fn release_token_is_16_hex_chars() {
    let token = generate_release_token(&[0, 1, 15, 16, 127, 128, 254, 255]);
    assert_eq!(token.len(), 16);
    assert!(token.chars().all(|c| c.is_ascii_hexdigit()));
    assert_eq!(token, "00010f107f80feff");
}

#[test]
fn release_token_is_unique() {
    let t1 = generate_release_token(&[1u8; 8]);
    let t2 = generate_release_token(&[2u8; 8]);
    assert_ne!(t1, t2);
}

#[test]
fn verify_release_token_rejects_wrong_token() {
    let mut m = manager();
    let id = 78u128;
    // Non-existent session should reject
    assert!(!m.verify_release_token(id, "fake-token"));
    add(&mut m, id, "test", 0, None);
    assert!(!m.verify_release_token(id, "fake-token"));
    assert!(m.verify_release_token(id, "release"));
    assert_eq!(m.get_release_token(id).as_deref(), Some("release"));
    assert_eq!(m.get_release_token(1), None);
}

#[test]
fn grace_generation_counter_works() {
    let mut m = manager();
    let id = 5u128;
    add(&mut m, id, "test", 0, None);
    // Start a grace period — generation bumps from 0 to 1
    let my_gen = m.start_grace_period(id).unwrap();
    assert_eq!(my_gen, 1);
    assert!(m.grace_period_ended(id, 1));

    // Cancel (reconnect) — bumps to 2
    m.cancel_grace_period(id);
    // The old timer's generation (1) no longer matches (2)
    assert!(!m.grace_period_ended(id, my_gen));

    // Start a second grace period — bumps to 3
    let my_gen2 = m.start_grace_period(id).unwrap();
    assert_eq!(my_gen2, 3);
    // First timer still mismatches
    assert!(!m.grace_period_ended(id, my_gen));
    // Second timer matches
    assert!(m.grace_period_ended(id, my_gen2));
    assert_eq!(m.start_grace_period(6), None);
    assert!(!m.grace_period_ended(6, 0));
}

#[test]
fn constant_time_eq_different_lengths() {
    // Short vs long — must return false without short-circuiting
    assert!(!constant_time_eq(b"abc", b"abcdef"));
    assert!(!constant_time_eq(b"abcdef", b"abc"));
    // Same prefix, different length
    assert!(!constant_time_eq(b"token", b"token_extra"));
    // Single byte vs empty
    assert!(!constant_time_eq(b"x", b""));
    assert!(!constant_time_eq(b"", b"x"));
}

#[test]
fn constant_time_eq_last_byte_differs() {
    // Must not short-circuit on matching prefix
    assert!(!constant_time_eq(b"abcdefg1", b"abcdefg2"));
    assert!(!constant_time_eq(
        b"aaaaaaaaaaaaaaaaaaaaaaaaaaaaaaaaX",
        b"aaaaaaaaaaaaaaaaaaaaaaaaaaaaaaaaY",
    ));
}

#[test]
fn constant_time_eq_length_difference_with_zero_padding() {
    // The longer string ends with null bytes. The XOR with zero padding would
    // produce 0, but the initial length check must still cause the function to
    // return false.
    let short = b"abc";
    let mut long = Vec::from(&b"abc"[..]);
    long.extend_from_slice(&[0u8; 300]);

    assert!(
        !constant_time_eq(short, &long),
        "different lengths must return false even when padding XOR is zero"
    );
    assert!(
        !constant_time_eq(&long, short),
        "different lengths must return false (reversed argument order)"
    );
}

#[test]
fn constant_time_eq_single_byte_values() {
    assert!(constant_time_eq(b"\x00", b"\x00"));
    assert!(constant_time_eq(b"\xff", b"\xff"));
    assert!(!constant_time_eq(b"\x00", b"\x01"));
    assert!(!constant_time_eq(b"\x00", b"\xff"));
}

#[test]
fn increment_restart_count_returns_new_count() {
    let mut m = manager();
    let id = 9u128;
    add(&mut m, id, "test", 0, None);
    // First increment: 0 -> 1
    assert_eq!(m.increment_restart_count(id), Some(1));
    // Second increment: 1 -> 2
    assert_eq!(m.increment_restart_count(id), Some(2));
    // Third increment: 2 -> 3
    assert_eq!(m.increment_restart_count(id), Some(3));
    // Verify via get
    assert_eq!(m.get_restart_count(id), Some(3));
}

#[test]
fn increment_restart_count_nonexistent_session() {
    let mut m = manager();
    assert_eq!(m.increment_restart_count(1), None);
}

#[test]
fn get_restart_count_nonexistent_session() {
    let m = manager();
    assert_eq!(m.get_restart_count(1), None);
}

#[test]
fn restart_count_starts_at_zero() {
    let mut m = manager();
    add(&mut m, 1, "test", 0, None);
    assert_eq!(m.get_restart_count(1), Some(0));
}

#[test]
fn restart_count_independent_per_session() {
    let mut m = manager();
    add(&mut m, 1, "test", 0, None);
    add(&mut m, 2, "test", 0, None);

    // Increment session 1 twice
    m.increment_restart_count(1);
    m.increment_restart_count(1);

    // Increment session 2 once
    m.increment_restart_count(2);

    assert_eq!(m.get_restart_count(1), Some(2));
    assert_eq!(m.get_restart_count(2), Some(1));
}

#[test]
fn stale_sessions_uses_per_session_timeout() {
    let mut m = manager();
    let now: u64 = 1_700_000_000;
    let (id_short, id_long, id_default) = (1u128, 2u128, 3u128);
    // Session with short timeout (60s), last active 120s ago → should be stale
    add(&mut m, id_short, "short", now - 120, Some(60));
    // Session with long timeout (86400s), last active 120s ago → should NOT be stale
    add(&mut m, id_long, "long", now - 120, Some(86400));
    // Session with no override, last active 120s ago, global=3600 → should NOT be stale
    add(&mut m, id_default, "default", now - 120, None);

    let stale = m.stale_sessions(now, 3600);
    assert!(stale.contains(&id_short), "short-timeout session should be stale");
    assert!(!stale.contains(&id_long), "long-timeout session should NOT be stale");
    assert!(!stale.contains(&id_default), "default-timeout session should NOT be stale");

    // A heartbeat makes it active again, and the limit itself is not yet too long.
    assert!(m.heartbeat(id_short, now));
    assert!(m.stale_sessions(now, 3600).is_empty());
    assert!(m.stale_sessions(now + 60, 3600).is_empty());
    assert_eq!(m.stale_sessions(now + 61, 3600), [id_short]);
    // A limit of 0 is none, and the clock may go backwards.
    assert_eq!(m.stale_sessions(now + 61, 0), [id_short]);
    assert!(m.stale_sessions(0, 3600).is_empty());
    assert!(!m.heartbeat(99, now));
}

#[test]
fn get_idle_timeout_returns_override_when_set() {
    let mut m = manager();
    add(&mut m, 1, "test", 0, Some(7200));
    assert_eq!(m.get_idle_timeout(1, 3600), 7200);
}

#[test]
fn get_idle_timeout_returns_global_when_no_override() {
    let mut m = manager();
    add(&mut m, 1, "test", 0, None);
    assert_eq!(m.get_idle_timeout(1, 3600), 3600);
}

#[test]
fn get_idle_timeout_nonexistent_returns_global() {
    let m = manager();
    assert_eq!(m.get_idle_timeout(1, 3600), 3600);
}

// --- making and ending sessions ---

#[test]
fn created_sessions_have_random_identifiers() {
    let mut m = manager();
    let a = m
        .create_session(request("ann", None), 7, "t".to_string(), "r".to_string())
        .ok()
        .unwrap();
    let b = m
        .create_session(request("bob", None), 8, "t".to_string(), "r".to_string())
        .ok()
        .unwrap();
    assert_ne!(a.id, b.id);
    assert_ne!(a.display, b.display);
    assert_eq!((a.id >> 76) & 0xf, 4);
    assert_eq!((a.id >> 62) & 0x3, 2);
    assert_eq!(m.get_session(a.id).unwrap().username, "ann");
    assert_eq!(m.find_by_username("bob").unwrap().id, b.id);
    assert!(m.find_by_username("carl").is_none());
    assert_eq!(m.list_sessions().len(), 2);
    let mut times: Vec<u64> = m.list_sessions_with_activity().iter().map(|e| e.1).collect();
    times.sort();
    assert_eq!(times, [7, 8]);
}

#[test]
fn sizes_out_of_range_fall_back() {
    let mut m = manager();
    let mut r = request("ann", None);
    r.initial_width = Some(319);
    r.initial_height = Some(2160);
    let info = m.reserve_session(1, r, 0, String::new(), String::new()).ok().unwrap();
    assert_eq!((info.width, info.height), (1920, 2160));
    let mut r = request("ann", None);
    r.initial_width = Some(3840);
    r.initial_height = Some(2161);
    let info = m.reserve_session(2, r, 0, String::new(), String::new()).ok().unwrap();
    assert_eq!((info.width, info.height), (3840, 1080));
    let mut r = request("ann", None);
    r.initial_width = Some(320);
    r.initial_height = Some(240);
    let info = m.reserve_session(3, r, 0, String::new(), String::new()).ok().unwrap();
    assert_eq!((info.width, info.height), (320, 240));
}

#[test]
fn the_limit_on_sessions_holds() {
    let mut m = manager();
    let mut r = request("ann", None);
    r.max_sessions = 1;
    assert!(m.reserve_session(1, r, 0, String::new(), String::new()).is_ok());
    let mut r = request("ann", None);
    r.max_sessions = 1;
    let e = m.reserve_session(2, r, 0, String::new(), String::new()).err().unwrap();
    assert_eq!(e, "Maximum number of sessions reached (1)");
    assert_eq!(m.list_sessions().len(), 1);
}

#[test]
fn ended_sessions_give_their_display_back() {
    let mut m = manager();
    let first = add(&mut m, 1, "ann", 0, None);
    assert_eq!(first, 100);
    let info = m.get_session(1).unwrap();
    let info = m.session_started(info, Ok("beam-agent-x".to_string())).ok().unwrap();
    assert_eq!((info.id, info.display), (1, 100));
    assert_eq!(m.get_systemd_unit(1).as_deref(), Some("beam-agent-x"));
    let stopped = m.destroy_session(1).unwrap();
    assert_eq!(stopped.display, 100);
    assert_eq!(stopped.systemd_unit.as_deref(), Some("beam-agent-x"));
    assert!(m.destroy_session(1).is_none());
    // The display is not given out before it was released.
    assert_eq!(add(&mut m, 2, "bob", 0, None), 101);
    m.release_display(100);
    assert_eq!(add(&mut m, 3, "carl", 0, None), 100);
}

#[test]
fn failed_starts_are_undone() {
    let mut m = manager();
    let display = add(&mut m, 1, "ann", 0, None);
    let info = m.get_session(1).unwrap();
    let error = m.session_started(info, Err("no unit".to_string())).err().unwrap();
    assert_eq!(error, "Failed to start agent service: no unit");
    assert!(m.get_session(1).is_none());
    assert_eq!(add(&mut m, 2, "ann", 0, None), display);
}

#[test]
fn respawned_agents_need_the_new_token() {
    let mut m = manager();
    assert!(m.respawn_plan(1).is_none());
    let display = add(&mut m, 1, "ann", 7, None);
    let old_release = m.get_release_token(1).unwrap();
    let info = m.get_session(1).unwrap();
    assert!(m.session_started(info, Ok("old-unit".to_string())).is_ok());
    assert!(m.verify_agent_token(1, "token"));
    let plan = m.respawn_plan(1).unwrap();
    assert_eq!((plan.info.id, plan.info.display), (1, display));
    assert_eq!(plan.systemd_unit.as_deref(), Some("old-unit"));

    // A start that fails changes nothing.
    assert_eq!(
        m.respawn_agent(1, Err("no unit".to_string()), "new".to_string()),
        Err("no unit".to_string())
    );
    assert!(m.verify_agent_token(1, "token"));
    assert!(!m.verify_agent_token(1, "new"));
    assert_eq!(m.get_systemd_unit(1).as_deref(), Some("old-unit"));

    assert_eq!(m.respawn_agent(1, Ok("unit".to_string()), "new".to_string()), Ok(Some(())));
    assert!(m.verify_agent_token(1, "new"));
    assert!(!m.verify_agent_token(1, "token"));
    assert!(m.verify_release_token(1, &old_release));
    assert_eq!(m.get_systemd_unit(1).as_deref(), Some("unit"));

    // There is nothing to be done for a session that is not there.
    assert_eq!(m.respawn_agent(2, Ok("unit".to_string()), "new".to_string()), Ok(None));
    assert_eq!(m.respawn_agent(2, Err("no".to_string()), "new".to_string()), Ok(None));
    assert!(m.get_session(2).is_none());
}

#[test]
fn starts_have_outcomes() {
    let unit = "beam-agent-00000000-0000-0000-0000-000000000005";
    assert_eq!(spawn_outcome(5, true, b"ignored"), Ok(unit.to_string()));
    assert_eq!(
        spawn_outcome(5, false, b"no \xff unit"),
        Err(format!("systemd-run failed for {unit}: no \u{fffd} unit"))
    );
    let ran = |success: bool| SpawnReply::Ran { success, stderr: b"x".to_vec() };
    assert_eq!(spawn_result(5, 7, &ran(true)), Ok(unit.to_string()));
    assert_eq!(
        spawn_result(5, 7, &ran(false)),
        Err(format!("systemd-run failed for {unit}: x"))
    );
    assert_eq!(
        spawn_result(5, 7, &SpawnReply::NotRun),
        Err("Failed to run systemd-run for display :7".to_string())
    );
    assert_eq!(
        spawn_result(5, 7, &SpawnReply::TimedOut),
        Err("systemd-run timed out starting agent (30s)".to_string())
    );
}

// --- restarts of the server ---

fn copy_of(p: &PersistedSession) -> PersistedSession {
    PersistedSession {
        session_id: p.session_id,
        username: p.username.clone(),
        display: p.display,
        width: p.width,
        height: p.height,
        created_at: p.created_at,
        agent_pid: p.agent_pid,
        agent_token: p.agent_token.clone(),
        release_token: p.release_token.clone(),
        systemd_unit: p.systemd_unit.clone(),
    }
}

#[test]
fn records_restore_sessions() {
    let mut m = manager();
    add(&mut m, 1, "ann", 3, Some(5));
    add(&mut m, 2, "bob", 4, None);
    let info = m.get_session(1).unwrap();
    assert!(m.session_started(info, Ok("unit-1".to_string())).is_ok());
    let records = m.persist_sessions();
    assert_eq!(records.len(), 1);
    let p = &records[0];
    assert_eq!((p.session_id, p.display, p.agent_pid), (1, 100, 0));

    let mut n = manager();
    let found = vec![
        FoundRecord {
            record: copy_of(p),
            agent: AgentState { unit_active: true, process_exists: false },
            new_release_token: "fresh".to_string(),
        },
        FoundRecord {
            record: PersistedSession { session_id: 9, display: 120, ..copy_of(p) },
            agent: AgentState { unit_active: false, process_exists: true },
            new_release_token: "fresh".to_string(),
        },
    ];
    assert_eq!(n.restore_sessions(&found, 50), [1]);
    let info = n.get_session(1).unwrap();
    assert_eq!((info.username.as_str(), info.display, info.created_at), ("ann", 100, 3));
    assert!(n.verify_agent_token(1, "token"));
    assert!(n.verify_release_token(1, "release"));
    assert_eq!(n.get_systemd_unit(1).as_deref(), Some("unit-1"));
    assert_eq!(n.get_idle_timeout(1, 3600), 3600);
    assert_eq!(n.list_sessions_with_activity()[0].1, 50);
    // Its display is not given out again.
    assert_eq!(add(&mut n, 3, "carl", 0, None), 101);
}

#[test]
fn old_records_are_restored_by_process() {
    let mut m = manager();
    let old = PersistedSession {
        session_id: 5,
        username: "ann".to_string(),
        display: 130,
        width: 800,
        height: 600,
        created_at: 1,
        agent_pid: 42,
        agent_token: "t".to_string(),
        release_token: String::new(),
        systemd_unit: None,
    };
    assert_eq!(old.unit(), "beam-agent-00000000-0000-0000-0000-000000000005");
    let gone = AgentState { unit_active: false, process_exists: false };
    assert!(!old.is_running(&gone));
    assert!(!m.restore_session(&old, &gone, 9, "fresh"));
    assert!(m.get_session(5).is_none());
    let alive = AgentState { unit_active: false, process_exists: true };
    assert!(old.is_running(&alive));
    assert!(m.restore_session(&old, &alive, 9, "fresh"));
    assert!(m.verify_release_token(5, "fresh"));
    assert_eq!(m.get_systemd_unit(5), None);
    assert_eq!(add(&mut m, 6, "bob", 0, None), 131);
}

// --- what agents are started with ---

#[test]
fn agents_are_started_by_systemd() {
    let mut video = VideoConfig::default();
    video.encoder = Some("x264enc".to_string());
    let mut m = SessionManager::new(
        100,
        1920,
        1080,
        Some("/etc/beam/cert.pem".to_string()),
        video,
        "dummy".to_string(),
        "xorg".to_string(),
        "",
    );
    let id = 0x0123456789abcdef0123456789abcdefu128;
    add(&mut m, id, "ann", 0, None);
    let info = m.get_session(id).unwrap();
    let text = "01234567-89ab-cdef-0123-456789abcdef";
    let args = m.spawn_agent(&info, "wss://h:1", "secret", "/usr/bin/beam-agent", Some(1000));
    let log = format!("/var/log/beam/agent-{text}.log");
    let expected: Vec<String> = [
        "--unit", &format!("beam-agent-{text}"), "--description", "Beam desktop for ann on :100",
        "--uid", "ann", "--property", "PAMName=beam", "--property", "Type=simple", "--property",
        &format!("StandardOutput=append:{log}"), "--property",
        &format!("StandardError=append:{log}"), "--property", "Restart=on-failure", "--property",
        "RestartSec=2", "--property", "StartLimitBurst=3", "--property",
        "StartLimitIntervalSec=60", "--property", "TimeoutStopSec=10", "--property",
        "KillMode=control-group", "--collect", "--no-block", "--setenv",
        "BEAM_AGENT_TOKEN=secret", "--setenv", "DISPLAY=:100", "--setenv", "RUST_LOG=info",
        "--setenv", "XDG_RUNTIME_DIR=/run/user/1000", "--", "/usr/bin/beam-agent", "--display",
        ":100", "--session-id", text, "--server-url", "wss://h:1", "--width", "1920", "--height",
        "1080", "--framerate", "120", "--bitrate", "50000", "--max-width", "3840",
        "--max-height", "2160", "--encoder", "x264enc", "--tls-cert", "/etc/beam/cert.pem",
        "--gpu-driver", "dummy", "--backend", "xorg", "--display-start", "100",
    ]
    .iter()
    .map(|s| s.to_string())
    .collect();
    assert_eq!(args, expected);
    let args = m.spawn_agent(&info, "wss://h:1", "secret", "/usr/bin/beam-agent", None);
    assert!(!args.iter().any(|a| a.starts_with("XDG_RUNTIME_DIR")));
}

#[test]
fn paths_and_units() {
    let stale: Vec<(String, bool)> =
        stale_paths(12).into_iter().map(|p| (p.path, p.directory)).collect();
    let expected = [
        ("/tmp/beam-xorg-12.conf", false),
        ("/tmp/beam-pulse-12.pa", false),
        ("/tmp/beam-pulse-12", true),
        ("/tmp/.X12-lock", false),
        ("/tmp/beam-keyring-12", true),
        ("/tmp/beam-edid-12.bin", false),
    ];
    assert_eq!(stale.len(), expected.len());
    for (got, want) in stale.iter().zip(expected) {
        assert_eq!((got.0.as_str(), got.1), want);
    }
    assert_eq!(lock_path(12), "/tmp/.X12-lock");
    assert_eq!(display_name(12), ":12");
    assert_eq!(stop_unit("u"), ["stop", "u"]);
    assert_eq!(kill_unit("u"), ["kill", "--signal=SIGKILL", "u"]);
    assert_eq!(query_unit("u"), ["is-active", "--quiet", "u"]);
    assert_eq!(unit_name(1), "beam-agent-00000000-0000-0000-0000-000000000001");
    assert_eq!(record_file(1), "00000000-0000-0000-0000-000000000001.json");
    assert!(holds_record(&record_file(7)));
    assert!(!holds_record(".json"));
    assert!(!holds_record("x.json.tmp"));
    assert!(holds_record("x.json"));
}
