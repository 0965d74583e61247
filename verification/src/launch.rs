//! How the server starts and stops the agent of a session: the command lines, and the files that
//! an earlier session may have left behind.
use crate::cli::{
    Invocation, OptionsView, Outcome, default_options, parse_args, read_command_line, scanned,
    takes_number, takes_value, with_number, with_option,
};
use crate::ids::{uuid_string, uuid_text, uuid_text_reads_back};
use crate::session::{InfoView, SessionInfo, SessionManager, SettingsView, unit_name, unit_name_of};
use crate::text::{
    decimal, decimal_reads_back, decimal_u32, ends, ends_with, from_utf8_lossy, lossy_text,
    opt_text, texts, unsigned,
};
use vstd::prelude::*;
use vstd::string::*;

verus! {

/// A list with one more argument.
pub open spec fn with_arg(args: Seq<Seq<char>>, a: Seq<char>) -> Seq<Seq<char>> {
    args.push(a)
}

/// A list with a flag and its value behind it.
pub open spec fn with_pair(args: Seq<Seq<char>>, flag: Seq<char>, value: Seq<char>) -> Seq<
    Seq<char>,
> {
    args.push(flag).push(value)
}

/// A list with a flag and its value behind it, where there is a value.
pub open spec fn with_opt_pair(
    args: Seq<Seq<char>>,
    flag: Seq<char>,
    value: Option<Seq<char>>,
) -> Seq<Seq<char>> {
    match value {
        Some(v) => with_pair(args, flag, v),
        None => args,
    }
}

/// The name of display `n`.
pub open spec fn display_name_of(n: u32) -> Seq<char> {
    ":"@ + decimal(n as nat)
}

/// The name of display `n`.
pub fn display_name(n: u32) -> (r: String)
    ensures
        r@ == display_name_of(n),
{
    ":".to_owned().concat(decimal_u32(n).as_str())
}

/// The file that the agent of a session logs to.
pub open spec fn log_path_of(id: u128) -> Seq<char> {
    "/var/log/beam/agent-"@ + uuid_text(id) + ".log"@
}

/// The arguments of `systemd-run` that describe the unit of an agent. The unit runs as the
/// session's user in a PAM session, is restarted when it fails, is stopped with all of its
/// processes, and goes away once it is done.
pub open spec fn unit_flags(info: InfoView) -> Seq<Seq<char>> {
    let a = with_pair(Seq::empty(), "--unit"@, unit_name_of(info.id));
    let a = with_pair(
        a,
        "--description"@,
        "Beam desktop for "@ + info.username + " on "@ + display_name_of(info.display),
    );
    let a = with_pair(a, "--uid"@, info.username);
    let a = with_pair(a, "--property"@, "PAMName=beam"@);
    let a = with_pair(a, "--property"@, "Type=simple"@);
    let a = with_pair(a, "--property"@, "StandardOutput=append:"@ + log_path_of(info.id));
    let a = with_pair(a, "--property"@, "StandardError=append:"@ + log_path_of(info.id));
    let a = with_pair(a, "--property"@, "Restart=on-failure"@);
    let a = with_pair(a, "--property"@, "RestartSec=2"@);
    let a = with_pair(a, "--property"@, "StartLimitBurst=3"@);
    let a = with_pair(a, "--property"@, "StartLimitIntervalSec=60"@);
    let a = with_pair(a, "--property"@, "TimeoutStopSec=10"@);
    let a = with_pair(a, "--property"@, "KillMode=control-group"@);
    with_arg(with_arg(a, "--collect"@), "--no-block"@)
}

/// `args` with the environment of the unit behind: the agent's token, which is not for the
/// command line, the display, and the user's runtime directory where the user is known.
pub open spec fn with_environment(
    args: Seq<Seq<char>>,
    info: InfoView,
    agent_token: Seq<char>,
    uid: Option<u32>,
) -> Seq<Seq<char>> {
    let a = with_pair(args, "--setenv"@, "BEAM_AGENT_TOKEN="@ + agent_token);
    let a = with_pair(a, "--setenv"@, "DISPLAY="@ + display_name_of(info.display));
    let a = with_pair(a, "--setenv"@, "RUST_LOG=info"@);
    match uid {
        Some(n) => with_pair(a, "--setenv"@, "XDG_RUNTIME_DIR=/run/user/"@ + decimal(n as nat)),
        None => a,
    }
}

/// `args` with the command line of the agent behind, which begins with the agent's path.
pub open spec fn with_agent_command(
    args: Seq<Seq<char>>,
    settings: SettingsView,
    info: InfoView,
    server_url: Seq<char>,
    agent_path: Seq<char>,
) -> Seq<Seq<char>> {
    let a = with_arg(args, agent_path);
    let a = with_pair(a, "--display"@, display_name_of(info.display));
    let a = with_pair(a, "--session-id"@, uuid_text(info.id));
    let a = with_pair(a, "--server-url"@, server_url);
    let a = with_pair(a, "--width"@, decimal(info.width as nat));
    let a = with_pair(a, "--height"@, decimal(info.height as nat));
    let a = with_pair(a, "--framerate"@, decimal(settings.framerate as nat));
    let a = with_pair(a, "--bitrate"@, decimal(settings.bitrate as nat));
    let a = with_pair(a, "--max-width"@, decimal(settings.max_width as nat));
    let a = with_pair(a, "--max-height"@, decimal(settings.max_height as nat));
    let a = with_opt_pair(a, "--encoder"@, settings.encoder);
    let a = with_opt_pair(a, "--tls-cert"@, settings.tls_cert_path);
    let a = with_pair(a, "--gpu-driver"@, settings.gpu_driver);
    let a = with_pair(a, "--backend"@, settings.backend);
    with_pair(a, "--display-start"@, decimal(settings.display_start as nat))
}

/// All arguments of `systemd-run` that start the agent of a session.
pub open spec fn spawn_command(
    settings: SettingsView,
    info: InfoView,
    server_url: Seq<char>,
    agent_token: Seq<char>,
    agent_path: Seq<char>,
    uid: Option<u32>,
) -> Seq<Seq<char>> {
    with_agent_command(
        with_arg(with_environment(unit_flags(info), info, agent_token, uid), "--"@),
        settings,
        info,
        server_url,
        agent_path,
    )
}

fn add_arg(args: &mut Vec<String>, a: &str)
    ensures
        texts(final(args)@) == with_arg(texts(old(args)@), a@),
{
    args.push(a.to_owned());
    assert(texts(args@) =~= texts(old(args)@).push(a@));
}

fn add_pair(args: &mut Vec<String>, flag: &str, value: &str)
    ensures
        texts(final(args)@) == with_pair(texts(old(args)@), flag@, value@),
{
    add_arg(args, flag);
    add_arg(args, value);
}

fn add_opt_pair(args: &mut Vec<String>, flag: &str, value: &Option<String>)
    ensures
        texts(final(args)@) == with_opt_pair(texts(old(args)@), flag@, opt_text(*value)),
{
    match value {
        Some(v) => add_pair(args, flag, v.as_str()),
        None => {},
    }
}

fn add_unit_flags(args: &mut Vec<String>, info: &SessionInfo)
    requires
        old(args)@.len() == 0,
    ensures
        texts(final(args)@) == unit_flags(info@),
{
    assert(texts(args@) =~= Seq::<Seq<char>>::empty());
    let log = "/var/log/beam/agent-".to_owned().concat(uuid_string(info.id).as_str()).concat(".log");
    let description = "Beam desktop for ".to_owned().concat(info.username.as_str()).concat(
        " on ",
    ).concat(display_name(info.display).as_str());
    add_pair(args, "--unit", unit_name(info.id).as_str());
    add_pair(args, "--description", description.as_str());
    add_pair(args, "--uid", info.username.as_str());
    add_pair(args, "--property", "PAMName=beam");
    add_pair(args, "--property", "Type=simple");
    add_pair(
        args,
        "--property",
        "StandardOutput=append:".to_owned().concat(log.as_str()).as_str(),
    );
    add_pair(
        args,
        "--property",
        "StandardError=append:".to_owned().concat(log.as_str()).as_str(),
    );
    add_pair(args, "--property", "Restart=on-failure");
    add_pair(args, "--property", "RestartSec=2");
    add_pair(args, "--property", "StartLimitBurst=3");
    add_pair(args, "--property", "StartLimitIntervalSec=60");
    add_pair(args, "--property", "TimeoutStopSec=10");
    add_pair(args, "--property", "KillMode=control-group");
    add_arg(args, "--collect");
    add_arg(args, "--no-block");
}

fn add_environment(args: &mut Vec<String>, info: &SessionInfo, agent_token: &str, uid: Option<u32>)
    ensures
        texts(final(args)@) == with_environment(texts(old(args)@), info@, agent_token@, uid),
{
    add_pair(args, "--setenv", "BEAM_AGENT_TOKEN=".to_owned().concat(agent_token).as_str());
    add_pair(
        args,
        "--setenv",
        "DISPLAY=".to_owned().concat(display_name(info.display).as_str()).as_str(),
    );
    add_pair(args, "--setenv", "RUST_LOG=info");
    match uid {
        Some(n) => add_pair(
            args,
            "--setenv",
            "XDG_RUNTIME_DIR=/run/user/".to_owned().concat(decimal_u32(n).as_str()).as_str(),
        ),
        None => {},
    }
}

impl SessionManager {
    /// The arguments of `systemd-run` that start the agent of a session. `agent_path` is the
    /// agent's program, and `uid` the number of the session's user where the system knows it.
    pub fn spawn_agent(
        &self,
        info: &SessionInfo,
        server_url: &str,
        agent_token: &str,
        agent_path: &str,
        uid: Option<u32>,
    ) -> (r: Vec<String>)
        ensures
            texts(r@) == spawn_command(
                self@.settings,
                info@,
                server_url@,
                agent_token@,
                agent_path@,
                uid,
            ),
    {
        let mut args: Vec<String> = Vec::new();
        add_unit_flags(&mut args, info);
        add_environment(&mut args, info, agent_token, uid);
        add_arg(&mut args, "--");
        let s = self.settings();
        add_arg(&mut args, agent_path);
        add_pair(&mut args, "--display", display_name(info.display).as_str());
        add_pair(&mut args, "--session-id", uuid_string(info.id).as_str());
        add_pair(&mut args, "--server-url", server_url);
        add_pair(&mut args, "--width", decimal_u32(info.width).as_str());
        add_pair(&mut args, "--height", decimal_u32(info.height).as_str());
        add_pair(&mut args, "--framerate", decimal_u32(s.video.framerate).as_str());
        add_pair(&mut args, "--bitrate", decimal_u32(s.video.bitrate).as_str());
        add_pair(&mut args, "--max-width", decimal_u32(s.video.max_width).as_str());
        add_pair(&mut args, "--max-height", decimal_u32(s.video.max_height).as_str());
        add_opt_pair(&mut args, "--encoder", &s.video.encoder);
        add_opt_pair(&mut args, "--tls-cert", s.tls_cert_path);
        add_pair(&mut args, "--gpu-driver", s.gpu_driver);
        add_pair(&mut args, "--backend", s.backend);
        add_pair(&mut args, "--display-start", decimal_u32(s.display_start).as_str());
        args
    }
}

/// A path to be removed.
pub struct StalePath {
    pub path: String,
    /// A directory, with all that is in it, and not a file.
    pub directory: bool,
}

/// A path to be removed, in mathematical terms: the path, and whether it is a directory.
pub open spec fn stale_view(p: StalePath) -> (Seq<char>, bool) {
    (p.path@, p.directory)
}

/// What an earlier session may have left behind on a display number.
pub open spec fn stale_paths_of(display: u32) -> Seq<(Seq<char>, bool)> {
    let n = decimal(display as nat);
    seq![
        ("/tmp/beam-xorg-"@ + n + ".conf"@, false),
        ("/tmp/beam-pulse-"@ + n + ".pa"@, false),
        ("/tmp/beam-pulse-"@ + n, true),
        ("/tmp/.X"@ + n + "-lock"@, false),
        ("/tmp/beam-keyring-"@ + n, true),
        ("/tmp/beam-edid-"@ + n + ".bin"@, false),
    ]
}

/// What an earlier session may have left behind on a display number: to be removed before an
/// agent is started on it.
pub fn stale_paths(display: u32) -> (r: Vec<StalePath>)
    ensures
        r@.map_values(|p: StalePath| stale_view(p)) == stale_paths_of(display),
{
    let n = decimal_u32(display);
    let r = vec![
        StalePath {
            path: "/tmp/beam-xorg-".to_owned().concat(n.as_str()).concat(".conf"),
            directory: false,
        },
        StalePath {
            path: "/tmp/beam-pulse-".to_owned().concat(n.as_str()).concat(".pa"),
            directory: false,
        },
        StalePath { path: "/tmp/beam-pulse-".to_owned().concat(n.as_str()), directory: true },
        StalePath { path: lock_path(display), directory: false },
        StalePath { path: "/tmp/beam-keyring-".to_owned().concat(n.as_str()), directory: true },
        StalePath {
            path: "/tmp/beam-edid-".to_owned().concat(n.as_str()).concat(".bin"),
            directory: false,
        },
    ];
    assert(r@.map_values(|p: StalePath| stale_view(p)) =~= stale_paths_of(display));
    r
}

/// The lock file of the X server on a display number.
pub open spec fn lock_path_of(display: u32) -> Seq<char> {
    "/tmp/.X"@ + decimal(display as nat) + "-lock"@
}

/// The lock file of the X server on a display number: the number can be given out again once the
/// file is gone.
pub fn lock_path(display: u32) -> (r: String)
    ensures
        r@ == lock_path_of(display),
{
    "/tmp/.X".to_owned().concat(decimal_u32(display).as_str()).concat("-lock")
}

/// What came of a call of `systemd-run`.
pub enum SpawnReply {
    /// It did not end in time.
    TimedOut,
    /// It could not be run.
    NotRun,
    /// It ran, and complained on its errors.
    Ran { success: bool, stderr: Vec<u8> },
}

/// What a call of `systemd-run` that has ended comes to: the agent's unit, or the complaint.
pub open spec fn spawned(id: u128, success: bool, stderr: Seq<u8>) -> Result<Seq<char>, Seq<char>> {
    if success {
        Ok(unit_name_of(id))
    } else {
        Err("systemd-run failed for "@ + unit_name_of(id) + ": "@ + lossy_text(stderr))
    }
}

/// What the start of an agent comes to.
pub open spec fn spawn_result_of(id: u128, display: u32, reply: SpawnReply) -> Result<
    Seq<char>,
    Seq<char>,
> {
    match reply {
        SpawnReply::TimedOut => Err("systemd-run timed out starting agent (30s)"@),
        SpawnReply::NotRun => Err(
            "Failed to run systemd-run for display "@ + display_name_of(display),
        ),
        SpawnReply::Ran { success, stderr } => spawned(id, success, stderr@),
    }
}

/// Whether a result is the given one.
pub open spec fn is_result(r: Result<String, String>, wanted: Result<Seq<char>, Seq<char>>) -> bool {
    match r {
        Ok(unit) => wanted == Ok::<Seq<char>, Seq<char>>(unit@),
        Err(e) => wanted == Err::<Seq<char>, Seq<char>>(e@),
    }
}

/// What a call of `systemd-run` that has ended comes to: the name of the unit that the agent of a
/// session runs in, where it succeeded, and else the complaint.
pub fn spawn_outcome(id: u128, success: bool, stderr: &[u8]) -> (r: Result<String, String>)
    ensures
        is_result(r, spawned(id, success, stderr@)),
        r is Ok <==> success,
{
    let unit = unit_name(id);
    if success {
        Ok(unit)
    } else {
        Err(
            "systemd-run failed for ".to_owned().concat(unit.as_str()).concat(": ").concat(
                from_utf8_lossy(stderr).as_str(),
            ),
        )
    }
}

/// What the start of the agent of a session on a display comes to.
pub fn spawn_result(id: u128, display: u32, reply: &SpawnReply) -> (r: Result<String, String>)
    ensures
        is_result(r, spawn_result_of(id, display, *reply)),
{
    match reply {
        SpawnReply::TimedOut => Err("systemd-run timed out starting agent (30s)".to_owned()),
        SpawnReply::NotRun => Err(
            "Failed to run systemd-run for display ".to_owned().concat(
                display_name(display).as_str(),
            ),
        ),
        SpawnReply::Ran { success, stderr } => spawn_outcome(id, *success, stderr.as_slice()),
    }
}

/// The arguments of `systemctl` that stop a unit.
pub fn stop_unit(unit: &str) -> (r: Vec<String>)
    ensures
        texts(r@) == seq!["stop"@, unit@],
{
    let r = vec!["stop".to_owned(), unit.to_owned()];
    assert(texts(r@) =~= seq!["stop"@, unit@]);
    r
}

/// The arguments of `systemctl` that kill a unit which did not stop in time.
pub fn kill_unit(unit: &str) -> (r: Vec<String>)
    ensures
        texts(r@) == seq!["kill"@, "--signal=SIGKILL"@, unit@],
{
    let r = vec!["kill".to_owned(), "--signal=SIGKILL".to_owned(), unit.to_owned()];
    assert(texts(r@) =~= seq!["kill"@, "--signal=SIGKILL"@, unit@]);
    r
}

/// The arguments of `systemctl` that ask whether a unit is active.
pub fn query_unit(unit: &str) -> (r: Vec<String>)
    ensures
        texts(r@) == seq!["is-active"@, "--quiet"@, unit@],
{
    let r = vec!["is-active".to_owned(), "--quiet".to_owned(), unit.to_owned()];
    assert(texts(r@) =~= seq!["is-active"@, "--quiet"@, unit@]);
    r
}

/// Where session records are kept while the server restarts.
pub const SESSION_DIR: &'static str = "/var/lib/beam/sessions";

/// The name of the file that holds the record of a session.
pub open spec fn record_file_of(id: u128) -> Seq<char> {
    uuid_text(id) + ".json"@
}

/// The name of the file that holds the record of a session.
pub fn record_file(id: u128) -> (r: String)
    ensures
        r@ == record_file_of(id),
{
    uuid_string(id).concat(".json")
}

/// Whether the file of this name holds a session record: its extension is `json`.
pub open spec fn is_record_file(name: Seq<char>) -> bool {
    name.len() > 5 && ends(name, ".json"@)
}

/// Whether the file of this name holds a session record: its extension is `json`.
pub fn holds_record(name: &str) -> (r: bool)
    ensures
        r == is_record_file(name@),
{
    name.unicode_len() > 5 && ends_with(name, ".json")
}

/// The file that a record is written to is one that records are read from.
pub proof fn record_files_are_found(id: u128)
    ensures
        is_record_file(record_file_of(id)),
{
    uuid_text_reads_back(id);
    reveal_strlit(".json");
    let name = record_file_of(id);
    assert(name.subrange(36, 41) =~= ".json"@);
}

// ---------------------------------------------------------------------------
// What the server passes is what the agent reads
// ---------------------------------------------------------------------------

/// Whether an argument ends the reading of a command line.
pub open spec fn stops_reading(a: Seq<char>) -> bool {
    a == "-V"@ || a == "--version"@ || a == "-h"@ || a == "--help"@
}

proof fn lemma_flags()
    ensures
        forall|f: Seq<char>| #[trigger] stops_reading(f) ==> !takes_value(f),
        forall|o: OptionsView, v: Seq<char>| #[trigger]
            with_option(o, "--display"@, v) == Ok::<OptionsView, Seq<char>>(
                OptionsView { display: v, ..o },
            ),
        forall|o: OptionsView, v: Seq<char>| #[trigger]
            with_option(o, "--server-url"@, v) == Ok::<OptionsView, Seq<char>>(
                OptionsView { server_url: v, ..o },
            ),
        forall|o: OptionsView, v: Seq<char>| #[trigger]
            with_option(o, "--tls-cert"@, v) == Ok::<OptionsView, Seq<char>>(
                OptionsView { tls_cert_path: Some(v), ..o },
            ),
        forall|o: OptionsView, v: Seq<char>| #[trigger]
            with_option(o, "--encoder"@, v) == Ok::<OptionsView, Seq<char>>(
                OptionsView { encoder: Some(v), ..o },
            ),
        forall|o: OptionsView, v: Seq<char>| #[trigger]
            with_option(o, "--gpu-driver"@, v) == Ok::<OptionsView, Seq<char>>(
                OptionsView { gpu_driver: v, ..o },
            ),
        forall|o: OptionsView, v: Seq<char>| #[trigger]
            with_option(o, "--backend"@, v) == Ok::<OptionsView, Seq<char>>(
                OptionsView { backend: v, ..o },
            ),
        forall|o: OptionsView, n: u32| #[trigger]
            with_number(o, "--height"@, n) == (OptionsView { height: n, ..o }),
        forall|o: OptionsView, n: u32| #[trigger]
            with_number(o, "--framerate"@, n) == (OptionsView { framerate: n, ..o }),
        forall|o: OptionsView, n: u32| #[trigger]
            with_number(o, "--bitrate"@, n) == (OptionsView { bitrate: n, ..o }),
        forall|o: OptionsView, n: u32| #[trigger]
            with_number(o, "--max-width"@, n) == (OptionsView { max_width: n, ..o }),
        forall|o: OptionsView, n: u32| #[trigger]
            with_number(o, "--max-height"@, n) == (OptionsView { max_height: n, ..o }),
        forall|o: OptionsView, n: u32| #[trigger]
            with_number(o, "--display-start"@, n) == (OptionsView { display_start: n, ..o }),
        forall|f: Seq<char>| #[trigger] takes_number(f) ==> f != "--session-id"@,
{
    reveal_strlit("-V");
    reveal_strlit("--version");
    reveal_strlit("-h");
    reveal_strlit("--help");
    reveal_strlit("--display");
    reveal_strlit("--server-url");
    reveal_strlit("--session-id");
    reveal_strlit("--agent-token");
    reveal_strlit("--tls-cert");
    reveal_strlit("--encoder");
    reveal_strlit("--gpu-driver");
    reveal_strlit("--backend");
    reveal_strlit("--width");
    reveal_strlit("--height");
    reveal_strlit("--framerate");
    reveal_strlit("--bitrate");
    reveal_strlit("--max-width");
    reveal_strlit("--max-height");
    reveal_strlit("--display-start");
    assert("-V"@.len() == 2 && "-h"@.len() == 2);
    assert("--version"@[2] == 'v');
    assert("--help"@.len() == 6);
    assert("--display"@[2] == 'd' && "--display"@.len() == 9);
    assert("--server-url"@[2] == 's' && "--server-url"@[4] == 'r' && "--server-url"@.len() == 12);
    assert("--session-id"@[2] == 's' && "--session-id"@[4] == 's' && "--session-id"@.len() == 12);
    assert("--agent-token"@[2] == 'a' && "--agent-token"@.len() == 13);
    assert("--tls-cert"@[2] == 't' && "--tls-cert"@.len() == 10);
    assert("--encoder"@[2] == 'e' && "--encoder"@.len() == 9);
    assert("--gpu-driver"@[2] == 'g' && "--gpu-driver"@.len() == 12);
    assert("--backend"@[2] == 'b' && "--backend"@[3] == 'a' && "--backend"@.len() == 9);
    assert("--width"@[2] == 'w' && "--width"@.len() == 7);
    assert("--height"@[2] == 'h' && "--height"@.len() == 8);
    assert("--framerate"@[2] == 'f' && "--framerate"@.len() == 11);
    assert("--bitrate"@[2] == 'b' && "--bitrate"@[3] == 'i' && "--bitrate"@.len() == 9);
    assert("--max-width"@[2] == 'm' && "--max-width"@.len() == 11);
    assert("--max-height"@[2] == 'm' && "--max-height"@.len() == 12);
    assert("--display-start"@[2] == 'd' && "--display-start"@.len() == 15);
}

proof fn lemma_step(o: OptionsView, args: Seq<Seq<char>>, i: int, next: OptionsView)
    requires
        0 <= i,
        i + 1 < args.len(),
        takes_value(args[i]),
        !stops_reading(args[i]),
        with_option(o, args[i], args[i + 1]) == Ok::<OptionsView, Seq<char>>(next),
    ensures
        scanned(o, args, i) == scanned(next, args, i + 2),
{
}

proof fn lemma_number_step(o: OptionsView, args: Seq<Seq<char>>, i: int, n: u32)
    requires
        0 <= i,
        i + 1 < args.len(),
        takes_number(args[i]),
        args[i + 1] == decimal(n as nat),
    ensures
        scanned(o, args, i) == scanned(with_number(o, args[i], n), args, i + 2),
{
    lemma_flags();
    decimal_reads_back(n as nat);
    assert(unsigned(decimal(n as nat), 0xffff_ffff) == Some(n as nat));
    lemma_step(o, args, i, with_number(o, args[i], n));
}

/// The options that the server means an agent to run with.
pub open spec fn meant_options(
    settings: SettingsView,
    info: InfoView,
    server_url: Seq<char>,
) -> OptionsView {
    OptionsView {
        display: display_name_of(info.display),
        server_url,
        session_id: Some(info.id),
        agent_token: None,
        tls_cert_path: settings.tls_cert_path,
        width: info.width,
        height: info.height,
        framerate: settings.framerate,
        bitrate: settings.bitrate,
        encoder: settings.encoder,
        max_width: settings.max_width,
        max_height: settings.max_height,
        gpu_driver: settings.gpu_driver,
        display_start: settings.display_start,
        backend: settings.backend,
    }
}

/// An agent reads from its command line exactly the options that the server meant: the session,
/// the display, the sizes, the rates and the files. Its token comes from the environment, and its
/// backend is not resolved anew.
pub proof fn agents_read_what_the_server_passes(
    settings: SettingsView,
    info: InfoView,
    server_url: Seq<char>,
    agent_path: Seq<char>,
    env_token: Option<Seq<char>>,
    os_release: Seq<char>,
)
    requires
        settings.backend != "auto"@,
    ensures
        read_command_line(
            with_agent_command(Seq::empty(), settings, info, server_url, agent_path),
            env_token,
            os_release,
        ) == Outcome::Run(
            OptionsView {
                agent_token: env_token,
                ..meant_options(settings, info, server_url)
            },
        ),
{
    lemma_flags();
    uuid_text_reads_back(info.id);
    let args = with_agent_command(Seq::empty(), settings, info, server_url, agent_path);
    let o0 = default_options();
    let o1 = OptionsView { display: display_name_of(info.display), ..o0 };
    lemma_step(o0, args, 1, o1);
    let o2 = OptionsView { session_id: Some(info.id), ..o1 };
    assert(args[3] == "--session-id"@);
    lemma_step(o1, args, 3, o2);
    let o3 = OptionsView { server_url, ..o2 };
    lemma_step(o2, args, 5, o3);
    lemma_number_step(o3, args, 7, info.width);
    let o4 = OptionsView { width: info.width, ..o3 };
    lemma_number_step(o4, args, 9, info.height);
    let o5 = OptionsView { height: info.height, ..o4 };
    lemma_number_step(o5, args, 11, settings.framerate);
    let o6 = OptionsView { framerate: settings.framerate, ..o5 };
    lemma_number_step(o6, args, 13, settings.bitrate);
    let o7 = OptionsView { bitrate: settings.bitrate, ..o6 };
    lemma_number_step(o7, args, 15, settings.max_width);
    let o8 = OptionsView { max_width: settings.max_width, ..o7 };
    lemma_number_step(o8, args, 17, settings.max_height);
    let o9 = OptionsView { max_height: settings.max_height, ..o8 };
    let i = if settings.encoder is Some {
        21int
    } else {
        19int
    };
    let o10 = OptionsView { encoder: settings.encoder, ..o9 };
    if settings.encoder is Some {
        lemma_step(o9, args, 19, o10);
    }
    assert(scanned(o9, args, 19) == scanned(o10, args, i));
    let j = if settings.tls_cert_path is Some {
        i + 2
    } else {
        i
    };
    let o11 = OptionsView { tls_cert_path: settings.tls_cert_path, ..o10 };
    if settings.tls_cert_path is Some {
        lemma_step(o10, args, i, o11);
    }
    assert(scanned(o10, args, i) == scanned(o11, args, j));
    let o12 = OptionsView { gpu_driver: settings.gpu_driver, ..o11 };
    lemma_step(o11, args, j, o12);
    let o13 = OptionsView { backend: settings.backend, ..o12 };
    lemma_step(o12, args, j + 2, o13);
    lemma_number_step(o13, args, j + 4, settings.display_start);
    assert(args.len() == j + 6);
}

#[verifier::rlimit(40)]
proof fn lemma_agent_command_behind(
    args: Seq<Seq<char>>,
    settings: SettingsView,
    info: InfoView,
    server_url: Seq<char>,
    agent_path: Seq<char>,
)
    ensures
        with_agent_command(args, settings, info, server_url, agent_path) == args
            + with_agent_command(Seq::empty(), settings, info, server_url, agent_path),
{
    assert(with_agent_command(args, settings, info, server_url, agent_path) =~= args
        + with_agent_command(Seq::empty(), settings, info, server_url, agent_path));
}

/// The place of the agent's own command line among the arguments of `systemd-run`.
pub open spec fn agent_command_at(uid: Option<u32>) -> int {
    if uid is Some {
        37
    } else {
        35
    }
}

/// The command that the server runs starts the agent as the session's user, in the session's unit,
/// with the token in the environment; and what the agent reads behind the separator is the session
/// as it is: its identifier, display and size, the server, and the settings of the manager.
pub proof fn agents_are_started_for_their_sessions(
    m: &SessionManager,
    info: &SessionInfo,
    server_url: &str,
    token: &str,
    path: &str,
    uid: Option<u32>,
    r: Vec<String>,
    own: &Vec<String>,
    env_token: Option<String>,
    os_release: &str,
    i: Result<Invocation, String>,
)
    requires
        call_ensures(SessionManager::spawn_agent, (m, info, server_url, token, path, uid), r),
        texts(own@) == texts(r@).skip(agent_command_at(uid)),
        call_ensures(parse_args, (own, env_token, os_release), i),
        m@.settings.backend != "auto"@,
    ensures
        ({
            let t = texts(r@);
            &&& t[0] == "--unit"@ && t[1] == "beam-agent-"@ + uuid_text(info.id)
            &&& t[4] == "--uid"@ && t[5] == info.username@
            &&& t[28] == "--setenv"@ && t[29] == "BEAM_AGENT_TOKEN="@ + token@
            &&& t[agent_command_at(uid) - 1] == "--"@
            &&& t[agent_command_at(uid)] == path@
        }),
        i matches Ok(Invocation::Run(a)) && {
            &&& a.session_id == info.id
            &&& a.display@ == ":"@ + decimal(info.display as nat)
            &&& a.width == info.width && a.height == info.height
            &&& a.server_url@ == server_url@
            &&& a.framerate == m@.settings.framerate && a.bitrate == m@.settings.bitrate
            &&& a.max_width == m@.settings.max_width && a.max_height == m@.settings.max_height
            &&& opt_text(a.encoder) == m@.settings.encoder
            &&& opt_text(a.tls_cert_path) == m@.settings.tls_cert_path
            &&& a.gpu_driver@ == m@.settings.gpu_driver
            &&& a.backend@ == m@.settings.backend
            &&& a.display_start == m@.settings.display_start
            &&& opt_text(a.agent_token) == opt_text(env_token)
        },
{
    lemma_spawned(m@.settings, info@, server_url@, token@, path@, uid);
    lemma_read(m@.settings, info@, server_url@, path@, opt_text(env_token), os_release@, texts(own@));
}

proof fn lemma_spawned(
    settings: SettingsView,
    info: InfoView,
    server_url: Seq<char>,
    token: Seq<char>,
    path: Seq<char>,
    uid: Option<u32>,
)
    ensures
        ({
            let t = spawn_command(settings, info, server_url, token, path, uid);
            &&& t[0] == "--unit"@ && t[1] == "beam-agent-"@ + uuid_text(info.id)
            &&& t[4] == "--uid"@ && t[5] == info.username
            &&& t[28] == "--setenv"@ && t[29] == "BEAM_AGENT_TOKEN="@ + token
            &&& t[agent_command_at(uid) - 1] == "--"@
            &&& t[agent_command_at(uid)] == path
            &&& t.skip(agent_command_at(uid)) == with_agent_command(
                Seq::empty(),
                settings,
                info,
                server_url,
                path,
            )
        }),
{
    let before = with_arg(with_environment(unit_flags(info), info, token, uid), "--"@);
    let tail = with_agent_command(Seq::empty(), settings, info, server_url, path);
    lemma_agent_command_behind(before, settings, info, server_url, path);
    assert(before.len() == agent_command_at(uid));
    assert((before + tail).skip(before.len() as int) =~= tail);
    assert(tail[0] == path);
}

proof fn lemma_read(
    settings: SettingsView,
    info: InfoView,
    server_url: Seq<char>,
    path: Seq<char>,
    env_token: Option<Seq<char>>,
    os_release: Seq<char>,
    own: Seq<Seq<char>>,
)
    requires
        settings.backend != "auto"@,
        own == with_agent_command(Seq::empty(), settings, info, server_url, path),
    ensures
        read_command_line(own, env_token, os_release) == Outcome::Run(
            OptionsView { agent_token: env_token, ..meant_options(settings, info, server_url) },
        ),
{
    agents_read_what_the_server_passes(
        settings,
        info,
        server_url,
        path,
        env_token,
        os_release,
    );
}

/// The token is nowhere but in the environment: two starts that differ in it alone differ in that
/// one argument alone.
pub proof fn tokens_stay_out_of_the_command_line(
    m: &SessionManager,
    info: &SessionInfo,
    server_url: &str,
    a: &str,
    b: &str,
    path: &str,
    uid: Option<u32>,
    ra: Vec<String>,
    rb: Vec<String>,
)
    requires
        call_ensures(SessionManager::spawn_agent, (m, info, server_url, a, path, uid), ra),
        call_ensures(SessionManager::spawn_agent, (m, info, server_url, b, path, uid), rb),
    ensures
        ra@.len() == rb@.len(),
        forall|i: int| 0 <= i < ra@.len() && i != 29 ==> (#[trigger] ra@[i])@ == rb@[i]@,
        ra@[29]@ == "BEAM_AGENT_TOKEN="@ + a@,
        rb@[29]@ == "BEAM_AGENT_TOKEN="@ + b@,
{
    let ea = with_environment(unit_flags(info@), info@, a@, uid);
    let eb = with_environment(unit_flags(info@), info@, b@, uid);
    lemma_agent_command_behind(with_arg(ea, "--"@), m@.settings, info@, server_url@, path@);
    lemma_agent_command_behind(with_arg(eb, "--"@), m@.settings, info@, server_url@, path@);
    let ta = texts(ra@);
    let tb = texts(rb@);
    assert(ea.len() == eb.len());
    assert forall|i: int| 0 <= i < ea.len() && i != 29 implies #[trigger] ea[i] == eb[i] by {}
    assert(ta.len() == ra@.len() && tb.len() == rb@.len());
    assert forall|i: int| 0 <= i < ra@.len() && i != 29 implies (#[trigger] ra@[i])@ == rb@[i]@ by {
        assert(ta[i] == ra@[i]@ && tb[i] == rb@[i]@);
        if i < ea.len() {
            assert(ta[i] == ea[i] && tb[i] == eb[i]);
        }
    }
    assert(ta[29] == ra@[29]@ && tb[29] == rb@[29]@);
}

/// A file holds a record exactly where its name has something before `.json` at its end.
pub proof fn records_are_told_by_their_ends(name: &str, base: Seq<char>, r: bool)
    requires
        call_ensures(holds_record, (name,), r),
    ensures
        name@ == base + ".json"@ && base.len() > 0 ==> r,
        r ==> name@.len() > 5 && name@ == name@.take(name@.len() - 5) + ".json"@,
{
    reveal_strlit(".json");
    if name@ == base + ".json"@ {
        assert(name@.subrange(name@.len() - 5, name@.len() as int) =~= ".json"@);
    }
    if r {
        assert(name@ =~= name@.take(name@.len() - 5) + ".json"@);
    }
}

/// An agent runs exactly where `systemd-run` ended in time and succeeded, and then in its own unit.
pub proof fn only_success_is_a_start(
    id: u128,
    display: u32,
    reply: &SpawnReply,
    r: Result<String, String>,
)
    requires
        call_ensures(spawn_result, (id, display, reply), r),
    ensures
        r is Ok <==> (*reply matches SpawnReply::Ran { success, .. } && success),
        r matches Ok(unit) ==> unit@ == "beam-agent-"@ + uuid_text(id),
{
}

/// The unit of an agent has its log and its description, is of a PAM session, comes back two seconds
/// after a failure, three times in a minute at most, is stopped within ten seconds with all of its
/// processes, and goes once it is done. Its environment has the token, the display, and the runtime
/// directory where the user is known.
pub proof fn agents_run_in_units(
    m: &SessionManager,
    info: &SessionInfo,
    server_url: &str,
    token: &str,
    path: &str,
    uid: Option<u32>,
    r: Vec<String>,
)
    requires
        call_ensures(SessionManager::spawn_agent, (m, info, server_url, token, path, uid), r),
    ensures
        ({
            let t = texts(r@);
            let display = ":"@ + decimal(info.display as nat);
            let log = "/var/log/beam/agent-"@ + uuid_text(info.id) + ".log"@;
            &&& t[2] == "--description"@ && t[3] == "Beam desktop for "@ + info.username@ + " on "@
                + display
            &&& forall|i: int| 3 <= i <= 12 ==> #[trigger] t[2 * i] == "--property"@
            &&& t[7] == "PAMName=beam"@
            &&& t[9] == "Type=simple"@
            &&& t[11] == "StandardOutput=append:"@ + log
            &&& t[13] == "StandardError=append:"@ + log
            &&& t[15] == "Restart=on-failure"@
            &&& t[17] == "RestartSec=2"@
            &&& t[19] == "StartLimitBurst=3"@
            &&& t[21] == "StartLimitIntervalSec=60"@
            &&& t[23] == "TimeoutStopSec=10"@
            &&& t[25] == "KillMode=control-group"@
            &&& t[26] == "--collect"@
            &&& t[27] == "--no-block"@
            &&& t[30] == "--setenv"@ && t[31] == "DISPLAY="@ + display
            &&& t[32] == "--setenv"@ && t[33] == "RUST_LOG=info"@
            &&& uid matches Some(n) ==> t[34] == "--setenv"@ && t[35]
                == "XDG_RUNTIME_DIR=/run/user/"@ + decimal(n as nat)
        }),
{
    let f = unit_flags(info@);
    let e = with_environment(f, info@, token@, uid);
    lemma_agent_command_behind(with_arg(e, "--"@), m@.settings, info@, server_url@, path@);
    assert(f.len() == 28);
    let t = texts(r@);
    assert forall|i: int| 0 <= i < e.len() implies t[i] == #[trigger] e[i] by {}
    assert forall|i: int| 0 <= i < 28 implies e[i] == #[trigger] f[i] by {}
    assert forall|i: int| 3 <= i <= 12 implies #[trigger] t[2 * i] == "--property"@ by {
        assert(t[2 * i] == e[2 * i]);
        assert(e[2 * i] == f[2 * i]);
        assert(i == 3 || i == 4 || i == 5 || i == 6 || i == 7 || i == 8 || i == 9 || i == 10 || i == 11
            || i == 12);
    }
}

/// What may be left of an earlier session on a display is named after its number, and so is the lock
/// by which its server is found; units are stopped, killed and asked for by their names; and records
/// are kept under the names of their sessions.
pub proof fn what_is_left_is_found_by_name(
    n: u32,
    stale: Vec<StalePath>,
    lock: String,
    unit: &str,
    stop: Vec<String>,
    kill: Vec<String>,
    query: Vec<String>,
    id: u128,
    record: String,
    name: String,
)
    requires
        call_ensures(stale_paths, (n,), stale),
        call_ensures(lock_path, (n,), lock),
        call_ensures(stop_unit, (unit,), stop),
        call_ensures(kill_unit, (unit,), kill),
        call_ensures(query_unit, (unit,), query),
        call_ensures(record_file, (id,), record),
        call_ensures(display_name, (n,), name),
    ensures
        ({
            let d = decimal(n as nat);
            &&& stale@.len() == 6
            &&& stale@[0].path@ == "/tmp/beam-xorg-"@ + d + ".conf"@ && !stale@[0].directory
            &&& stale@[1].path@ == "/tmp/beam-pulse-"@ + d + ".pa"@ && !stale@[1].directory
            &&& stale@[2].path@ == "/tmp/beam-pulse-"@ + d && stale@[2].directory
            &&& stale@[3].path@ == lock@ && !stale@[3].directory
            &&& stale@[4].path@ == "/tmp/beam-keyring-"@ + d && stale@[4].directory
            &&& stale@[5].path@ == "/tmp/beam-edid-"@ + d + ".bin"@ && !stale@[5].directory
            &&& lock@ == "/tmp/.X"@ + d + "-lock"@
            &&& name@ == ":"@ + d
        }),
        texts(stop@) == seq!["stop"@, unit@],
        texts(kill@) == seq!["kill"@, "--signal=SIGKILL"@, unit@],
        texts(query@) == seq!["is-active"@, "--quiet"@, unit@],
        record@ == uuid_text(id) + ".json"@,
{
    let v = stale@.map_values(|p: StalePath| stale_view(p));
    assert(v.len() == stale@.len());
    assert forall|i: int| 0 <= i < stale@.len() implies stale_view(#[trigger] stale@[i]) == v[i] by {}
    assert(v[0] == stale_view(stale@[0]));
    assert(v[1] == stale_view(stale@[1]));
    assert(v[2] == stale_view(stale@[2]));
    assert(v[3] == stale_view(stale@[3]));
    assert(v[4] == stale_view(stale@[4]));
    assert(v[5] == stale_view(stale@[5]));
}

/// A start that fails says how: it took too long, it could not be tried, or `systemd-run` complained.
pub proof fn failed_agents_say_why(
    id: u128,
    display: u32,
    reply: &SpawnReply,
    r: Result<String, String>,
    success: bool,
    stderr: &[u8],
    o: Result<String, String>,
)
    requires
        call_ensures(spawn_result, (id, display, reply), r),
        call_ensures(spawn_outcome, (id, success, stderr), o),
    ensures
        *reply is TimedOut ==> (r matches Err(e) && e@ == "systemd-run timed out starting agent (30s)"@),
        *reply is NotRun ==> (r matches Err(e) && e@ == "Failed to run systemd-run for display "@ + (
        ":"@ + decimal(display as nat))),
        *reply matches SpawnReply::Ran { success: false, stderr: s } ==> (r matches Err(e) && e@
            == "systemd-run failed for "@ + ("beam-agent-"@ + uuid_text(id)) + ": "@ + lossy_text(s@)),
        success ==> (o matches Ok(unit) && unit@ == "beam-agent-"@ + uuid_text(id)),
        !success ==> (o matches Err(e) && e@ == "systemd-run failed for "@ + ("beam-agent-"@
            + uuid_text(id)) + ": "@ + lossy_text(stderr@)),
{
}

} // verus!
