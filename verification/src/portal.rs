//! The recording of a compositor: what is said to the desktop portal, and what is read from its
//! answers.
use crate::command::{CommandLine, CommandView};
use crate::text::{
    all_digits, begins, contains, decimal, decimal_reads_back, decimal_u32, digit_runs,
    digits_stand_for_their_worth, digits_up_to, find, first_at, from_utf8_lossy, has_digit_codes,
    holds, is_digit, is_white, leading_digits, leading_digits_of, lossy_text, matches_at, not_digit,
    only, opt_text, opt_view, parse_u32, position, runs, starts_with, text_eq, trim, trim_back,
    trim_end_matches, trim_front, trim_matches, trim_start_matches, trimmed, trimmed_of, unsigned,
    views, white, worth,
};
use vstd::prelude::*;
use vstd::string::*;

verus! {

// ---------------------------------------------------------------------------
// Reading answers
// ---------------------------------------------------------------------------

/// The object path in what `gdbus call` prints, as in `('/path/to/object',)`: what is left without
/// the brackets, the quotes and the comma.
pub open spec fn inner_path(output: Seq<char>) -> Seq<char> {
    let inner = trimmed(trim_back(trim_front(trimmed(output), only('(')), only(')')));
    trim_back(trimmed(trim_back(trimmed_of(inner, '\''), only(','))), only('\''))
}

/// The object path in what `gdbus call` prints, where there is one.
pub open spec fn object_path_of(output: Seq<char>) -> Option<Seq<char>> {
    let path = inner_path(output);
    if begins(path, "/"@) {
        Some(path)
    } else {
        None
    }
}

/// The object path in what `gdbus call` prints.
pub fn parse_object_path(output: &str) -> (r: Result<String, String>)
    ensures
        match r {
            Ok(path) => object_path_of(output@) == Some(path@),
            Err(e) => object_path_of(output@) is None && e@
                == "Unexpected gdbus output (expected object path): "@ + output@,
        },
{
    let inner = trim(trim_end_matches(trim_start_matches(trim(output), '('), ')'));
    let path = trim_end_matches(trim(trim_end_matches(trim_matches(inner, '\''), ',')), '\'');
    if starts_with(path, "/") {
        Ok(path.to_owned())
    } else {
        Err("Unexpected gdbus output (expected object path): ".to_owned().concat(output))
    }
}

/// The value of a key in a line that `gdbus monitor` prints: what stands between the first angle
/// brackets behind the key, without white space and quotes around it.
pub open spec fn dict_value_of(line: Seq<char>, key: Seq<char>) -> Option<Seq<char>> {
    let pattern = "'"@ + key + "':"@;
    match position(line, pattern) {
        Some(k) => {
            let after = line.skip(k + pattern.len());
            match position(after, "<"@) {
                Some(open) => {
                    let value = after.skip(open + 1);
                    match position(value, ">"@) {
                        Some(close) => Some(trimmed_of(trimmed(value.take(close)), '\'')),
                        None => None,
                    }
                },
                None => None,
            }
        },
        None => None,
    }
}

fn skip_chars<'a>(s: &'a str, n: usize) -> (r: &'a str)
    requires
        n <= s@.len(),
    ensures
        r@ == s@.skip(n as int),
{
    let r = s.substring_char(n, s.unicode_len());
    assert(r@ =~= s@.skip(n as int));
    r
}

/// The value of a key in a line that `gdbus monitor` prints.
pub fn extract_gdbus_dict_value(line: &str, key: &str) -> (r: Option<String>)
    ensures
        opt_text(r) == dict_value_of(line@, key@),
{
    let pattern = "'".to_owned().concat(key).concat("':");
    let k: usize = match find(line, pattern.as_str()) {
        Some(k) => k,
        None => {
            return None;
        },
    };
    let width: usize = pattern.as_str().unicode_len();
    let whole: usize = line.unicode_len();
    assert(k + width <= whole);
    let after = skip_chars(line, k + width);
    proof {
        reveal_strlit("<");
        reveal_strlit(">");
    }
    let open: usize = match find(after, "<") {
        Some(i) => i,
        None => {
            return None;
        },
    };
    let rest: usize = after.unicode_len();
    assert(open < rest);
    let value = skip_chars(after, open + 1);
    let close: usize = match find(value, ">") {
        Some(i) => i,
        None => {
            return None;
        },
    };
    let inner = value.substring_char(0, close);
    assert(inner@ =~= value@.take(close as int));
    Some(trim_matches(trim(inner), '\'').to_owned())
}

/// The first of the numbers that is not 0 and fits an `u32`.
pub open spec fn first_id(runs: Seq<Seq<char>>) -> Option<nat>
    decreases runs.len(),
{
    if runs.len() == 0 {
        None
    } else {
        match digits_up_to(runs[0], 0xffff_ffff) {
            Some(n) => if n > 0 {
                Some(n)
            } else {
                first_id(runs.skip(1))
            },
            None => first_id(runs.skip(1)),
        }
    }
}

/// What the list of streams says of the number of the first stream: behind the first `uint32`
/// where digits follow it, and else the first number that can be one.
pub open spec fn node_id_of(streams: Seq<char>) -> Result<nat, Seq<char>> {
    let tagged = match position(streams, "uint32 "@) {
        Some(i) => leading_digits_of(streams.skip(i + 7)),
        None => Seq::empty(),
    };
    if tagged.len() > 0 {
        match unsigned(tagged, 0xffff_ffff) {
            Some(n) => Ok(n),
            None => Err("Parse node_id as u32"@),
        }
    } else {
        match first_id(runs(streams, not_digit())) {
            Some(n) => Ok(n),
            None => Err("No uint32 node ID found in streams: "@ + streams),
        }
    }
}

proof fn lemma_runs_are_digits(s: Seq<char>)
    ensures
        forall|i: int|
            0 <= i < runs(s, not_digit()).len() ==> {
                let r = #[trigger] runs(s, not_digit())[i];
                r.len() > 0 && all_digits(r)
            },
        s.len() > 0 && is_digit(s.last()) ==> runs(s, not_digit()).len() > 0,
    decreases s.len(),
{
    if s.len() > 0 {
        let p = s.drop_last();
        lemma_runs_are_digits(p);
        if is_digit(s.last()) {
            if s.len() > 1 && is_digit(s[s.len() - 2]) {
                assert(p.last() == s[s.len() - 2]);
                let before = runs(p, not_digit());
                assert(all_digits(before.last()));
                assert(all_digits(before.last().push(s.last())));
            }
        }
    }
}

proof fn lemma_unsigned_of_digits(s: Seq<char>, max: nat)
    requires
        all_digits(s),
    ensures
        unsigned(s, max) == digits_up_to(s, max),
{
    if s.len() > 0 {
        assert(is_digit(s[0]));
    }
}

/// The number of the first stream in the list of streams that the portal gives.
pub fn parse_node_id_from_streams(streams: &str) -> (r: Result<u32, String>)
    ensures
        match r {
            Ok(n) => node_id_of(streams@) == Ok::<nat, Seq<char>>(n as nat),
            Err(e) => node_id_of(streams@) == Err::<nat, Seq<char>>(e@),
        },
{
    proof {
        reveal_strlit("uint32 ");
    }
    match find(streams, "uint32 ") {
        Some(i) => {
            let all: usize = streams.unicode_len();
            assert(i + 7 <= all);
            let digits = leading_digits(skip_chars(streams, i + 7));
            if !digits.is_empty() {
                return match parse_u32(digits) {
                    Some(n) => Ok(n),
                    None => Err("Parse node_id as u32".to_owned()),
                };
            }
        },
        None => {},
    }
    let numbers = digit_runs(streams);
    let ghost seen = views(numbers@);
    assert(seen.skip(0) =~= seen);
    proof {
        lemma_runs_are_digits(streams@);
    }
    for i in 0..numbers.len()
        invariant
            seen == views(numbers@),
            forall|k: int| 0 <= k < seen.len() ==> all_digits(#[trigger] seen[k]),
            first_id(seen.skip(i as int)) == first_id(seen),
            first_id(seen) == first_id(runs(streams@, not_digit())),
            node_id_of(streams@) == match first_id(runs(streams@, not_digit())) {
                Some(n) => Ok::<nat, Seq<char>>(n),
                None => Err("No uint32 node ID found in streams: "@ + streams@),
            },
    {
        assert(seen[i as int] == numbers@[i as int]@);
        assert(seen.skip(i as int)[0] == numbers@[i as int]@);
        assert(seen.skip(i as int).skip(1) =~= seen.skip(i + 1));
        proof {
            lemma_unsigned_of_digits(seen[i as int], 0xffff_ffff);
        }
        match parse_u32(numbers[i]) {
            Some(n) => {
                if n > 0 {
                    return Ok(n);
                }
            },
            None => {},
        }
    }
    assert(seen.skip(numbers@.len() as int).len() == 0);
    Err("No uint32 node ID found in streams: ".to_owned().concat(streams))
}

// ---------------------------------------------------------------------------
// Responses
// ---------------------------------------------------------------------------

/// What a line of the monitor says of a response that is awaited.
pub enum LineOutcome {
    /// Nothing: go on reading.
    Ignore,
    /// The response has come, with this value.
    Value(String),
    /// The response is a refusal, or has not come in time.
    Refused(String),
}

/// Whether an outcome is what a line says. A line that comes late is not looked at. A response with
/// another code than 0 is a refusal. The value is that of the key, empty where the key is missing,
/// and `ok` where no key is asked for.
pub open spec fn line_says(
    r: LineOutcome,
    line: Seq<char>,
    key: Seq<char>,
    request_path: Seq<char>,
    late: bool,
) -> bool {
    if late {
        r matches LineOutcome::Refused(e) && e@ == "Timeout waiting for portal Response on "@
            + request_path
    } else if !holds(line, "Response"@) {
        r is Ignore
    } else if !holds(line, "uint32 0"@) {
        r matches LineOutcome::Refused(e) && e@ == "Portal Response indicates failure: "@ + line
    } else {
        r matches LineOutcome::Value(v) && v@ == if key.len() == 0 {
            "ok"@
        } else {
            match dict_value_of(line, key) {
                Some(value) => value,
                None => Seq::empty(),
            }
        }
    }
}

/// What a line of the monitor says of the response that is awaited to a request. `late` says
/// whether the ten seconds for it were over when the line came.
pub fn read_line(line: &str, key: &str, request_path: &str, late: bool) -> (r: LineOutcome)
    ensures
        line_says(r, line@, key@, request_path@, late),
{
    if late {
        return LineOutcome::Refused(
            "Timeout waiting for portal Response on ".to_owned().concat(request_path),
        );
    }
    if !contains(line, "Response") {
        return LineOutcome::Ignore;
    }
    if !contains(line, "uint32 0") {
        return LineOutcome::Refused(
            "Portal Response indicates failure: ".to_owned().concat(line),
        );
    }
    if key.is_empty() {
        LineOutcome::Value("ok".to_owned())
    } else {
        match extract_gdbus_dict_value(line, key) {
            Some(value) => LineOutcome::Value(value),
            None => LineOutcome::Value(String::new()),
        }
    }
}

/// What the monitor's output comes to, once it has been read: `value` is that of the response, and
/// empty where none came.
pub fn response_value(value: String, key: &str, request_path: &str) -> (r: Result<String, String>)
    ensures
        match r {
            Ok(v) => value@.len() > 0 && v@ == value@,
            Err(e) => value@.len() == 0 && e@ == if key@.len() == 0 {
                "Portal Response not received on "@ + request_path@
                    + " (compositor not responding?)"@
            } else {
                "Portal Response key '"@ + key@ + "' not found or empty on "@ + request_path@
            },
        },
{
    if !value.as_str().is_empty() {
        Ok(value)
    } else if key.is_empty() {
        Err(
            "Portal Response not received on ".to_owned().concat(request_path).concat(
                " (compositor not responding?)",
            ),
        )
    } else {
        Err(
            "Portal Response key '".to_owned().concat(key).concat(
                "' not found or empty on ",
            ).concat(request_path),
        )
    }
}

/// What the code of a response means.
pub fn response_code(code: u32) -> (r: Result<(), String>)
    ensures
        match r {
            Ok(()) => code == 0,
            Err(e) => code != 0 && e@ == if code == 1 {
                "Portal request cancelled (xdg-desktop-portal-wlr auto-approve not configured?)"@
            } else {
                "Portal request failed with response code "@ + decimal(code as nat)
            },
        },
{
    if code == 0 {
        Ok(())
    } else if code == 1 {
        Err(
            "Portal request cancelled (xdg-desktop-portal-wlr auto-approve not configured?)".to_owned(),
        )
    } else {
        Err(
            "Portal request failed with response code ".to_owned().concat(
                decimal_u32(code).as_str(),
            ),
        )
    }
}

/// The first of the streams that has a number.
pub open spec fn first_stream(streams: Seq<Option<u32>>) -> Option<u32>
    decreases streams.len(),
{
    if streams.len() == 0 {
        None
    } else if streams[0] is Some {
        streams[0]
    } else {
        first_stream(streams.skip(1))
    }
}

/// The number of the first stream in a response that has a list of streams. Each entry is the
/// number that the stream begins with, where it begins with one.
pub fn extract_node_id(streams: Option<&Vec<Option<u32>>>) -> (r: Result<u32, String>)
    ensures
        match r {
            Ok(n) => streams matches Some(v) && first_stream(v@) == Some(n),
            Err(e) => match streams {
                Some(v) => first_stream(v@) is None && e@
                    == "Could not parse PipeWire node ID from Start response 'streams'"@,
                None => e@ == "Start response missing 'streams' key"@,
            },
        },
{
    match streams {
        Some(v) => {
            assert(v@.skip(0) =~= v@);
            for i in 0..v.len()
                invariant
                    first_stream(v@.skip(i as int)) == first_stream(v@),
                    streams == Some(v),
            {
                assert(v@.skip(i as int).skip(1) =~= v@.skip(i + 1));
                match v[i] {
                    Some(n) => {
                        return Ok(n);
                    },
                    None => {},
                }
            }
            assert(v@.skip(v@.len() as int).len() == 0);
            Err("Could not parse PipeWire node ID from Start response 'streams'".to_owned())
        },
        None => Err("Start response missing 'streams' key".to_owned()),
    }
}

// ---------------------------------------------------------------------------
// The conversation
// ---------------------------------------------------------------------------

/// Where a session is found: its compositor's socket and its runtime directory.
pub struct SessionPlace {
    pub wayland_display: String,
    pub xdg_runtime_dir: String,
}

/// The address of the bus in a runtime directory.
pub open spec fn bus_in_dir(xdg: Seq<char>) -> Seq<char> {
    "unix:path="@ + xdg + "/bus"@
}

/// A call on the bus of a session, through a shell.
pub open spec fn call_command_of(place: SessionPlace, args: Seq<char>) -> CommandView {
    CommandView {
        program: "sh"@,
        args: seq!["-c"@, "gdbus call --session "@ + args],
        env: seq![
            ("WAYLAND_DISPLAY"@, place.wayland_display@),
            ("XDG_RUNTIME_DIR"@, place.xdg_runtime_dir@),
            ("DBUS_SESSION_BUS_ADDRESS"@, bus_in_dir(place.xdg_runtime_dir@)),
        ],
        removed_env: seq![],
    }
}

fn call_command(place: &SessionPlace, args: &str) -> (r: CommandLine)
    ensures
        r@ == call_command_of(*place, args@),
{
    let script = "gdbus call --session ".to_owned().concat(args);
    let bus = "unix:path=".to_owned().concat(place.xdg_runtime_dir.as_str()).concat("/bus");
    CommandLine::new("sh").arg("-c").arg(script.as_str()).env(
        "WAYLAND_DISPLAY",
        place.wayland_display.as_str(),
    ).env("XDG_RUNTIME_DIR", place.xdg_runtime_dir.as_str()).env(
        "DBUS_SESSION_BUS_ADDRESS",
        bus.as_str(),
    )
}

/// What a call comes to: what it printed, without white space around, or how it failed.
pub fn call_outcome(success: bool, status: &str, stdout: &[u8], stderr: &[u8]) -> (r: Result<
    String,
    String,
>)
    ensures
        match r {
            Ok(text) => success && text@ == trimmed(lossy_text(stdout@)),
            Err(e) => !success && e@ == "gdbus call failed ("@ + status@ + "): "@ + lossy_text(
                stderr@,
            ),
        },
{
    if success {
        let text = from_utf8_lossy(stdout);
        Ok(trim(text.as_str()).to_owned())
    } else {
        Err(
            "gdbus call failed (".to_owned().concat(status).concat("): ").concat(
                from_utf8_lossy(stderr).as_str(),
            ),
        )
    }
}

/// The command that prints what an object of the portal says.
pub open spec fn monitor_command_of(place: SessionPlace, request_path: Seq<char>) -> CommandView {
    CommandView {
        program: "gdbus"@,
        args: seq![
            "monitor"@,
            "--session"@,
            "--dest=org.freedesktop.portal.Desktop"@,
            "--object-path="@ + request_path,
        ],
        env: seq![
            ("WAYLAND_DISPLAY"@, place.wayland_display@),
            ("XDG_RUNTIME_DIR"@, place.xdg_runtime_dir@),
            ("DBUS_SESSION_BUS_ADDRESS"@, bus_in_dir(place.xdg_runtime_dir@)),
        ],
        removed_env: seq![],
    }
}

fn monitor_command(place: &SessionPlace, request_path: &str) -> (r: CommandLine)
    ensures
        r@ == monitor_command_of(*place, request_path@),
{
    let object = "--object-path=".to_owned().concat(request_path);
    let bus = "unix:path=".to_owned().concat(place.xdg_runtime_dir.as_str()).concat("/bus");
    CommandLine::new("gdbus").arg("monitor").arg("--session").arg(
        "--dest=org.freedesktop.portal.Desktop",
    ).arg(object.as_str()).env("WAYLAND_DISPLAY", place.wayland_display.as_str()).env(
        "XDG_RUNTIME_DIR",
        place.xdg_runtime_dir.as_str(),
    ).env("DBUS_SESSION_BUS_ADDRESS", bus.as_str())
}

/// How far the opening of a recording is.
#[derive(Clone, Copy, PartialEq, Eq, Structural)]
pub enum PortalPhase {
    /// A session of the portal is to be asked for.
    Create,
    /// The session is to come.
    AwaitCreate,
    /// The screen is to be chosen.
    Select,
    /// The choice is to be accepted.
    AwaitSelect,
    /// The recording is to be asked for.
    Start,
    /// The recording is to come.
    AwaitStart,
    Open,
    Failed,
}

/// The opening of a recording.
pub struct PortalOpening {
    place: SessionPlace,
    /// The number of the process, which keeps the names of requests apart.
    pid: u32,
    phase: PortalPhase,
    request_path: String,
    session_path: String,
    node_id: u32,
}

/// The opening in mathematical terms.
pub struct OpeningView {
    pub place: SessionPlace,
    pub pid: u32,
    pub phase: PortalPhase,
    /// The object that the answer to the last request comes from.
    pub request_path: Seq<char>,
    /// The session of the portal.
    pub session_path: Seq<char>,
    /// The number of the stream.
    pub node_id: u32,
}

impl View for PortalOpening {
    type V = OpeningView;

    closed spec fn view(&self) -> OpeningView {
        OpeningView {
            place: self.place,
            pid: self.pid,
            phase: self.phase,
            request_path: self.request_path@,
            session_path: self.session_path@,
            node_id: self.node_id,
        }
    }
}

/// What is to be said or awaited next.
pub enum PortalAction {
    /// Run the command, and hand its outcome back.
    Call(CommandLine),
    /// Read what the command prints, until the response comes, and hand its value back.
    Await(CommandLine, &'static str),
    Nothing,
}

/// How a method of the portal is named to `gdbus`.
pub open spec fn portal_method(name: Seq<char>) -> Seq<char> {
    "--dest=org.freedesktop.portal.Desktop --object-path=/org/freedesktop/portal/desktop --method=org.freedesktop.portal.ScreenCast."@
        + name + " "@
}

/// The request for a session.
pub open spec fn create_args(pid: u32) -> Seq<char> {
    let n = decimal(pid as nat);
    portal_method("CreateSession"@) + "\"{\\\"session_handle_token\\\": <\\\"beam_sess_"@ + n
        + "\\\">, \\\"handle_token\\\": <\\\"beam_cr_"@ + n + "\\\">}\""@
}

/// The choice of one screen, without its cursor.
pub open spec fn select_args(pid: u32, session: Seq<char>) -> Seq<char> {
    portal_method("SelectSources"@) + "\""@ + session
        + "\" \"{\\\"handle_token\\\": <\\\"beam_sel_"@ + decimal(pid as nat)
        + "\\\">, \\\"types\\\": <uint32 1>, \\\"multiple\\\": <false>, \\\"cursor_mode\\\": <uint32 1>}\""@
}

/// The request for the recording.
pub open spec fn start_args(pid: u32, session: Seq<char>) -> Seq<char> {
    portal_method("Start"@) + "\""@ + session
        + "\" \"\" \"{\\\"handle_token\\\": <\\\"beam_start_"@ + decimal(pid as nat) + "\\\">}\""@
}

fn method(name: &str) -> (r: String)
    ensures
        r@ == portal_method(name@),
{
    "--dest=org.freedesktop.portal.Desktop --object-path=/org/freedesktop/portal/desktop --method=org.freedesktop.portal.ScreenCast.".to_owned().concat(
        name,
    ).concat(" ")
}

/// Whether an action is what a phase asks for.
pub open spec fn is_portal_action(a: PortalAction, s: OpeningView) -> bool {
    match s.phase {
        PortalPhase::Create => a matches PortalAction::Call(cmd) && cmd@ == call_command_of(
            s.place,
            create_args(s.pid),
        ),
        PortalPhase::Select => a matches PortalAction::Call(cmd) && cmd@ == call_command_of(
            s.place,
            select_args(s.pid, s.session_path),
        ),
        PortalPhase::Start => a matches PortalAction::Call(cmd) && cmd@ == call_command_of(
            s.place,
            start_args(s.pid, s.session_path),
        ),
        PortalPhase::AwaitCreate => a matches PortalAction::Await(cmd, key) && key@
            == "session_handle"@ && cmd@ == monitor_command_of(s.place, s.request_path),
        PortalPhase::AwaitSelect => a matches PortalAction::Await(cmd, key) && key@ == ""@ && cmd@
            == monitor_command_of(s.place, s.request_path),
        PortalPhase::AwaitStart => a matches PortalAction::Await(cmd, key) && key@ == "streams"@
            && cmd@ == monitor_command_of(s.place, s.request_path),
        PortalPhase::Open => a is Nothing,
        PortalPhase::Failed => a is Nothing,
    }
}

/// The opening with another phase.
pub open spec fn opening_in(s: OpeningView, phase: PortalPhase) -> OpeningView {
    OpeningView { phase, ..s }
}

/// The step that takes the answer to a request in: its object path is awaited next.
pub open spec fn requested(
    s: OpeningView,
    reply: Option<Seq<char>>,
    next: PortalPhase,
    call_error: Seq<char>,
    path_error: Seq<char>,
) -> (OpeningView, Option<Seq<char>>) {
    match reply {
        Some(output) => match object_path_of(output) {
            Some(path) => (OpeningView { request_path: path, phase: next, ..s }, None),
            None => (opening_in(s, PortalPhase::Failed), Some(path_error)),
        },
        None => (opening_in(s, PortalPhase::Failed), Some(call_error)),
    }
}

/// The step from one phase to the next, given the reply to the last action, where it did not fail;
/// and the error, where the opening fails.
pub open spec fn opened(s: OpeningView, reply: Option<Seq<char>>) -> (OpeningView, Option<Seq<char>>) {
    match s.phase {
        PortalPhase::Create => requested(
            s,
            reply,
            PortalPhase::AwaitCreate,
            "CreateSession gdbus call failed"@,
            "Failed to parse CreateSession request path"@,
        ),
        PortalPhase::AwaitCreate => match reply {
            Some(session) => (
                OpeningView { session_path: session, phase: PortalPhase::Select, ..s },
                None,
            ),
            None => (
                opening_in(s, PortalPhase::Failed),
                Some("CreateSession Response not received"@),
            ),
        },
        PortalPhase::Select => requested(
            s,
            reply,
            PortalPhase::AwaitSelect,
            "SelectSources gdbus call failed"@,
            "Failed to parse SelectSources request path"@,
        ),
        PortalPhase::AwaitSelect => match reply {
            Some(_) => (opening_in(s, PortalPhase::Start), None),
            None => (
                opening_in(s, PortalPhase::Failed),
                Some("SelectSources Response not received"@),
            ),
        },
        PortalPhase::Start => requested(
            s,
            reply,
            PortalPhase::AwaitStart,
            "Start gdbus call failed"@,
            "Failed to parse Start request path"@,
        ),
        PortalPhase::AwaitStart => match reply {
            Some(streams) => match node_id_of(streams) {
                Ok(n) => (
                    OpeningView { node_id: n as u32, phase: PortalPhase::Open, ..s },
                    None,
                ),
                Err(_) => (
                    opening_in(s, PortalPhase::Failed),
                    Some("Failed to parse PipeWire node ID from streams"@),
                ),
            },
            None => (opening_in(s, PortalPhase::Failed), Some("Start Response not received"@)),
        },
        PortalPhase::Open => (s, None),
        PortalPhase::Failed => (s, None),
    }
}

/// Whether a result is a step's outcome.
pub open spec fn reports_error(r: Result<(), String>, error: Option<Seq<char>>) -> bool {
    match r {
        Ok(()) => error is None,
        Err(e) => error == Some(e@),
    }
}

impl PortalOpening {
    /// An opening that has not begun, by the process of the given number.
    pub fn new(place: SessionPlace, pid: u32) -> (r: Self)
        ensures
            r@ == (OpeningView {
                place,
                pid,
                phase: PortalPhase::Create,
                request_path: Seq::empty(),
                session_path: Seq::empty(),
                node_id: 0,
            }),
    {
        PortalOpening {
            place,
            pid,
            phase: PortalPhase::Create,
            request_path: String::new(),
            session_path: String::new(),
            node_id: 0,
        }
    }

    /// The number of the stream, once the recording is open.
    pub fn node_id(&self) -> (r: Option<u32>)
        ensures
            r == if self@.phase == PortalPhase::Open {
                Some(self@.node_id)
            } else {
                None
            },
    {
        match self.phase {
            PortalPhase::Open => Some(self.node_id),
            _ => None,
        }
    }

    /// What is to be said or awaited next.
    pub fn action(&self) -> (r: PortalAction)
        ensures
            is_portal_action(r, self@),
    {
        let n = decimal_u32(self.pid);
        match self.phase {
            PortalPhase::Create => {
                let args = method("CreateSession").concat(
                    "\"{\\\"session_handle_token\\\": <\\\"beam_sess_",
                ).concat(n.as_str()).concat(
                    "\\\">, \\\"handle_token\\\": <\\\"beam_cr_",
                ).concat(n.as_str()).concat("\\\">}\"");
                PortalAction::Call(call_command(&self.place, args.as_str()))
            },
            PortalPhase::Select => {
                let args = method("SelectSources").concat("\"").concat(
                    self.session_path.as_str(),
                ).concat("\" \"{\\\"handle_token\\\": <\\\"beam_sel_").concat(n.as_str()).concat(
                    "\\\">, \\\"types\\\": <uint32 1>, \\\"multiple\\\": <false>, \\\"cursor_mode\\\": <uint32 1>}\"",
                );
                PortalAction::Call(call_command(&self.place, args.as_str()))
            },
            PortalPhase::Start => {
                let args = method("Start").concat("\"").concat(self.session_path.as_str()).concat(
                    "\" \"\" \"{\\\"handle_token\\\": <\\\"beam_start_",
                ).concat(n.as_str()).concat("\\\">}\"");
                PortalAction::Call(call_command(&self.place, args.as_str()))
            },
            PortalPhase::AwaitCreate => PortalAction::Await(
                monitor_command(&self.place, self.request_path.as_str()),
                "session_handle",
            ),
            PortalPhase::AwaitSelect => PortalAction::Await(
                monitor_command(&self.place, self.request_path.as_str()),
                "",
            ),
            PortalPhase::AwaitStart => PortalAction::Await(
                monitor_command(&self.place, self.request_path.as_str()),
                "streams",
            ),
            PortalPhase::Open => PortalAction::Nothing,
            PortalPhase::Failed => PortalAction::Nothing,
        }
    }

    fn take_request(
        &mut self,
        reply: Option<&str>,
        next: PortalPhase,
        call_error: &str,
        path_error: &str,
    ) -> (r: Result<(), String>)
        ensures
            ({
                let (s, error) = requested(
                    old(self)@,
                    opt_view(reply),
                    next,
                    call_error@,
                    path_error@,
                );
                final(self)@ == s && reports_error(r, error)
            }),
    {
        match reply {
            Some(output) => match parse_object_path(output) {
                Ok(path) => {
                    self.request_path = path;
                    self.phase = next;
                    Ok(())
                },
                Err(_) => {
                    self.phase = PortalPhase::Failed;
                    Err(path_error.to_owned())
                },
            },
            None => {
                self.phase = PortalPhase::Failed;
                Err(call_error.to_owned())
            },
        }
    }

    /// Takes in the reply to the last action: what the call printed, or the value of the response;
    /// none where it failed.
    pub fn advance(&mut self, reply: Option<&str>) -> (r: Result<(), String>)
        ensures
            ({
                let (s, error) = opened(old(self)@, opt_view(reply));
                final(self)@ == s && reports_error(r, error)
            }),
    {
        match self.phase {
            PortalPhase::Create => self.take_request(
                reply,
                PortalPhase::AwaitCreate,
                "CreateSession gdbus call failed",
                "Failed to parse CreateSession request path",
            ),
            PortalPhase::AwaitCreate => match reply {
                Some(session) => {
                    self.session_path = session.to_owned();
                    self.phase = PortalPhase::Select;
                    Ok(())
                },
                None => {
                    self.phase = PortalPhase::Failed;
                    Err("CreateSession Response not received".to_owned())
                },
            },
            PortalPhase::Select => self.take_request(
                reply,
                PortalPhase::AwaitSelect,
                "SelectSources gdbus call failed",
                "Failed to parse SelectSources request path",
            ),
            PortalPhase::AwaitSelect => match reply {
                Some(_) => {
                    self.phase = PortalPhase::Start;
                    Ok(())
                },
                None => {
                    self.phase = PortalPhase::Failed;
                    Err("SelectSources Response not received".to_owned())
                },
            },
            PortalPhase::Start => self.take_request(
                reply,
                PortalPhase::AwaitStart,
                "Start gdbus call failed",
                "Failed to parse Start request path",
            ),
            PortalPhase::AwaitStart => match reply {
                Some(streams) => match parse_node_id_from_streams(streams) {
                    Ok(n) => {
                        self.node_id = n;
                        self.phase = PortalPhase::Open;
                        Ok(())
                    },
                    Err(_) => {
                        self.phase = PortalPhase::Failed;
                        Err("Failed to parse PipeWire node ID from streams".to_owned())
                    },
                },
                None => {
                    self.phase = PortalPhase::Failed;
                    Err("Start Response not received".to_owned())
                },
            },
            PortalPhase::Open | PortalPhase::Failed => Ok(()),
        }
    }

    /// The command that ends the recording.
    pub fn close_command(&self) -> (r: CommandLine)
        ensures
            r@ == (CommandView {
                program: "sh"@,
                args: seq![
                    "-c"@,
                    "gdbus call --session --dest=org.freedesktop.portal.Desktop --object-path="@
                        + self@.session_path + " --method=org.freedesktop.portal.Session.Close"@,
                ],
                env: seq![
                    ("XDG_RUNTIME_DIR"@, self@.place.xdg_runtime_dir@),
                    ("WAYLAND_DISPLAY"@, self@.place.wayland_display@),
                    ("DBUS_SESSION_BUS_ADDRESS"@, bus_in_dir(self@.place.xdg_runtime_dir@)),
                ],
                removed_env: seq![],
            }),
    {
        let script = "gdbus call --session --dest=org.freedesktop.portal.Desktop --object-path=".to_owned().concat(
            self.session_path.as_str(),
        ).concat(" --method=org.freedesktop.portal.Session.Close");
        let bus = "unix:path=".to_owned().concat(self.place.xdg_runtime_dir.as_str()).concat(
            "/bus",
        );
        CommandLine::new("sh").arg("-c").arg(script.as_str()).env(
            "XDG_RUNTIME_DIR",
            self.place.xdg_runtime_dir.as_str(),
        ).env("WAYLAND_DISPLAY", self.place.wayland_display.as_str()).env(
            "DBUS_SESSION_BUS_ADDRESS",
            bus.as_str(),
        )
    }
}

// ---------------------------------------------------------------------------
// Latency
// ---------------------------------------------------------------------------

/// How far apart the frames of a recording are in time.
pub struct LatencyMeter {
    last_pts_ns: u64,
    sample_count: u64,
    enabled: bool,
}

/// A meter in mathematical terms.
pub struct MeterView {
    /// The time stamp of the last frame; 0 before the first.
    pub last_pts_ns: u64,
    /// How many distances were measured.
    pub sample_count: u64,
    pub enabled: bool,
}

impl View for LatencyMeter {
    type V = MeterView;

    closed spec fn view(&self) -> MeterView {
        MeterView {
            last_pts_ns: self.last_pts_ns,
            sample_count: self.sample_count,
            enabled: self.enabled,
        }
    }
}

/// A distance that was measured.
#[derive(Clone, Copy, PartialEq, Eq, Structural)]
pub struct LatencySample {
    /// Which one it is, counted from 0.
    pub frame: u64,
    /// The distance in microseconds; 0 where time went backwards.
    pub delta_us: u64,
    /// Whether to log it: the first 20, and every sixtieth.
    pub log: bool,
    /// Whether to log that frames still come: every sixtieth but the first.
    pub heartbeat: bool,
}

/// The distance that a frame is measured to have, where it is not the first.
pub open spec fn sample_of(m: MeterView, pts_ns: u64) -> Option<LatencySample> {
    if m.enabled && m.last_pts_ns != 0 {
        Some(
            LatencySample {
                frame: m.sample_count,
                delta_us: if pts_ns > m.last_pts_ns {
                    ((pts_ns - m.last_pts_ns) / 1000) as u64
                } else {
                    0
                },
                log: m.sample_count < 20 || m.sample_count % 60 == 0,
                heartbeat: m.sample_count % 60 == 0 && m.sample_count > 0,
            },
        )
    } else {
        None
    }
}

impl LatencyMeter {
    /// A meter, which measures where `setting` is `1`.
    pub fn new(setting: Option<&str>) -> (r: Self)
        ensures
            r@ == (MeterView {
                last_pts_ns: 0,
                sample_count: 0,
                enabled: opt_view(setting) == Some("1"@),
            }),
    {
        LatencyMeter {
            last_pts_ns: 0,
            sample_count: 0,
            enabled: match setting {
                Some(v) => text_eq(v, "1"),
                None => false,
            },
        }
    }

    /// Takes in the time stamp of a frame: its distance from the one before.
    pub fn record(&mut self, pts_ns: u64) -> (r: Option<LatencySample>)
        ensures
            r == sample_of(old(self)@, pts_ns),
            final(self)@ == if old(self)@.enabled {
                MeterView {
                    last_pts_ns: pts_ns,
                    sample_count: if r is None {
                        old(self)@.sample_count
                    } else if old(self)@.sample_count == u64::MAX {
                        0
                    } else {
                        (old(self)@.sample_count + 1) as u64
                    },
                    ..old(self)@
                }
            } else {
                old(self)@
            },
    {
        if !self.enabled {
            return None;
        }
        let prev: u64 = self.last_pts_ns;
        self.last_pts_ns = pts_ns;
        if prev == 0 {
            return None;
        }
        let delta_us: u64 = if pts_ns > prev {
            (pts_ns - prev) / 1000
        } else {
            0
        };
        let frame: u64 = self.sample_count;
        self.sample_count = frame.wrapping_add(1);
        Some(
            LatencySample {
                frame,
                delta_us,
                log: frame < 20 || frame % 60 == 0,
                heartbeat: frame % 60 == 0 && frame > 0,
            },
        )
    }
}

// ---------------------------------------------------------------------------
// Laws
// ---------------------------------------------------------------------------

/// Whether a text can stand between the quotes of what `gdbus` prints: it begins and ends with
/// neither white space nor one of the characters that `gdbus` puts around it.
pub open spec fn is_plain(path: Seq<char>) -> bool {
    &&& path.len() > 0
    &&& path[0] == '/'
    &&& !is_white(path.last()) && path.last() != '\'' && path.last() != ','
}

proof fn lemma_front_once(c: char, s: Seq<char>, p: spec_fn(char) -> bool)
    requires
        p(c),
        s.len() > 0,
        !p(s[0]),
    ensures
        trim_front(seq![c] + s, p) == s,
{
    let t = seq![c] + s;
    assert(t.skip(1) =~= s);
    assert(trim_front(s, p) == s);
}

proof fn lemma_back_once(s: Seq<char>, c: char, p: spec_fn(char) -> bool)
    requires
        p(c),
        s.len() > 0,
        !p(s.last()),
    ensures
        trim_back(s + seq![c], p) == s,
{
    let t = s + seq![c];
    assert(t.drop_last() =~= s);
    assert(trim_back(s, p) == s);
}

/// What `gdbus` prints for an object path, `('/path/to/object',)`, is read as that path.
pub proof fn printed_paths_are_read(path: Seq<char>)
    requires
        is_plain(path),
    ensures
        object_path_of("('"@ + path + "',)"@) == Some(path),
{
    reveal_strlit("('");
    reveal_strlit("',)");
    reveal_strlit("/");
    let output = "('"@ + path + "',)"@;
    let quoted = seq!['\''] + path + seq!['\''];
    let listed = quoted + seq![','];
    assert(output =~= seq!['('] + (listed + seq![')']));
    assert(output[0] == '(' && output.last() == ')');
    assert(trimmed(output) == output);
    assert((listed + seq![')'])[0] == '\'');
    lemma_front_once('(', listed + seq![')'], only('('));
    lemma_back_once(listed, ')', only(')'));
    assert(listed[0] == '\'' && listed.last() == ',');
    assert(trimmed(listed) == listed);
    // The quote in front goes, and the comma keeps the one behind.
    let tail = path + seq!['\''] + seq![','];
    assert(listed =~= seq!['\''] + tail);
    assert(tail[0] == '/');
    lemma_front_once('\'', tail, only('\''));
    assert(tail.last() == ',');
    assert(trim_back(tail, only('\'')) == tail);
    lemma_back_once(path + seq!['\''], ',', only(','));
    let closed = path + seq!['\''];
    assert(closed[0] == '/' && closed.last() == '\'');
    assert(trimmed(closed) == closed);
    lemma_back_once(path, '\'', only('\''));
    assert(inner_path(output) == path);
    assert(path.subrange(0, 1) =~= "/"@);
}

/// An opening fails for good, and an open one stays open.
pub proof fn openings_end(s: OpeningView, reply: Option<Seq<char>>)
    ensures
        s.phase == PortalPhase::Open || s.phase == PortalPhase::Failed ==> opened(s, reply) == (
            s,
            None::<Seq<char>>,
        ),
        opened(s, reply).1 is Some ==> opened(s, reply).0.phase == PortalPhase::Failed,
        reply is None && s.phase != PortalPhase::Open && s.phase != PortalPhase::Failed ==> opened(
            s,
            reply,
        ).1 is Some,
{
}

/// The session that the portal gave is the one that all later requests are about.
pub proof fn sessions_stay(s: OpeningView, reply: Option<Seq<char>>)
    requires
        s.phase != PortalPhase::AwaitCreate,
    ensures
        opened(s, reply).0.session_path == s.session_path,
        opened(s, reply).0.place == s.place,
        opened(s, reply).0.pid == s.pid,
{
}

proof fn lemma_leading_digits_stop(d: Seq<char>, b: Seq<char>)
    requires
        all_digits(d),
        b.len() == 0 || !is_digit(b[0]),
    ensures
        leading_digits_of(d + b) == d,
    decreases d.len(),
{
    if d.len() > 0 {
        let s = d + b;
        assert(s[0] == d[0] && is_digit(d[0]));
        let e = d.skip(1);
        assert forall|i: int| 0 <= i < e.len() implies is_digit(#[trigger] e[i]) by {
            assert(is_digit(d[i + 1]));
        }
        lemma_leading_digits_stop(e, b);
        assert(s.skip(1) =~= e + b);
        assert(seq![d[0]] + e =~= d);
    } else {
        assert(d + b =~= b);
    }
}

/// The number behind the first `uint32` in the list of streams is the number of the stream.
pub proof fn stream_numbers_are_read(
    streams: &str,
    a: Seq<char>,
    n: u32,
    b: Seq<char>,
    r: Result<u32, String>,
)
    requires
        call_ensures(parse_node_id_from_streams, (streams,), r),
        streams@ == a + "uint32 "@ + decimal(n as nat) + b,
        forall|k: int| 0 <= k < a.len() ==> !#[trigger] matches_at(streams@, "uint32 "@, k),
        b.len() == 0 || !('0' <= b[0] <= '9'),
    ensures
        r == Ok::<u32, String>(n),
{
    reveal_strlit("uint32 ");
    let s = streams@;
    let d = decimal(n as nat);
    assert(s.subrange(a.len() as int, a.len() as int + 7) =~= "uint32 "@);
    assert(first_at(s, "uint32 "@, a.len() as int));
    lemma_position_is(s, "uint32 "@, a.len() as int);
    assert(s.skip(a.len() as int + 7) =~= d + b);
    decimal_reads_back(n as nat);
    lemma_leading_digits_stop(d, b);
    assert(node_id_of(s) == Ok::<nat, Seq<char>>(n as nat));
}

proof fn lemma_position_is(s: Seq<char>, p: Seq<char>, i: int)
    requires
        first_at(s, p, i),
    ensures
        position(s, p) == Some(i),
{
    let j = choose|j: int| first_at(s, p, j);
    assert(first_at(s, p, j));
    if j < i {
        assert(matches_at(s, p, j));
    } else if i < j {
        assert(matches_at(s, p, i));
    }
}

/// The value of a key is what stands in the angle brackets behind it, without the quotes around it.
pub proof fn values_are_read_from_their_brackets(
    line: &str,
    key: &str,
    a: Seq<char>,
    gap: Seq<char>,
    value: Seq<char>,
    b: Seq<char>,
    quoted: bool,
    r: Option<String>,
)
    requires
        call_ensures(extract_gdbus_dict_value, (line, key), r),
        line@ == a + ("'"@ + key@ + "':"@) + gap + "<"@ + (if quoted {
            seq!['\''] + value + seq!['\'']
        } else {
            value
        }) + ">"@ + b,
        forall|k: int|
            0 <= k < a.len() ==> !#[trigger] matches_at(line@, "'"@ + key@ + "':"@, k),
        !gap.contains('<'),
        !value.contains('>'),
        value.len() > 0,
        !is_white(value[0]) && value[0] != '\'',
        !is_white(value.last()) && value.last() != '\'',
    ensures
        r matches Some(v) && v@ == value,
{
    reveal_strlit("'");
    reveal_strlit("':");
    reveal_strlit("<");
    reveal_strlit(">");
    let s = line@;
    let pattern = "'"@ + key@ + "':"@;
    let inner = if quoted {
        seq!['\''] + value + seq!['\'']
    } else {
        value
    };
    let n = a.len() as int;
    let w = pattern.len() as int;
    assert(w == key@.len() + 3);
    assert(s.subrange(n, n + w) =~= pattern);
    lemma_position_is(s, pattern, n);
    let after = s.skip(n + w);
    assert(after =~= gap + "<"@ + inner + ">"@ + b);
    let g = gap.len() as int;
    assert(after.subrange(g, g + 1) =~= "<"@);
    assert forall|k: int| 0 <= k < g implies !matches_at(after, "<"@, k) by {
        if matches_at(after, "<"@, k) {
            assert(after.subrange(k, k + 1)[0] == '<');
            assert(after[k] == gap[k]);
            assert(gap.contains(gap[k]));
        }
    }
    lemma_position_is(after, "<"@, g);
    let rest = after.skip(g + 1);
    assert(rest =~= inner + ">"@ + b);
    let v = inner.len() as int;
    assert(rest.subrange(v, v + 1) =~= ">"@);
    assert forall|k: int| 0 <= k < v implies !matches_at(rest, ">"@, k) by {
        if matches_at(rest, ">"@, k) {
            assert(rest.subrange(k, k + 1)[0] == '>');
            assert(rest[k] == inner[k]);
            if quoted {
                if k == 0 || k == v - 1 {
                    assert(inner[k] == '\'');
                } else {
                    assert(inner[k] == value[k - 1]);
                    assert(value.contains(value[k - 1]));
                }
            } else {
                assert(value.contains(value[k]));
            }
        }
    }
    lemma_position_is(rest, ">"@, v);
    assert(rest.take(v) =~= inner);
    assert(trimmed(inner) == inner) by {
        assert(!is_white('\''));
        assert(trim_front(inner, white()) == inner);
        assert(trim_back(inner, white()) == inner);
    }
    if quoted {
        assert(inner =~= seq!['\''] + (value + seq!['\'']));
        assert((value + seq!['\''])[0] == value[0]);
        lemma_front_once('\'', value + seq!['\''], only('\''));
        lemma_back_once(value, '\'', only('\''));
    } else {
        assert(trim_front(inner, only('\'')) == inner);
        assert(trim_back(inner, only('\'')) == inner);
    }
}

/// A path that `gdbus` prints is read as it is.
pub proof fn paths_are_taken_from_their_quotes(
    output: &str,
    path: Seq<char>,
    r: Result<String, String>,
)
    requires
        call_ensures(parse_object_path, (output,), r),
        is_plain(path),
        output@ == "('"@ + path + "',)"@,
    ensures
        r matches Ok(p) && p@ == path,
{
    printed_paths_are_read(path);
}

/// A response is waited for until it comes: other lines are passed over, a line that comes late or
/// with another code than 0 is a refusal, and any other gives the value of the key, or `ok` where
/// none is asked for.
pub proof fn responses_are_waited_for(
    line: &str,
    key: &str,
    path: &str,
    late: bool,
    r: LineOutcome,
    value: Option<String>,
)
    requires
        call_ensures(read_line, (line, key, path, late), r),
        call_ensures(extract_gdbus_dict_value, (line, key), value),
    ensures
        late ==> r is Refused,
        !late && !holds(line@, "Response"@) ==> r is Ignore,
        !late && holds(line@, "Response"@) && !holds(line@, "uint32 0"@) ==> r is Refused,
        !late && holds(line@, "Response"@) && holds(line@, "uint32 0"@) ==> (r matches LineOutcome::Value(
            v,
        ) && (key@.len() == 0 ==> v@ == "ok"@) && (key@.len() > 0 && value is Some ==> v@
            == value->0@) && (key@.len() > 0 && value is None ==> v@.len() == 0)),
{
}

/// What was read is a response where it is not empty; a code of 0 alone is a success; and the first
/// stream that has a number gives it.
pub proof fn responses_are_judged(
    value: String,
    key: &str,
    path: &str,
    r: Result<String, String>,
    code: u32,
    c: Result<(), String>,
    streams: &Vec<Option<u32>>,
    n: Result<u32, String>,
    k: int,
)
    requires
        call_ensures(response_value, (value, key, path), r),
        call_ensures(response_code, (code,), c),
        call_ensures(extract_node_id, (Some(streams),), n),
        0 <= k < streams@.len(),
        streams@[k] is Some,
        forall|i: int| 0 <= i < k ==> streams@[i] is None,
    ensures
        r is Ok <==> value@.len() > 0,
        r matches Ok(v) ==> v@ == value@,
        c is Ok <==> code == 0,
        n == Ok::<u32, String>(streams@[k]->0),
{
    lemma_first_stream(streams@, k);
}

proof fn lemma_first_stream(streams: Seq<Option<u32>>, k: int)
    requires
        0 <= k < streams.len(),
        streams[k] is Some,
        forall|i: int| 0 <= i < k ==> streams[i] is None,
    ensures
        first_stream(streams) == streams[k],
    decreases k,
{
    if k > 0 {
        assert(streams[0] is None);
        let rest = streams.skip(1);
        assert forall|i: int| 0 <= i < k - 1 implies rest[i] is None by {
            assert(rest[i] == streams[i + 1]);
        }
        lemma_first_stream(rest, k - 1);
    }
}

/// A conversation in which every request is answered with a path and every response comes opens a
/// recording of the stream that the last response names, in the session that the first one does.
pub proof fn answered_requests_open_a_recording(
    s: OpeningView,
    a: Seq<char>,
    session: Seq<char>,
    b: Seq<char>,
    chosen: Seq<char>,
    c: Seq<char>,
    streams: Seq<char>,
    n: nat,
)
    requires
        s.phase == PortalPhase::Create,
        is_plain(a),
        is_plain(b),
        is_plain(c),
        node_id_of(streams) == Ok::<nat, Seq<char>>(n),
        n <= 0xffff_ffff,
    ensures
        ({
            let printed = |p: Seq<char>| "('"@ + p + "',)"@;
            let s1 = opened(s, Some(printed(a))).0;
            let s2 = opened(s1, Some(session)).0;
            let s3 = opened(s2, Some(printed(b))).0;
            let s4 = opened(s3, Some(chosen)).0;
            let s5 = opened(s4, Some(printed(c))).0;
            let s6 = opened(s5, Some(streams)).0;
            &&& s1.phase == PortalPhase::AwaitCreate && s1.request_path == a
            &&& s2.phase == PortalPhase::Select && s2.session_path == session
            &&& s3.phase == PortalPhase::AwaitSelect && s3.request_path == b
            &&& s4.phase == PortalPhase::Start
            &&& s5.phase == PortalPhase::AwaitStart && s5.request_path == c
            &&& s6.phase == PortalPhase::Open && s6.node_id == n && s6.session_path == session
            &&& s6.place == s.place && s6.pid == s.pid
        }),
{
    printed_paths_are_read(a);
    printed_paths_are_read(b);
    printed_paths_are_read(c);
}

/// An opening goes as the replies lead: it fails with the first reply that does not come, asks for
/// what its phase says, and has a stream only when it is open.
pub proof fn openings_go_step_by_step(
    o: &mut PortalOpening,
    reply: Option<&str>,
    r: Result<(), String>,
    p: &PortalOpening,
    node: Option<u32>,
    action: PortalAction,
    place: SessionPlace,
    pid: u32,
    fresh: PortalOpening,
)
    requires
        call_ensures(PortalOpening::advance, (o, reply), r),
        call_ensures(PortalOpening::node_id, (p,), node),
        call_ensures(PortalOpening::action, (p,), action),
        call_ensures(PortalOpening::new, (place, pid), fresh),
    ensures
        final(o)@ == opened(old(o)@, opt_view(reply)).0,
        r is Err ==> final(o)@.phase == PortalPhase::Failed,
        reply is None && old(o)@.phase != PortalPhase::Open && old(o)@.phase != PortalPhase::Failed
            ==> r is Err,
        node is Some <==> p@.phase == PortalPhase::Open,
        node matches Some(n) ==> n == p@.node_id,
        action is Nothing <==> p@.phase == PortalPhase::Open || p@.phase == PortalPhase::Failed,
        action is Call <==> p@.phase == PortalPhase::Create || p@.phase == PortalPhase::Select
            || p@.phase == PortalPhase::Start,
        action matches PortalAction::Await(c, key) ==> c@.args.last() == "--object-path="@
            + p@.request_path,
        fresh@.phase == PortalPhase::Create && fresh@.place == place && fresh@.pid == pid,
{
}

/// A meter that is switched on by `1` gives the distance of each frame but the first from the one
/// before, in whole microseconds and never below 0, counted from 0. It reports the first twenty and
/// every sixtieth, and signs of life with every sixtieth but the first.
pub proof fn distances_are_measured(
    setting: Option<&str>,
    fresh: LatencyMeter,
    m: &mut LatencyMeter,
    pts_ns: u64,
    r: Option<LatencySample>,
)
    requires
        call_ensures(LatencyMeter::new, (setting,), fresh),
        call_ensures(LatencyMeter::record, (m, pts_ns), r),
    ensures
        fresh@.enabled <==> (setting matches Some(t) && t@ == "1"@),
        fresh@.last_pts_ns == 0 && fresh@.sample_count == 0,
        r is Some <==> old(m)@.enabled && old(m)@.last_pts_ns != 0,
        old(m)@.enabled ==> final(m)@.last_pts_ns == pts_ns && final(m)@.enabled,
        !old(m)@.enabled ==> final(m)@ == old(m)@,
        r matches Some(s) ==> {
            &&& s.frame == old(m)@.sample_count
            &&& pts_ns >= old(m)@.last_pts_ns ==> s.delta_us * 1000 <= pts_ns - old(m)@.last_pts_ns
                < s.delta_us * 1000 + 1000
            &&& pts_ns < old(m)@.last_pts_ns ==> s.delta_us == 0
            &&& s.frame < 20 ==> s.log
            &&& s.frame >= 20 ==> (s.log <==> s.frame % 60 == 0)
            &&& s.heartbeat <==> s.frame >= 60 && s.frame % 60 == 0
            &&& s.frame < u64::MAX ==> final(m)@.sample_count == s.frame + 1
            &&& s.frame == u64::MAX ==> final(m)@.sample_count == 0
        },
        r is None ==> final(m)@.sample_count == old(m)@.sample_count,
{
}

/// The answer to a request gives the object that is listened to next, and what is heard from it gives
/// the session and, at last, the stream; nothing else changes. A reply that cannot be read, and one
/// that does not come, fails the opening under the name of the request.
pub proof fn openings_follow_their_replies(
    o: &mut PortalOpening,
    reply: Option<&str>,
    r: Result<(), String>,
    path: Result<String, String>,
    node: Result<u32, String>,
)
    requires
        call_ensures(PortalOpening::advance, (o, reply), r),
        reply matches Some(text) ==> call_ensures(parse_object_path, (text,), path),
        reply matches Some(text) ==> call_ensures(parse_node_id_from_streams, (text,), node),
    ensures
        ({
            let a = old(o)@;
            let b = final(o)@;
            let asks = a.phase == PortalPhase::Create || a.phase == PortalPhase::Select || a.phase
                == PortalPhase::Start;
            let listens = a.phase == PortalPhase::AwaitCreate || a.phase == PortalPhase::AwaitSelect
                || a.phase == PortalPhase::AwaitStart;
            let name = if a.phase == PortalPhase::Create || a.phase == PortalPhase::AwaitCreate {
                "CreateSession"@
            } else if a.phase == PortalPhase::Select || a.phase == PortalPhase::AwaitSelect {
                "SelectSources"@
            } else {
                "Start"@
            };
            &&& b.place == a.place && b.pid == a.pid
            &&& asks ==> {
                &&& r is Ok <==> reply is Some && path is Ok
                &&& r is Ok ==> b.request_path == path->Ok_0@
                &&& r is Ok && a.phase == PortalPhase::Create ==> b.phase == PortalPhase::AwaitCreate
                &&& r is Ok && a.phase == PortalPhase::Select ==> b.phase == PortalPhase::AwaitSelect
                &&& r is Ok && a.phase == PortalPhase::Start ==> b.phase == PortalPhase::AwaitStart
                &&& (b.session_path, b.node_id) == (a.session_path, a.node_id)
                &&& reply is None ==> (r matches Err(e) && e@ == name + " gdbus call failed"@)
                &&& reply is Some && path is Err ==> (r matches Err(e) && e@ == "Failed to parse "@
                    + name + " request path"@)
            }
            &&& listens ==> {
                &&& b.request_path == a.request_path
                &&& reply is None ==> (r matches Err(e) && e@ == name + " Response not received"@)
            }
            &&& a.phase == PortalPhase::AwaitCreate ==> {
                &&& r is Ok <==> reply is Some
                &&& r is Ok ==> b.phase == PortalPhase::Select && b.session_path == reply->0@
                &&& b.node_id == a.node_id
            }
            &&& a.phase == PortalPhase::AwaitSelect ==> {
                &&& r is Ok <==> reply is Some
                &&& r is Ok ==> b.phase == PortalPhase::Start
                &&& (b.session_path, b.node_id) == (a.session_path, a.node_id)
            }
            &&& a.phase == PortalPhase::AwaitStart ==> {
                &&& r is Ok <==> reply is Some && node is Ok
                &&& r is Ok ==> b.phase == PortalPhase::Open && b.node_id == node->Ok_0
                &&& b.session_path == a.session_path
            }
            &&& r is Err ==> b.phase == PortalPhase::Failed && (b.session_path, b.request_path, b.node_id)
                == (a.session_path, a.request_path, a.node_id)
            &&& !asks && !listens ==> r is Ok && b == a
        }),
{
    reveal_strlit("CreateSession");
    reveal_strlit("SelectSources");
    reveal_strlit("Start");
    reveal_strlit(" gdbus call failed");
    reveal_strlit(" Response not received");
    reveal_strlit("Failed to parse ");
    reveal_strlit(" request path");
    reveal_strlit("CreateSession gdbus call failed");
    reveal_strlit("SelectSources gdbus call failed");
    reveal_strlit("Start gdbus call failed");
    reveal_strlit("CreateSession Response not received");
    reveal_strlit("SelectSources Response not received");
    reveal_strlit("Start Response not received");
    reveal_strlit("Failed to parse CreateSession request path");
    reveal_strlit("Failed to parse SelectSources request path");
    reveal_strlit("Failed to parse Start request path");
    assert("CreateSession gdbus call failed"@ =~= "CreateSession"@ + " gdbus call failed"@);
    assert("SelectSources gdbus call failed"@ =~= "SelectSources"@ + " gdbus call failed"@);
    assert("Start gdbus call failed"@ =~= "Start"@ + " gdbus call failed"@);
    assert("CreateSession Response not received"@ =~= "CreateSession"@ + " Response not received"@);
    assert("SelectSources Response not received"@ =~= "SelectSources"@ + " Response not received"@);
    assert("Start Response not received"@ =~= "Start"@ + " Response not received"@);
    assert("Failed to parse CreateSession request path"@ =~= "Failed to parse "@ + "CreateSession"@
        + " request path"@);
    assert("Failed to parse SelectSources request path"@ =~= "Failed to parse "@ + "SelectSources"@
        + " request path"@);
    assert("Failed to parse Start request path"@ =~= "Failed to parse "@ + "Start"@
        + " request path"@);
}

/// Every call goes to the portal on the bus of the session's own directory. Requests are named after
/// the process, those behind the first name the session, and one screen is chosen without its cursor.
/// What is listened to is the object of the last request, for what the phase needs.
pub proof fn portals_are_asked_by_name(p: &PortalOpening, a: PortalAction, close: CommandLine)
    requires
        call_ensures(PortalOpening::action, (p,), a),
        call_ensures(PortalOpening::close_command, (p,), close),
    ensures
        ({
            let s = p@;
            let n = decimal(s.pid as nat);
            let screen_cast =
                "gdbus call --session "@ + ("--dest=org.freedesktop.portal.Desktop --object-path=/org/freedesktop/portal/desktop --method=org.freedesktop.portal.ScreenCast."@);
            let dir = s.place.xdg_runtime_dir@;
            let env = seq![
                ("WAYLAND_DISPLAY"@, s.place.wayland_display@),
                ("XDG_RUNTIME_DIR"@, dir),
                ("DBUS_SESSION_BUS_ADDRESS"@, "unix:path="@ + dir + "/bus"@),
            ];
            &&& a matches PortalAction::Call(c) ==> {
                &&& c@.program == "sh"@ && c@.args.len() == 2 && c@.args[0] == "-c"@ && c@.env == env
                &&& s.phase == PortalPhase::Create ==> c@.args[1] =~= screen_cast + "CreateSession"@
                    + " "@ + "\"{\\\"session_handle_token\\\": <\\\"beam_sess_"@ + n
                    + "\\\">, \\\"handle_token\\\": <\\\"beam_cr_"@ + n + "\\\">}\""@
                &&& s.phase == PortalPhase::Select ==> c@.args[1] =~= screen_cast + "SelectSources"@
                    + " "@ + "\""@ + s.session_path + "\" \"{\\\"handle_token\\\": <\\\"beam_sel_"@ + n
                    + "\\\">, \\\"types\\\": <uint32 1>, \\\"multiple\\\": <false>, \\\"cursor_mode\\\": <uint32 1>}\""@
                &&& s.phase == PortalPhase::Start ==> c@.args[1] =~= screen_cast + "Start"@ + " "@
                    + "\""@ + s.session_path + "\" \"\" \"{\\\"handle_token\\\": <\\\"beam_start_"@ + n
                    + "\\\">}\""@
            }
            &&& a matches PortalAction::Await(c, key) ==> {
                &&& c@.program == "gdbus"@ && c@.env == env
                &&& c@.args == seq![
                    "monitor"@,
                    "--session"@,
                    "--dest=org.freedesktop.portal.Desktop"@,
                    "--object-path="@ + s.request_path,
                ]
                &&& s.phase == PortalPhase::AwaitCreate ==> key@ == "session_handle"@
                &&& s.phase == PortalPhase::AwaitSelect ==> key@ == ""@
                &&& s.phase == PortalPhase::AwaitStart ==> key@ == "streams"@
            }
            &&& a is Await <==> s.phase == PortalPhase::AwaitCreate || s.phase
                == PortalPhase::AwaitSelect || s.phase == PortalPhase::AwaitStart
            &&& close@.program == "sh"@
            &&& close@.args == seq![
                "-c"@,
                "gdbus call --session --dest=org.freedesktop.portal.Desktop --object-path="@
                    + s.session_path + " --method=org.freedesktop.portal.Session.Close"@,
            ]
            &&& close@.env == seq![env[1], env[0], env[2]]
        }),
{
}

/// A call that succeeds gives what it printed, without white space around, and one that fails is
/// reported with its status and its complaint.
pub proof fn calls_give_what_they_print(
    success: bool,
    status: &str,
    stdout: &[u8],
    stderr: &[u8],
    r: Result<String, String>,
    printed: &str,
    text: &str,
)
    requires
        call_ensures(call_outcome, (success, status, stdout, stderr), r),
        printed@ == lossy_text(stdout@),
        call_ensures(trim, (printed,), text),
    ensures
        success ==> (r matches Ok(t) && t@ == text@),
        !success ==> (r matches Err(e) && e@ == "gdbus call failed ("@ + status@ + "): "@ + lossy_text(
            stderr@,
        )),
{
}

/// The digits behind the first `uint32` give the number of the stream where they fit, whatever zeros
/// they begin with, and are refused where they do not.
pub proof fn tagged_numbers_count(
    streams: &str,
    a: Seq<char>,
    d: Seq<char>,
    b: Seq<char>,
    r: Result<u32, String>,
)
    requires
        call_ensures(parse_node_id_from_streams, (streams,), r),
        streams@ == a + "uint32 "@ + d + b,
        forall|k: int| 0 <= k < a.len() ==> !#[trigger] matches_at(streams@, "uint32 "@, k),
        d.len() > 0,
        has_digit_codes(d),
        b.len() == 0 || !('0' <= b[0] <= '9'),
    ensures
        worth(d, 0) <= 4_294_967_295 ==> (r matches Ok(n) && n == worth(d, 0)),
        worth(d, 0) > 4_294_967_295 ==> (r matches Err(e) && e@ == "Parse node_id as u32"@),
{
    reveal_strlit("uint32 ");
    let s = streams@;
    assert(s.subrange(a.len() as int, a.len() as int + 7) =~= "uint32 "@);
    assert(first_at(s, "uint32 "@, a.len() as int));
    lemma_position_is(s, "uint32 "@, a.len() as int);
    assert(s.skip(a.len() as int + 7) =~= d + b);
    digits_stand_for_their_worth(d, 4_294_967_295);
    lemma_leading_digits_stop(d, b);
}

proof fn lemma_first_id(runs: Seq<Seq<char>>, k: int)
    requires
        0 <= k <= runs.len(),
        forall|i: int|
            0 <= i < runs.len() ==> (#[trigger] runs[i]).len() > 0 && has_digit_codes(runs[i]),
        forall|i: int|
            0 <= i < k ==> worth(#[trigger] runs[i], 0) == 0 || worth(runs[i], 0) > 4_294_967_295,
        k < runs.len() ==> 0 < worth(runs[k], 0) <= 4_294_967_295,
    ensures
        k < runs.len() ==> first_id(runs) == Some(worth(runs[k], 0)),
        k == runs.len() ==> first_id(runs) is None,
    decreases k,
{
    if runs.len() > 0 {
        digits_stand_for_their_worth(runs[0], 0xffff_ffff);
        if k > 0 {
            let rest = runs.skip(1);
            assert forall|i: int| 0 <= i < rest.len() implies (#[trigger] rest[i]).len() > 0
                && has_digit_codes(rest[i]) by {
                assert(rest[i] == runs[i + 1]);
            }
            assert forall|i: int| 0 <= i < k - 1 implies worth(#[trigger] rest[i], 0) == 0 || worth(
                rest[i],
                0,
            ) > 4_294_967_295 by {
                assert(rest[i] == runs[i + 1]);
            }
            lemma_first_id(rest, k - 1);
        }
    }
}

/// Where no digits follow a `uint32`, the first run of digits counts that is not worth 0 and fits, and
/// where there is none the list is refused.
pub proof fn other_numbers_count_in_order(
    streams: &str,
    numbers: Vec<&str>,
    k: int,
    r: Result<u32, String>,
)
    requires
        call_ensures(parse_node_id_from_streams, (streams,), r),
        call_ensures(digit_runs, (streams,), numbers),
        !holds(streams@, "uint32 "@),
        0 <= k <= numbers@.len(),
        forall|i: int|
            0 <= i < k ==> worth((#[trigger] numbers@[i])@, 0) == 0 || worth(numbers@[i]@, 0)
                > 4_294_967_295,
        k < numbers@.len() ==> 0 < worth(numbers@[k]@, 0) <= 4_294_967_295,
    ensures
        k < numbers@.len() ==> (r matches Ok(n) && n == worth(numbers@[k]@, 0)),
        k == numbers@.len() ==> (r matches Err(e) && e@ == "No uint32 node ID found in streams: "@
            + streams@),
{
    let all = runs(streams@, not_digit());
    assert(all.len() == numbers@.len());
    lemma_runs_are_digits(streams@);
    assert forall|i: int| 0 <= i < all.len() implies (#[trigger] all[i]).len() > 0
        && has_digit_codes(all[i]) by {
        assert forall|j: int| 0 <= j < all[i].len() implies 48 <= (#[trigger] all[i][j]) as u32
            <= 57 by {
            assert(is_digit(all[i][j]));
        }
    }
    assert forall|i: int| 0 <= i < k implies worth(#[trigger] all[i], 0) == 0 || worth(all[i], 0)
        > 4_294_967_295 by {
        assert(all[i] == numbers@[i]@);
    }
    if k < numbers@.len() {
        assert(all[k] == numbers@[k]@);
    }
    lemma_first_id(all, k);
    assert(position(streams@, "uint32 "@) is None) by {
        if position(streams@, "uint32 "@) is Some {
            let i = position(streams@, "uint32 "@)->0;
            assert(matches_at(streams@, "uint32 "@, i));
        }
    }
}

/// The value of a key is what stands between the first angle brackets behind the first place where
/// the key stands, first without white space and then without quotes around it, whatever that is;
/// without the key, or without the brackets, there is none.
pub proof fn values_are_trimmed(
    line: &str,
    key: &str,
    a: Seq<char>,
    gap: Seq<char>,
    inner: &str,
    b: Seq<char>,
    t: &str,
    u: &str,
    r: Option<String>,
)
    requires
        call_ensures(extract_gdbus_dict_value, (line, key), r),
        call_ensures(trim, (inner,), t),
        call_ensures(trim_matches, (t, '\''), u),
        forall|k: int|
            0 <= k < a.len() ==> !#[trigger] matches_at(line@, "'"@ + key@ + "':"@, k),
        !gap.contains('<'),
        !inner@.contains('>'),
    ensures
        line@ == a + ("'"@ + key@ + "':"@) + gap + "<"@ + inner@ + ">"@ + b ==> (r matches Some(v)
            && v@ == u@),
        line@ == a + ("'"@ + key@ + "':"@) + gap + "<"@ + inner@ ==> r is None,
        line@ == a + ("'"@ + key@ + "':"@) + gap ==> r is None,
        !holds(line@, "'"@ + key@ + "':"@) ==> r is None,
{
    reveal_strlit("'");
    reveal_strlit("':");
    reveal_strlit("<");
    reveal_strlit(">");
    let s = line@;
    let pattern = "'"@ + key@ + "':"@;
    let n = a.len() as int;
    let w = pattern.len() as int;
    let g = gap.len() as int;
    let v = inner@.len() as int;
    assert("<"@ =~= seq!['<']);
    assert(">"@ =~= seq!['>']);
    if !holds(s, pattern) {
        if position(s, pattern) is Some {
            assert(matches_at(s, pattern, position(s, pattern)->0));
        }
    }
    if s == a + pattern + gap + "<"@ + inner@ + ">"@ + b {
        lemma_key_at(s, a, pattern, gap + "<"@ + inner@ + ">"@ + b);
        let after = s.skip(n + w);
        lemma_one_char_at(after, gap, '<', inner@ + ">"@ + b);
        let rest = after.skip(g + 1);
        assert(rest =~= inner@ + ">"@ + b);
        lemma_one_char_at(rest, inner@, '>', b);
        assert(rest.take(v) =~= inner@);
    }
    if s == a + pattern + gap + "<"@ + inner@ {
        lemma_key_at(s, a, pattern, gap + "<"@ + inner@);
        let after = s.skip(n + w);
        lemma_one_char_at(after, gap, '<', inner@);
        let rest = after.skip(g + 1);
        assert(rest =~= inner@);
        lemma_no_char(rest, '>');
    }
    if s == a + pattern + gap {
        lemma_key_at(s, a, pattern, gap);
        let after = s.skip(n + w);
        assert(after =~= gap);
        lemma_no_char(after, '<');
    }
}

proof fn lemma_key_at(s: Seq<char>, a: Seq<char>, pattern: Seq<char>, rest: Seq<char>)
    requires
        s =~= a + pattern + rest,
        forall|k: int| 0 <= k < a.len() ==> !#[trigger] matches_at(s, pattern, k),
    ensures
        position(s, pattern) == Some(a.len() as int),
        s.skip(a.len() as int + pattern.len()) == rest,
{
    let n = a.len() as int;
    assert(s.subrange(n, n + pattern.len()) =~= pattern);
    lemma_position_is(s, pattern, n);
    assert(s.skip(n + pattern.len()) =~= rest);
}

proof fn lemma_one_char_at(s: Seq<char>, before: Seq<char>, c: char, rest: Seq<char>)
    requires
        s =~= before + seq![c] + rest,
        !before.contains(c),
    ensures
        position(s, seq![c]) == Some(before.len() as int),
{
    let n = before.len() as int;
    assert(s.subrange(n, n + 1) =~= seq![c]);
    assert forall|k: int| 0 <= k < n implies !matches_at(s, seq![c], k) by {
        if matches_at(s, seq![c], k) {
            assert(s.subrange(k, k + 1)[0] == c);
            assert(s[k] == before[k]);
            assert(before.contains(before[k]));
        }
    }
    lemma_position_is(s, seq![c], n);
}

proof fn lemma_no_char(s: Seq<char>, c: char)
    requires
        !s.contains(c),
    ensures
        position(s, seq![c]) is None,
{
    if position(s, seq![c]) is Some {
        let k = position(s, seq![c])->0;
        assert(matches_at(s, seq![c], k));
        assert(s.subrange(k, k + 1)[0] == c);
        assert(s.contains(s[k]));
    }
}

/// A refusal says what was refused: a response that is late, one that fails, one that is empty, a
/// code that is not 0, and a list of streams that is missing or has no number.
pub proof fn refusals_say_why(
    line: &str,
    key: &str,
    path: &str,
    late: bool,
    r: LineOutcome,
    value: String,
    v: Result<String, String>,
    code: u32,
    c: Result<(), String>,
    streams: &Vec<Option<u32>>,
    n: Result<u32, String>,
    missing: Result<u32, String>,
)
    requires
        call_ensures(read_line, (line, key, path, late), r),
        call_ensures(response_value, (value, key, path), v),
        call_ensures(response_code, (code,), c),
        call_ensures(extract_node_id, (Some(streams),), n),
        call_ensures(extract_node_id, (None::<&Vec<Option<u32>>>,), missing),
    ensures
        r matches LineOutcome::Refused(e) ==> e@ == (if late {
            "Timeout waiting for portal Response on "@ + path@
        } else {
            "Portal Response indicates failure: "@ + line@
        }),
        v matches Err(e) ==> e@ == (if key@.len() == 0 {
            "Portal Response not received on "@ + path@ + " (compositor not responding?)"@
        } else {
            "Portal Response key '"@ + key@ + "' not found or empty on "@ + path@
        }),
        code == 1 ==> (c matches Err(e) && e@
            == "Portal request cancelled (xdg-desktop-portal-wlr auto-approve not configured?)"@),
        code > 1 ==> (c matches Err(e) && e@ == "Portal request failed with response code "@ + decimal(
            code as nat,
        )),
        (forall|i: int| 0 <= i < streams@.len() ==> (#[trigger] streams@[i]) is None) ==> (
        n matches Err(e) && e@ == "Could not parse PipeWire node ID from Start response 'streams'"@),
        missing matches Err(e) && e@ == "Start response missing 'streams' key"@,
{
    if forall|i: int| 0 <= i < streams@.len() ==> (#[trigger] streams@[i]) is None {
        lemma_no_stream(streams@);
    }
}

proof fn lemma_no_stream(streams: Seq<Option<u32>>)
    requires
        forall|i: int| 0 <= i < streams.len() ==> (#[trigger] streams[i]) is None,
    ensures
        first_stream(streams) is None,
    decreases streams.len(),
{
    if streams.len() > 0 {
        let rest = streams.skip(1);
        assert forall|i: int| 0 <= i < rest.len() implies (#[trigger] rest[i]) is None by {
            assert(rest[i] == streams[i + 1]);
        }
        lemma_no_stream(rest);
    }
}

/// A path that is read begins with a slash; what has none gives no path, and is reported as it is.
pub proof fn paths_begin_with_a_slash(output: &str, r: Result<String, String>)
    requires
        call_ensures(parse_object_path, (output,), r),
    ensures
        r matches Ok(p) ==> p@.len() > 0 && p@[0] == '/',
        r matches Ok(p) ==> holds(output@, p@),
        !output@.contains('/') ==> r is Err,
        r matches Err(e) ==> e@ == "Unexpected gdbus output (expected object path): "@ + output@,
{
    reveal_strlit("/");
    if let Ok(p) = r {
        assert(p@.subrange(0, 1)[0] == '/');
        let t = trimmed(output@);
        let f = trim_front(t, only('('));
        let b = trim_back(f, only(')'));
        let i = trimmed(b);
        let q = trimmed_of(i, '\'');
        let c = trim_back(q, only(','));
        let d = trimmed(c);
        let z = trim_back(d, only('\''));
        lemma_trim_is_part(output@, white());
        lemma_trim_is_part(trim_front(output@, white()), white());
        lemma_part_of_part(t, trim_front(output@, white()), output@);
        lemma_trim_is_part(t, only('('));
        lemma_part_of_part(f, t, output@);
        lemma_trim_is_part(f, only(')'));
        lemma_part_of_part(b, f, output@);
        lemma_trim_is_part(b, white());
        lemma_part_of_part(trim_front(b, white()), b, output@);
        lemma_trim_is_part(trim_front(b, white()), white());
        lemma_part_of_part(i, trim_front(b, white()), output@);
        lemma_trim_is_part(i, only('\''));
        lemma_part_of_part(trim_front(i, only('\'')), i, output@);
        lemma_trim_is_part(trim_front(i, only('\'')), only('\''));
        lemma_part_of_part(q, trim_front(i, only('\'')), output@);
        lemma_trim_is_part(q, only(','));
        lemma_part_of_part(c, q, output@);
        lemma_trim_is_part(c, white());
        lemma_part_of_part(trim_front(c, white()), c, output@);
        lemma_trim_is_part(trim_front(c, white()), white());
        lemma_part_of_part(d, trim_front(c, white()), output@);
        lemma_trim_is_part(d, only('\''));
        lemma_part_of_part(z, d, output@);
        let k = choose|k: int| matches_at(output@, p@, k);
        assert(output@.subrange(k, k + p@.len())[0] == '/');
        assert(output@.contains(output@[k]));
    }
}

proof fn lemma_part_of_part(a: Seq<char>, b: Seq<char>, c: Seq<char>)
    requires
        holds(b, a),
        holds(c, b),
    ensures
        holds(c, a),
{
    let i = choose|i: int| matches_at(b, a, i);
    let j = choose|j: int| matches_at(c, b, j);
    assert(c.subrange(j + i, j + i + a.len()) =~= a) by {
        assert(b =~= c.subrange(j, j + b.len()));
        assert(a =~= b.subrange(i, i + a.len()));
    }
    assert(matches_at(c, a, j + i));
}

proof fn lemma_trim_is_part(s: Seq<char>, p: spec_fn(char) -> bool)
    ensures
        holds(s, trim_front(s, p)),
        holds(s, trim_back(s, p)),
    decreases s.len(),
{
    assert(s.subrange(0, s.len() as int) =~= s);
    assert(matches_at(s, s, 0));
    if s.len() > 0 {
        lemma_trim_is_part(s.skip(1), p);
        lemma_trim_is_part(s.drop_last(), p);
        assert(s.subrange(1, s.len() as int) =~= s.skip(1));
        assert(matches_at(s, s.skip(1), 1));
        assert(s.subrange(0, s.len() - 1) =~= s.drop_last());
        assert(matches_at(s, s.drop_last(), 0));
        if p(s[0]) {
            lemma_part_of_part(trim_front(s.skip(1), p), s.skip(1), s);
        }
        if p(s.last()) {
            lemma_part_of_part(trim_back(s.drop_last(), p), s.drop_last(), s);
        }
    }
}

} // verus!
