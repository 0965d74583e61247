//! The command line of the agent.
use crate::backend::{resolve_backend, resolved};
use crate::ids::{parse_uuid, uuid_of};
use crate::text::{opt_text, parse_u32, text_eq, texts, unsigned};
use vstd::prelude::*;
use vstd::string::*;

verus! {

/// The video bitrate, in kbit/s, where none is given: what a local network carries.
pub const DEFAULT_BITRATE: u32 = 100_000;

/// The frames per second where none are given.
pub const DEFAULT_FRAMERATE: u32 = 120;

/// The options of the agent.
pub struct Args {
    pub display: String,
    pub server_url: String,
    pub session_id: u128,
    pub agent_token: Option<String>,
    pub tls_cert_path: Option<String>,
    pub width: u32,
    pub height: u32,
    pub framerate: u32,
    pub bitrate: u32,
    pub encoder: Option<String>,
    pub max_width: u32,
    pub max_height: u32,
    pub gpu_driver: String,
    pub display_start: u32,
    /// `xorg`, `wayland`, or an unknown name that the agent refuses; never `auto`.
    pub backend: String,
}

/// The options as they stand while the command line is read.
pub struct Options {
    pub display: String,
    pub server_url: String,
    pub session_id: Option<u128>,
    pub agent_token: Option<String>,
    pub tls_cert_path: Option<String>,
    pub width: u32,
    pub height: u32,
    pub framerate: u32,
    pub bitrate: u32,
    pub encoder: Option<String>,
    pub max_width: u32,
    pub max_height: u32,
    pub gpu_driver: String,
    pub display_start: u32,
    pub backend: String,
}

/// The options in mathematical terms.
pub struct OptionsView {
    pub display: Seq<char>,
    pub server_url: Seq<char>,
    pub session_id: Option<u128>,
    pub agent_token: Option<Seq<char>>,
    pub tls_cert_path: Option<Seq<char>>,
    pub width: u32,
    pub height: u32,
    pub framerate: u32,
    pub bitrate: u32,
    pub encoder: Option<Seq<char>>,
    pub max_width: u32,
    pub max_height: u32,
    pub gpu_driver: Seq<char>,
    pub display_start: u32,
    pub backend: Seq<char>,
}

impl View for Options {
    type V = OptionsView;

    open spec fn view(&self) -> OptionsView {
        OptionsView {
            display: self.display@,
            server_url: self.server_url@,
            session_id: self.session_id,
            agent_token: opt_text(self.agent_token),
            tls_cert_path: opt_text(self.tls_cert_path),
            width: self.width,
            height: self.height,
            framerate: self.framerate,
            bitrate: self.bitrate,
            encoder: opt_text(self.encoder),
            max_width: self.max_width,
            max_height: self.max_height,
            gpu_driver: self.gpu_driver@,
            display_start: self.display_start,
            backend: self.backend@,
        }
    }
}

impl View for Args {
    type V = OptionsView;

    open spec fn view(&self) -> OptionsView {
        OptionsView {
            display: self.display@,
            server_url: self.server_url@,
            session_id: Some(self.session_id),
            agent_token: opt_text(self.agent_token),
            tls_cert_path: opt_text(self.tls_cert_path),
            width: self.width,
            height: self.height,
            framerate: self.framerate,
            bitrate: self.bitrate,
            encoder: opt_text(self.encoder),
            max_width: self.max_width,
            max_height: self.max_height,
            gpu_driver: self.gpu_driver@,
            display_start: self.display_start,
            backend: self.backend@,
        }
    }
}

/// What a command line asks for.
pub enum Invocation {
    /// Run with these options.
    Run(Args),
    /// Print the version and stop.
    Version,
    /// Print the help and stop.
    Help,
}

/// What reading a command line comes to.
pub enum Outcome {
    Run(OptionsView),
    Version,
    Help,
    /// Stop with this message.
    Fail(Seq<char>),
}

/// The options where the command line gives none.
pub open spec fn default_options() -> OptionsView {
    OptionsView {
        display: ":0"@,
        server_url: Seq::empty(),
        session_id: None,
        agent_token: None,
        tls_cert_path: None,
        width: 1920,
        height: 1080,
        framerate: DEFAULT_FRAMERATE,
        bitrate: DEFAULT_BITRATE,
        encoder: None,
        max_width: 3840,
        max_height: 2160,
        gpu_driver: "auto"@,
        display_start: 10,
        backend: "auto"@,
    }
}

/// Whether `flag` takes the argument behind it as its value.
pub open spec fn takes_value(flag: Seq<char>) -> bool {
    takes_text(flag) || takes_number(flag) || flag == "--session-id"@
}

/// Whether `flag` takes any text.
pub open spec fn takes_text(flag: Seq<char>) -> bool {
    ||| flag == "--display"@
    ||| flag == "--server-url"@
    ||| flag == "--agent-token"@
    ||| flag == "--tls-cert"@
    ||| flag == "--encoder"@
    ||| flag == "--gpu-driver"@
    ||| flag == "--backend"@
}

/// Whether `flag` takes a number.
pub open spec fn takes_number(flag: Seq<char>) -> bool {
    ||| flag == "--width"@
    ||| flag == "--height"@
    ||| flag == "--framerate"@
    ||| flag == "--bitrate"@
    ||| flag == "--max-width"@
    ||| flag == "--max-height"@
    ||| flag == "--display-start"@
}

/// The options once a flag that takes text has been given.
pub open spec fn with_text(o: OptionsView, flag: Seq<char>, value: Seq<char>) -> OptionsView {
    if flag == "--display"@ {
        OptionsView { display: value, ..o }
    } else if flag == "--server-url"@ {
        OptionsView { server_url: value, ..o }
    } else if flag == "--agent-token"@ {
        OptionsView { agent_token: Some(value), ..o }
    } else if flag == "--tls-cert"@ {
        OptionsView { tls_cert_path: Some(value), ..o }
    } else if flag == "--encoder"@ {
        OptionsView { encoder: Some(value), ..o }
    } else if flag == "--gpu-driver"@ {
        OptionsView { gpu_driver: value, ..o }
    } else {
        OptionsView { backend: value, ..o }
    }
}

/// The options once a flag that takes a number has been given.
pub open spec fn with_number(o: OptionsView, flag: Seq<char>, value: u32) -> OptionsView {
    if flag == "--width"@ {
        OptionsView { width: value, ..o }
    } else if flag == "--height"@ {
        OptionsView { height: value, ..o }
    } else if flag == "--framerate"@ {
        OptionsView { framerate: value, ..o }
    } else if flag == "--bitrate"@ {
        OptionsView { bitrate: value, ..o }
    } else if flag == "--max-width"@ {
        OptionsView { max_width: value, ..o }
    } else if flag == "--max-height"@ {
        OptionsView { max_height: value, ..o }
    } else {
        OptionsView { display_start: value, ..o }
    }
}

/// The options once `flag` has been given with `value`, or the message where the value is bad.
pub open spec fn with_option(o: OptionsView, flag: Seq<char>, value: Seq<char>) -> Result<
    OptionsView,
    Seq<char>,
> {
    if flag == "--session-id"@ {
        match uuid_of(value) {
            Some(id) => Ok(OptionsView { session_id: Some(id), ..o }),
            None => Err("Invalid session-id UUID"@),
        }
    } else if takes_number(flag) {
        match unsigned(value, 0xffff_ffff) {
            Some(n) => Ok(with_number(o, flag, n as u32)),
            None => Err("Invalid "@ + flag + " value"@),
        }
    } else {
        Ok(with_text(o, flag, value))
    }
}

/// What the arguments from the `i`-th on come to, with `o` read so far. Each flag stands before
/// its value; the first argument that is out of place ends the reading.
pub open spec fn scanned(o: OptionsView, args: Seq<Seq<char>>, i: int) -> Outcome
    decreases args.len() - i,
{
    if i >= args.len() {
        Outcome::Run(o)
    } else if args[i] == "-V"@ || args[i] == "--version"@ {
        Outcome::Version
    } else if args[i] == "-h"@ || args[i] == "--help"@ {
        Outcome::Help
    } else if !takes_value(args[i]) {
        Outcome::Fail("Unknown argument: "@ + args[i])
    } else if i + 1 >= args.len() {
        Outcome::Fail("Missing "@ + args[i] + " value"@)
    } else {
        match with_option(o, args[i], args[i + 1]) {
            Ok(next) => scanned(next, args, i + 2),
            Err(message) => Outcome::Fail(message),
        }
    }
}

/// What a whole command line comes to. Its first argument is the program's own name. The token
/// in the environment counts where none is given, and the backend is resolved by what
/// `os_release` says of the system.
pub open spec fn read_command_line(
    args: Seq<Seq<char>>,
    env_token: Option<Seq<char>>,
    os_release: Seq<char>,
) -> Outcome {
    match scanned(default_options(), args, 1) {
        Outcome::Run(o) => if o.session_id is None {
            Outcome::Fail("--session-id is required"@)
        } else {
            Outcome::Run(
                OptionsView {
                    agent_token: if o.agent_token is None {
                        env_token
                    } else {
                        o.agent_token
                    },
                    backend: resolved(o.backend, os_release),
                    ..o
                },
            )
        },
        other => other,
    }
}

/// Whether a result is the one that an outcome describes.
pub open spec fn agrees(r: Result<Invocation, String>, outcome: Outcome) -> bool {
    match r {
        Ok(Invocation::Run(args)) => outcome == Outcome::Run(args@),
        Ok(Invocation::Version) => outcome == Outcome::Version,
        Ok(Invocation::Help) => outcome == Outcome::Help,
        Err(message) => outcome == Outcome::Fail(message@),
    }
}

fn is_text_flag(flag: &str) -> (r: bool)
    ensures
        r == takes_text(flag@),
{
    text_eq(flag, "--display") || text_eq(flag, "--server-url") || text_eq(flag, "--agent-token")
        || text_eq(flag, "--tls-cert") || text_eq(flag, "--encoder") || text_eq(
        flag,
        "--gpu-driver",
    ) || text_eq(flag, "--backend")
}

fn is_number_flag(flag: &str) -> (r: bool)
    ensures
        r == takes_number(flag@),
{
    text_eq(flag, "--width") || text_eq(flag, "--height") || text_eq(flag, "--framerate")
        || text_eq(flag, "--bitrate") || text_eq(flag, "--max-width") || text_eq(
        flag,
        "--max-height",
    ) || text_eq(flag, "--display-start")
}

fn set_text_option(o: &mut Options, flag: &str, value: &str)
    ensures
        final(o)@ == with_text(old(o)@, flag@, value@),
{
    if text_eq(flag, "--display") {
        o.display = value.to_owned();
    } else if text_eq(flag, "--server-url") {
        o.server_url = value.to_owned();
    } else if text_eq(flag, "--agent-token") {
        o.agent_token = Some(value.to_owned());
    } else if text_eq(flag, "--tls-cert") {
        o.tls_cert_path = Some(value.to_owned());
    } else if text_eq(flag, "--encoder") {
        o.encoder = Some(value.to_owned());
    } else if text_eq(flag, "--gpu-driver") {
        o.gpu_driver = value.to_owned();
    } else {
        o.backend = value.to_owned();
    }
}

fn set_number_option(o: &mut Options, flag: &str, value: u32)
    ensures
        final(o)@ == with_number(old(o)@, flag@, value),
{
    if text_eq(flag, "--width") {
        o.width = value;
    } else if text_eq(flag, "--height") {
        o.height = value;
    } else if text_eq(flag, "--framerate") {
        o.framerate = value;
    } else if text_eq(flag, "--bitrate") {
        o.bitrate = value;
    } else if text_eq(flag, "--max-width") {
        o.max_width = value;
    } else if text_eq(flag, "--max-height") {
        o.max_height = value;
    } else {
        o.display_start = value;
    }
}

/// Takes `flag` with its `value` into the options.
fn set_option(o: &mut Options, flag: &str, value: &str) -> (r: Result<(), String>)
    requires
        takes_value(flag@),
    ensures
        match r {
            Ok(()) => with_option(old(o)@, flag@, value@) == Ok::<OptionsView, Seq<char>>(final(o)@),
            Err(message) => with_option(old(o)@, flag@, value@) == Err::<OptionsView, Seq<char>>(
                message@,
            ),
        },
{
    if text_eq(flag, "--session-id") {
        match parse_uuid(value) {
            Some(id) => {
                o.session_id = Some(id);
                Ok(())
            },
            None => Err("Invalid session-id UUID".to_owned()),
        }
    } else if is_number_flag(flag) {
        match parse_u32(value) {
            Some(n) => {
                set_number_option(o, flag, n);
                Ok(())
            },
            None => Err("Invalid ".to_owned().concat(flag).concat(" value")),
        }
    } else {
        set_text_option(o, flag, value);
        Ok(())
    }
}

/// Reads the command line of the agent.
///
/// `args` begins with the program's name. `env_token` is the value of `BEAM_AGENT_TOKEN`, where
/// it is set, and `os_release` the text of `/etc/os-release`.
pub fn parse_args(args: &Vec<String>, env_token: Option<String>, os_release: &str) -> (r: Result<
    Invocation,
    String,
>)
    ensures
        agrees(r, read_command_line(texts(args@), opt_text(env_token), os_release@)),
{
    let mut o = Options {
        display: ":0".to_owned(),
        server_url: String::new(),
        session_id: None,
        agent_token: None,
        tls_cert_path: None,
        width: 1920,
        height: 1080,
        framerate: DEFAULT_FRAMERATE,
        bitrate: DEFAULT_BITRATE,
        encoder: None,
        max_width: 3840,
        max_height: 2160,
        gpu_driver: "auto".to_owned(),
        display_start: 10,
        backend: "auto".to_owned(),
    };
    assert(o@ == default_options());
    let ghost all = texts(args@);
    let mut i: usize = 1;
    while i < args.len()
        invariant
            i >= 1,
            all == texts(args@),
            scanned(o@, all, i as int) == scanned(default_options(), all, 1),
        decreases args@.len() - i,
    {
        let arg: &str = args[i].as_str();
        assert(all[i as int] == arg@);
        if text_eq(arg, "-V") || text_eq(arg, "--version") {
            return Ok(Invocation::Version);
        }
        if text_eq(arg, "-h") || text_eq(arg, "--help") {
            return Ok(Invocation::Help);
        }
        if !(is_text_flag(arg) || is_number_flag(arg) || text_eq(arg, "--session-id")) {
            return Err("Unknown argument: ".to_owned().concat(arg));
        }
        if args.len() - i < 2 {
            return Err("Missing ".to_owned().concat(arg).concat(" value"));
        }
        let value: &str = args[i + 1].as_str();
        assert(all[i + 1] == value@);
        match set_option(&mut o, arg, value) {
            Ok(()) => {},
            Err(message) => {
                return Err(message);
            },
        }
        if args.len() - i == 2 {
            i = args.len();
        } else {
            i = i + 2;
        }
    }
    let session_id = match o.session_id {
        Some(id) => id,
        None => {
            return Err("--session-id is required".to_owned());
        },
    };
    let agent_token = if o.agent_token.is_none() {
        env_token
    } else {
        o.agent_token
    };
    let backend = resolve_backend(o.backend.as_str(), os_release);
    Ok(
        Invocation::Run(
            Args {
                display: o.display,
                server_url: o.server_url,
                session_id,
                agent_token,
                tls_cert_path: o.tls_cert_path,
                width: o.width,
                height: o.height,
                framerate: o.framerate,
                bitrate: o.bitrate,
                encoder: o.encoder,
                max_width: o.max_width,
                max_height: o.max_height,
                gpu_driver: o.gpu_driver,
                display_start: o.display_start,
                backend,
            },
        ),
    )
}

/// The agent never runs without a session, nor with a backend that is still to be resolved.
pub proof fn running_options_are_complete(
    args: Seq<Seq<char>>,
    env_token: Option<Seq<char>>,
    os_release: Seq<char>,
)
    ensures
        match read_command_line(args, env_token, os_release) {
            Outcome::Run(o) => o.session_id is Some && o.backend != "auto"@,
            _ => true,
        },
{
    reveal_strlit("auto");
    reveal_strlit("xorg");
    reveal_strlit("wayland");
    assert("xorg"@[0] == 'x');
    assert("wayland"@[0] == 'w');
    assert("auto"@[0] == 'a');
}

// ---------------------------------------------------------------------------
// Laws
// ---------------------------------------------------------------------------

/// The value behind the last of the flags at the places `i`, `i + 2` and so on that is `flag`.
pub open spec fn last_value(args: Seq<Seq<char>>, flag: Seq<char>, i: int) -> Option<Seq<char>>
    decreases args.len() - i,
{
    if i + 1 >= args.len() {
        None
    } else {
        match last_value(args, flag, i + 2) {
            Some(v) => Some(v),
            None => if args[i] == flag {
                Some(args[i + 1])
            } else {
                None
            },
        }
    }
}

/// The number that was given last, or else `default`.
pub open spec fn number_or(value: Option<Seq<char>>, default: u32) -> u32 {
    match value {
        Some(v) => (unsigned(v, 4_294_967_295)->0) as u32,
        None => default,
    }
}

/// The text that was given last, or else `default`.
pub open spec fn given_or(value: Option<Seq<char>>, default: Seq<char>) -> Seq<char> {
    match value {
        Some(v) => v,
        None => default,
    }
}

/// The text that was given last, or else what there was.
pub open spec fn given_or_before(value: Option<Seq<char>>, before: Option<Seq<char>>) -> Option<
    Seq<char>,
> {
    match value {
        Some(v) => Some(v),
        None => before,
    }
}

/// Whether options are those that a command line gives from a place on, on top of others: of each,
/// the value that was given last.
pub open spec fn as_given(
    p: OptionsView,
    o: OptionsView,
    args: Seq<Seq<char>>,
    i: int,
) -> bool {
    &&& p.display == given_or(last_value(args, "--display"@, i), o.display)
    &&& p.server_url == given_or(last_value(args, "--server-url"@, i), o.server_url)
    &&& p.agent_token == given_or_before(last_value(args, "--agent-token"@, i), o.agent_token)
    &&& p.tls_cert_path == given_or_before(last_value(args, "--tls-cert"@, i), o.tls_cert_path)
    &&& p.encoder == given_or_before(last_value(args, "--encoder"@, i), o.encoder)
    &&& p.gpu_driver == given_or(last_value(args, "--gpu-driver"@, i), o.gpu_driver)
    &&& p.backend == given_or(last_value(args, "--backend"@, i), o.backend)
    &&& p.width == number_or(last_value(args, "--width"@, i), o.width)
    &&& p.height == number_or(last_value(args, "--height"@, i), o.height)
    &&& p.framerate == number_or(last_value(args, "--framerate"@, i), o.framerate)
    &&& p.bitrate == number_or(last_value(args, "--bitrate"@, i), o.bitrate)
    &&& p.max_width == number_or(last_value(args, "--max-width"@, i), o.max_width)
    &&& p.max_height == number_or(last_value(args, "--max-height"@, i), o.max_height)
    &&& p.display_start == number_or(last_value(args, "--display-start"@, i), o.display_start)
    &&& p.session_id == match last_value(args, "--session-id"@, i) {
        Some(v) => uuid_of(v),
        None => o.session_id,
    }
}

proof fn lemma_flags_differ(a: Seq<char>)
    ensures
        a == "--display"@ ==> a != "--server-url"@ && a != "--agent-token"@ && a != "--tls-cert"@ && a
            != "--encoder"@ && a != "--gpu-driver"@ && a != "--backend"@ && !takes_number(a) && a
            != "--session-id"@,
        a == "--server-url"@ ==> a != "--agent-token"@ && a != "--tls-cert"@ && a != "--encoder"@ && a
            != "--gpu-driver"@ && a != "--backend"@ && !takes_number(a) && a != "--session-id"@,
        a == "--agent-token"@ ==> a != "--tls-cert"@ && a != "--encoder"@ && a != "--gpu-driver"@ && a
            != "--backend"@ && !takes_number(a) && a != "--session-id"@,
        a == "--tls-cert"@ ==> a != "--encoder"@ && a != "--gpu-driver"@ && a != "--backend"@
            && !takes_number(a) && a != "--session-id"@,
        a == "--encoder"@ ==> a != "--gpu-driver"@ && a != "--backend"@ && !takes_number(a) && a
            != "--session-id"@,
        a == "--gpu-driver"@ ==> a != "--backend"@ && !takes_number(a) && a != "--session-id"@,
        a == "--backend"@ ==> !takes_number(a) && a != "--session-id"@,
        a == "--session-id"@ ==> !takes_number(a),
        a == "--width"@ ==> a != "--height"@ && a != "--framerate"@ && a != "--bitrate"@ && a
            != "--max-width"@ && a != "--max-height"@ && a != "--display-start"@,
        a == "--height"@ ==> a != "--framerate"@ && a != "--bitrate"@ && a != "--max-width"@ && a
            != "--max-height"@ && a != "--display-start"@,
        a == "--framerate"@ ==> a != "--bitrate"@ && a != "--max-width"@ && a != "--max-height"@ && a
            != "--display-start"@,
        a == "--bitrate"@ ==> a != "--max-width"@ && a != "--max-height"@ && a != "--display-start"@,
        a == "--max-width"@ ==> a != "--max-height"@ && a != "--display-start"@,
        a == "--max-height"@ ==> a != "--display-start"@,
        a == "-V"@ || a == "--version"@ || a == "-h"@ || a == "--help"@ ==> !takes_value(a),
        a == "-V"@ || a == "--version"@ ==> a != "-h"@ && a != "--help"@,
{
    reveal_strlit("-V");
    reveal_strlit("--version");
    reveal_strlit("-h");
    reveal_strlit("--help");
    reveal_strlit("--display");
    reveal_strlit("--server-url");
    reveal_strlit("--session-id");
    reveal_strlit("--agent-token");
    reveal_strlit("--tls-cert");
    reveal_strlit("--encoder");
    reveal_strlit("--gpu-driver");
    reveal_strlit("--backend");
    reveal_strlit("--width");
    reveal_strlit("--height");
    reveal_strlit("--framerate");
    reveal_strlit("--bitrate");
    reveal_strlit("--max-width");
    reveal_strlit("--max-height");
    reveal_strlit("--display-start");
    assert("-V"@.len() == 2 && "-V"@[1] == 'V');
    assert("--version"@.len() == 9 && "--version"@[2] == 'v' && "--version"@[3] == 'e' && "--version"@[4] == 'r');
    assert("-h"@.len() == 2 && "-h"@[1] == 'h');
    assert("--help"@.len() == 6);
    assert("--display"@.len() == 9 && "--display"@[2] == 'd' && "--display"@[3] == 'i' && "--display"@[4] == 's');
    assert("--server-url"@.len() == 12 && "--server-url"@[2] == 's' && "--server-url"@[3] == 'e' && "--server-url"@[4] == 'r');
    assert("--session-id"@.len() == 12 && "--session-id"@[2] == 's' && "--session-id"@[3] == 'e' && "--session-id"@[4] == 's');
    assert("--agent-token"@.len() == 13);
    assert("--tls-cert"@.len() == 10);
    assert("--encoder"@.len() == 9 && "--encoder"@[2] == 'e' && "--encoder"@[3] == 'n' && "--encoder"@[4] == 'c');
    assert("--gpu-driver"@.len() == 12 && "--gpu-driver"@[2] == 'g' && "--gpu-driver"@[3] == 'p' && "--gpu-driver"@[4] == 'u');
    assert("--backend"@.len() == 9 && "--backend"@[2] == 'b' && "--backend"@[3] == 'a' && "--backend"@[4] == 'c');
    assert("--width"@.len() == 7);
    assert("--height"@.len() == 8);
    assert("--framerate"@.len() == 11 && "--framerate"@[2] == 'f' && "--framerate"@[3] == 'r' && "--framerate"@[4] == 'a');
    assert("--bitrate"@.len() == 9 && "--bitrate"@[2] == 'b' && "--bitrate"@[3] == 'i' && "--bitrate"@[4] == 't');
    assert("--max-width"@.len() == 11 && "--max-width"@[2] == 'm' && "--max-width"@[3] == 'a' && "--max-width"@[4] == 'x');
    assert("--max-height"@.len() == 12 && "--max-height"@[2] == 'm' && "--max-height"@[3] == 'a' && "--max-height"@[4] == 'x');
    assert("--display-start"@.len() == 15);
}

proof fn lemma_as_given(o: OptionsView, args: Seq<Seq<char>>, i: int)
    requires
        i >= 0,
        scanned(o, args, i) is Run,
    ensures
        scanned(o, args, i) matches Outcome::Run(p) && as_given(p, o, args, i),
    decreases args.len() - i,
{
    if i < args.len() {
        lemma_flags_differ(args[i]);
        assert(takes_value(args[i]));
        assert(i + 1 < args.len());
        match with_option(o, args[i], args[i + 1]) {
            Ok(next) => {
                lemma_as_given(next, args, i + 2);
            },
            Err(_) => {},
        }
    }
}

/// The options are those of the command line, of each the one that was given last; where one was
/// not given, it is `:0`, 1920 by 1080, 120 frames per second, 100000 kbit/s, at most 3840 by 2160,
/// the driver `auto`, the first display 10, and the token of the environment.
pub proof fn options_are_as_given(
    args: &Vec<String>,
    env_token: Option<String>,
    os_release: &str,
    r: Result<Invocation, String>,
    a: Args,
    backend: String,
    setting: &str,
)
    requires
        call_ensures(parse_args, (args, env_token, os_release), r),
        r == Ok::<Invocation, String>(Invocation::Run(a)),
        setting@ == given_or(last_value(texts(args@), "--backend"@, 1), "auto"@),
        call_ensures(resolve_backend, (setting, os_release), backend),
    ensures
        ({
            let t = texts(args@);
            &&& a.display@ == given_or(last_value(t, "--display"@, 1), ":0"@)
            &&& a.server_url@ == given_or(last_value(t, "--server-url"@, 1), Seq::empty())
            &&& a.width == number_or(last_value(t, "--width"@, 1), 1920)
            &&& a.height == number_or(last_value(t, "--height"@, 1), 1080)
            &&& a.framerate == number_or(last_value(t, "--framerate"@, 1), 120)
            &&& a.bitrate == number_or(last_value(t, "--bitrate"@, 1), 100_000)
            &&& a.max_width == number_or(last_value(t, "--max-width"@, 1), 3840)
            &&& a.max_height == number_or(last_value(t, "--max-height"@, 1), 2160)
            &&& a.display_start == number_or(last_value(t, "--display-start"@, 1), 10)
            &&& a.gpu_driver@ == given_or(last_value(t, "--gpu-driver"@, 1), "auto"@)
            &&& opt_text(a.encoder) == last_value(t, "--encoder"@, 1)
            &&& opt_text(a.tls_cert_path) == last_value(t, "--tls-cert"@, 1)
            &&& opt_text(a.agent_token) == given_or_before(
                last_value(t, "--agent-token"@, 1),
                opt_text(env_token),
            )
            &&& last_value(t, "--session-id"@, 1) matches Some(v) && uuid_of(v) == Some(
                a.session_id,
            )
            &&& a.backend@ == backend@
        }),
{
    let t = texts(args@);
    lemma_as_given(default_options(), t, 1);
}

/// Whether the arguments from a place on are flags, each with a value that it takes.
pub open spec fn in_order(args: Seq<Seq<char>>, i: int) -> bool
    decreases args.len() - i,
{
    i >= args.len() || (i + 1 < args.len() && is_pair(args[i], args[i + 1]) && in_order(args, i + 2))
}

/// Whether a flag is one that takes a value, and the value one that it takes: an identifier, a
/// number below 2^32, or any text.
pub open spec fn is_pair(flag: Seq<char>, value: Seq<char>) -> bool {
    ||| flag == "--session-id"@ && uuid_of(value) is Some
    ||| (flag == "--width"@ || flag == "--height"@ || flag == "--framerate"@ || flag == "--bitrate"@
        || flag == "--max-width"@ || flag == "--max-height"@ || flag == "--display-start"@)
        && unsigned(value, 4_294_967_295) is Some
    ||| flag == "--display"@ || flag == "--server-url"@ || flag == "--agent-token"@ || flag
        == "--tls-cert"@ || flag == "--encoder"@ || flag == "--gpu-driver"@ || flag == "--backend"@
}

proof fn lemma_in_order(o: OptionsView, args: Seq<Seq<char>>, i: int)
    ensures
        scanned(o, args, i) is Run <==> in_order(args, i),
    decreases args.len() - i,
{
    if i < args.len() {
        lemma_flags_differ(args[i]);
        if i + 1 < args.len() && takes_value(args[i]) {
            match with_option(o, args[i], args[i + 1]) {
                Ok(next) => {
                    lemma_in_order(next, args, i + 2);
                },
                Err(_) => {},
            }
        }
    }
}

/// The agent runs exactly where its arguments are flags with values that they take, and one of them
/// names the session.
pub proof fn command_lines_are_checked(
    args: &Vec<String>,
    env_token: Option<String>,
    os_release: &str,
    r: Result<Invocation, String>,
)
    requires
        call_ensures(parse_args, (args, env_token, os_release), r),
    ensures
        (r matches Ok(i) && i is Run) <==> in_order(texts(args@), 1) && last_value(
            texts(args@),
            "--session-id"@,
            1,
        ) is Some,
        args@.len() >= 2 && (args@[1]@ == "-V"@ || args@[1]@ == "--version"@) ==> (r matches Ok(i)
            && i is Version),
        args@.len() >= 2 && (args@[1]@ == "-h"@ || args@[1]@ == "--help"@) ==> (r matches Ok(i)
            && i is Help),
{
    let t = texts(args@);
    lemma_in_order(default_options(), t, 1);
    if in_order(t, 1) {
        lemma_as_given(default_options(), t, 1);
        lemma_last_session(t, 1);
    }
    if args@.len() >= 2 {
        assert(t[1] == args@[1]@);
        lemma_flags_differ(t[1]);
    }
}

proof fn lemma_last_session(args: Seq<Seq<char>>, i: int)
    requires
        in_order(args, i),
    ensures
        last_value(args, "--session-id"@, i) matches Some(v) ==> uuid_of(v) is Some,
    decreases args.len() - i,
{
    if i + 1 < args.len() {
        lemma_last_session(args, i + 2);
        lemma_flags_differ(args[i]);
    }
}

/// Whether the arguments from a place on up to another are flags, each with a value that it takes.
pub open spec fn in_order_until(args: Seq<Seq<char>>, i: int, k: int) -> bool
    decreases k - i,
{
    i == k || (i + 2 <= k && i + 1 < args.len() && is_pair(args[i], args[i + 1]) && in_order_until(
        args,
        i + 2,
        k,
    ))
}

/// Whether a flag takes a number.
pub open spec fn wants_number(flag: Seq<char>) -> bool {
    flag == "--width"@ || flag == "--height"@ || flag == "--framerate"@ || flag == "--bitrate"@
        || flag == "--max-width"@ || flag == "--max-height"@ || flag == "--display-start"@
}

/// Whether a flag takes any text.
pub open spec fn wants_text(flag: Seq<char>) -> bool {
    flag == "--display"@ || flag == "--server-url"@ || flag == "--agent-token"@ || flag
        == "--tls-cert"@ || flag == "--encoder"@ || flag == "--gpu-driver"@ || flag == "--backend"@
}

proof fn lemma_scanned_until(o: OptionsView, args: Seq<Seq<char>>, i: int, k: int) -> (p: OptionsView)
    requires
        0 <= i,
        in_order_until(args, i, k),
    ensures
        scanned(o, args, i) == scanned(p, args, k),
    decreases k - i,
{
    if i == k {
        o
    } else {
        lemma_flags_differ(args[i]);
        match with_option(o, args[i], args[i + 1]) {
            Ok(next) => lemma_scanned_until(next, args, i + 2, k),
            Err(_) => o,
        }
    }
}

/// The first argument that is not in order decides: it asks for the version or for help, it is not
/// known, it has no value, or its value is not one that it takes, and is told so. Where all are in
/// order but none names the session, that is told.
pub proof fn the_first_odd_argument_decides(
    args: &Vec<String>,
    env_token: Option<String>,
    os_release: &str,
    r: Result<Invocation, String>,
    k: int,
)
    requires
        call_ensures(parse_args, (args, env_token, os_release), r),
        1 <= k <= args@.len(),
        in_order_until(texts(args@), 1, k),
    ensures
        k < args@.len() ==> {
            let a = args@[k]@;
            let known = a == "--session-id"@ || wants_number(a) || wants_text(a);
            &&& a == "-V"@ || a == "--version"@ ==> (r matches Ok(i) && i is Version)
            &&& a == "-h"@ || a == "--help"@ ==> (r matches Ok(i) && i is Help)
            &&& a != "-V"@ && a != "--version"@ && a != "-h"@ && a != "--help"@ && !known ==> (
            r matches Err(e) && e@ == "Unknown argument: "@ + a)
            &&& known && k + 1 >= args@.len() ==> (r matches Err(e) && e@ == "Missing "@ + a
                + " value"@)
            &&& k + 1 < args@.len() && a == "--session-id"@ && uuid_of(args@[k + 1]@) is None ==> (
            r matches Err(e) && e@ == "Invalid session-id UUID"@)
            &&& k + 1 < args@.len() && wants_number(a) && unsigned(args@[k + 1]@, 4_294_967_295) is None
                ==> (r matches Err(e) && e@ == "Invalid "@ + a + " value"@)
        },
        k == args@.len() && last_value(texts(args@), "--session-id"@, 1) is None ==> (r matches Err(e)
            && e@ == "--session-id is required"@),
{
    let t = texts(args@);
    let p = lemma_scanned_until(default_options(), t, 1, k);
    if k < args@.len() {
        assert(t[k] == args@[k]@);
        lemma_flags_differ(t[k]);
        if k + 1 < args@.len() {
            assert(t[k + 1] == args@[k + 1]@);
        }
    } else {
        assert(scanned(default_options(), t, 1) == Outcome::Run(p));
        lemma_as_given(default_options(), t, 1);
    }
}

} // verus!
