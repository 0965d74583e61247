//! The configuration of the server: its sections, their defaults, and what is wrong with it.
use crate::text::{
    begins, chars_of, decimal, decimal_u32, decimal_u64, text_eq, texts, trim, trimmed,
};
use vstd::prelude::*;
use vstd::string::*;

verus! {

/// The whole configuration.
#[derive(Debug, Clone)]
pub struct BeamConfig {
    pub server: ServerConfig,
    pub video: VideoConfig,
    pub audio: AudioConfig,
    pub session: SessionConfig,
}

/// How the server is reached.
#[derive(Debug, Clone)]
pub struct ServerConfig {
    /// The address to listen on.
    pub bind: String,
    /// The HTTPS port.
    pub port: u16,
    /// The public name of the host. With a custom certificate, agents connect by this name in
    /// place of the loopback address, so that the certificate matches.
    pub hostname: Option<String>,
    /// The path of the TLS certificate; one is made where there is none.
    pub tls_cert: Option<String>,
    /// The path of the TLS key; one is made where there is none.
    pub tls_key: Option<String>,
    /// The secret that signs web tokens; one is made where there is none.
    pub jwt_secret: Option<String>,
    /// The path of the web client's files.
    pub web_root: String,
    /// Whether the metrics are for authenticated clients only.
    pub metrics_require_auth: bool,
    /// The users with access to the admin panel, which is off where there are none.
    pub admin_users: Vec<String>,
}

/// How the screen is encoded.
#[derive(Debug, Clone)]
pub struct VideoConfig {
    /// The bitrate to aim at, in kbit/s.
    pub bitrate: u32,
    /// The least bitrate to adapt to, in kbit/s.
    pub min_bitrate: u32,
    /// The greatest bitrate to adapt to, in kbit/s.
    pub max_bitrate: u32,
    /// The frames per second to aim at.
    pub framerate: u32,
    /// The encoder to use: `nvh264enc`, `vah264enc` or `x264enc`.
    pub encoder: Option<String>,
    /// The greatest width; 0 for no limit.
    pub max_width: u32,
    /// The greatest height; 0 for no limit.
    pub max_height: u32,
}

/// How sound is encoded.
#[derive(Debug, Clone)]
pub struct AudioConfig {
    /// Whether sound is streamed.
    pub enabled: bool,
    /// The Opus bitrate, in kbit/s.
    pub bitrate: u32,
}

/// How sessions start and end.
#[derive(Debug, Clone)]
pub struct SessionConfig {
    pub default_width: u32,
    pub default_height: u32,
    /// The first display number.
    pub display_start: u32,
    /// How many sessions can run at once.
    pub max_sessions: u32,
    /// After how many seconds without activity a session ends; 0 for never.
    pub idle_timeout: u64,
    /// The driver of virtual displays: `auto`, `nvidia` or `dummy`.
    pub gpu_driver: String,
    /// The display backend: `auto`, `xorg` or `wayland`.
    pub backend: String,
}

/// Where the web client lies.
pub fn default_web_root() -> (r: String)
    ensures
        r@ == "web/dist"@,
{
    "web/dist".to_owned()
}

/// The address to listen on.
pub fn default_bind() -> (r: String)
    ensures
        r@ == "0.0.0.0"@,
{
    "0.0.0.0".to_owned()
}

/// The HTTPS port.
pub fn default_port() -> (r: u16)
    ensures
        r == 8444,
{
    8444
}

/// The video bitrate, in kbit/s.
pub fn default_bitrate() -> (r: u32)
    ensures
        r == 50000,
{
    50000
}

/// The least video bitrate, in kbit/s.
pub fn default_min_bitrate() -> (r: u32)
    ensures
        r == 2000,
{
    2000
}

/// The greatest video bitrate, in kbit/s.
pub fn default_max_bitrate() -> (r: u32)
    ensures
        r == 100000,
{
    100000
}

/// The frames per second.
pub fn default_framerate() -> (r: u32)
    ensures
        r == 120,
{
    120
}

/// The greatest width.
pub fn default_max_width() -> (r: u32)
    ensures
        r == 3840,
{
    3840
}

/// The greatest height.
pub fn default_max_height() -> (r: u32)
    ensures
        r == 2160,
{
    2160
}

/// What a switch that is on by default is.
pub fn default_true() -> (r: bool)
    ensures
        r == true,
{
    true
}

/// The Opus bitrate, in kbit/s.
pub fn default_audio_bitrate() -> (r: u32)
    ensures
        r == 128,
{
    128
}

/// The width of a session.
pub fn default_width() -> (r: u32)
    ensures
        r == 1920,
{
    1920
}

/// The height of a session.
pub fn default_height() -> (r: u32)
    ensures
        r == 1080,
{
    1080
}

/// The first display number.
pub fn default_display_start() -> (r: u32)
    ensures
        r == 10,
{
    10
}

/// How many sessions can run at once.
pub fn default_max_sessions() -> (r: u32)
    ensures
        r == 8,
{
    8
}

/// The idle seconds after which a session ends: one hour.
pub fn default_idle_timeout() -> (r: u64)
    ensures
        r == 3600,
{
    3600
}

/// The driver of virtual displays.
pub fn default_gpu_driver() -> (r: String)
    ensures
        r@ == "auto"@,
{
    "auto".to_owned()
}

/// The display backend.
pub fn default_backend() -> (r: String)
    ensures
        r@ == "auto"@,
{
    "auto".to_owned()
}

/// The server section where nothing is set.
pub open spec fn is_default_server(s: ServerConfig) -> bool {
    &&& s.bind@ == "0.0.0.0"@
    &&& s.port == 8444
    &&& s.hostname is None
    &&& s.tls_cert is None
    &&& s.tls_key is None
    &&& s.jwt_secret is None
    &&& s.web_root@ == "web/dist"@
    &&& s.metrics_require_auth
    &&& s.admin_users@.len() == 0
}

/// The video section where nothing is set.
pub open spec fn is_default_video(v: VideoConfig) -> bool {
    &&& v.bitrate == 50000
    &&& v.min_bitrate == 2000
    &&& v.max_bitrate == 100000
    &&& v.framerate == 120
    &&& v.encoder is None
    &&& v.max_width == 3840
    &&& v.max_height == 2160
}

/// The audio section where nothing is set.
pub open spec fn is_default_audio(a: AudioConfig) -> bool {
    a.enabled && a.bitrate == 128
}

/// The session section where nothing is set.
pub open spec fn is_default_session(s: SessionConfig) -> bool {
    &&& s.default_width == 1920
    &&& s.default_height == 1080
    &&& s.display_start == 10
    &&& s.max_sessions == 8
    &&& s.idle_timeout == 3600
    &&& s.gpu_driver@ == "auto"@
    &&& s.backend@ == "auto"@
}

/// The configuration where nothing is set.
pub open spec fn is_default(c: BeamConfig) -> bool {
    &&& is_default_server(c.server)
    &&& is_default_video(c.video)
    &&& is_default_audio(c.audio)
    &&& is_default_session(c.session)
}

impl Default for ServerConfig {
    fn default() -> (r: Self)
        ensures
            is_default_server(r),
    {
        ServerConfig {
            bind: default_bind(),
            port: default_port(),
            hostname: None,
            tls_cert: None,
            tls_key: None,
            jwt_secret: None,
            web_root: default_web_root(),
            metrics_require_auth: true,
            admin_users: Vec::new(),
        }
    }
}

impl Default for VideoConfig {
    fn default() -> (r: Self)
        ensures
            is_default_video(r),
    {
        VideoConfig {
            bitrate: default_bitrate(),
            min_bitrate: default_min_bitrate(),
            max_bitrate: default_max_bitrate(),
            framerate: default_framerate(),
            encoder: None,
            max_width: default_max_width(),
            max_height: default_max_height(),
        }
    }
}

impl Default for AudioConfig {
    fn default() -> (r: Self)
        ensures
            is_default_audio(r),
    {
        AudioConfig { enabled: true, bitrate: default_audio_bitrate() }
    }
}

impl Default for SessionConfig {
    fn default() -> (r: Self)
        ensures
            is_default_session(r),
    {
        SessionConfig {
            default_width: default_width(),
            default_height: default_height(),
            display_start: default_display_start(),
            max_sessions: default_max_sessions(),
            idle_timeout: default_idle_timeout(),
            gpu_driver: default_gpu_driver(),
            backend: default_backend(),
        }
    }
}

// ---------------------------------------------------------------------------
// What a configuration file sets
// ---------------------------------------------------------------------------

/// What a file sets of the server section.
pub struct ServerSection {
    pub bind: Option<String>,
    pub port: Option<u16>,
    pub hostname: Option<String>,
    pub tls_cert: Option<String>,
    pub tls_key: Option<String>,
    pub jwt_secret: Option<String>,
    pub web_root: Option<String>,
    pub metrics_require_auth: Option<bool>,
    pub admin_users: Option<Vec<String>>,
}

/// What a file sets of the video section.
pub struct VideoSection {
    pub bitrate: Option<u32>,
    pub min_bitrate: Option<u32>,
    pub max_bitrate: Option<u32>,
    pub framerate: Option<u32>,
    pub encoder: Option<String>,
    pub max_width: Option<u32>,
    pub max_height: Option<u32>,
}

/// What a file sets of the audio section.
pub struct AudioSection {
    pub enabled: Option<bool>,
    pub bitrate: Option<u32>,
}

/// What a file sets of the session section.
pub struct SessionSection {
    pub default_width: Option<u32>,
    pub default_height: Option<u32>,
    pub display_start: Option<u32>,
    pub max_sessions: Option<u32>,
    pub idle_timeout: Option<u64>,
    pub gpu_driver: Option<String>,
    pub backend: Option<String>,
}

/// What a file sets, section by section.
pub struct ConfigFile {
    pub server: Option<ServerSection>,
    pub video: Option<VideoSection>,
    pub audio: Option<AudioSection>,
    pub session: Option<SessionSection>,
}

/// The text that is set, or the default.
pub open spec fn text_or(o: Option<String>, default: Seq<char>) -> Seq<char> {
    match o {
        Some(t) => t@,
        None => default,
    }
}

/// The value that is set, or the default.
pub open spec fn value_or<T>(o: Option<T>, default: T) -> T {
    match o {
        Some(t) => t,
        None => default,
    }
}

/// The list that is set, or none.
pub open spec fn list_or_none(o: Option<Vec<String>>) -> Seq<String> {
    match o {
        Some(v) => v@,
        None => Seq::empty(),
    }
}

impl ServerSection {
    /// The server section with the defaults where the file sets nothing.
    pub fn filled(self) -> (r: ServerConfig)
        ensures
            r.bind@ == text_or(self.bind, "0.0.0.0"@),
            r.port == value_or(self.port, 8444),
            r.hostname == self.hostname,
            r.tls_cert == self.tls_cert,
            r.tls_key == self.tls_key,
            r.jwt_secret == self.jwt_secret,
            r.web_root@ == text_or(self.web_root, "web/dist"@),
            r.metrics_require_auth == value_or(self.metrics_require_auth, true),
            r.admin_users@ == list_or_none(self.admin_users),
    {
        ServerConfig {
            bind: match self.bind {
                Some(v) => v,
                None => default_bind(),
            },
            port: match self.port {
                Some(v) => v,
                None => default_port(),
            },
            hostname: self.hostname,
            tls_cert: self.tls_cert,
            tls_key: self.tls_key,
            jwt_secret: self.jwt_secret,
            web_root: match self.web_root {
                Some(v) => v,
                None => default_web_root(),
            },
            metrics_require_auth: match self.metrics_require_auth {
                Some(v) => v,
                None => default_true(),
            },
            admin_users: match self.admin_users {
                Some(v) => v,
                None => Vec::new(),
            },
        }
    }
}

impl VideoSection {
    /// The video section with the defaults where the file sets nothing.
    pub fn filled(self) -> (r: VideoConfig)
        ensures
            r.bitrate == value_or(self.bitrate, 50000),
            r.min_bitrate == value_or(self.min_bitrate, 2000),
            r.max_bitrate == value_or(self.max_bitrate, 100000),
            r.framerate == value_or(self.framerate, 120),
            r.encoder == self.encoder,
            r.max_width == value_or(self.max_width, 3840),
            r.max_height == value_or(self.max_height, 2160),
    {
        VideoConfig {
            bitrate: match self.bitrate {
                Some(v) => v,
                None => default_bitrate(),
            },
            min_bitrate: match self.min_bitrate {
                Some(v) => v,
                None => default_min_bitrate(),
            },
            max_bitrate: match self.max_bitrate {
                Some(v) => v,
                None => default_max_bitrate(),
            },
            framerate: match self.framerate {
                Some(v) => v,
                None => default_framerate(),
            },
            encoder: self.encoder,
            max_width: match self.max_width {
                Some(v) => v,
                None => default_max_width(),
            },
            max_height: match self.max_height {
                Some(v) => v,
                None => default_max_height(),
            },
        }
    }
}

impl AudioSection {
    /// The audio section with the defaults where the file sets nothing.
    pub fn filled(self) -> (r: AudioConfig)
        ensures
            r.enabled == value_or(self.enabled, true),
            r.bitrate == value_or(self.bitrate, 128),
    {
        AudioConfig {
            enabled: match self.enabled {
                Some(v) => v,
                None => default_true(),
            },
            bitrate: match self.bitrate {
                Some(v) => v,
                None => default_audio_bitrate(),
            },
        }
    }
}

impl SessionSection {
    /// The session section with the defaults where the file sets nothing.
    pub fn filled(self) -> (r: SessionConfig)
        ensures
            r.default_width == value_or(self.default_width, 1920),
            r.default_height == value_or(self.default_height, 1080),
            r.display_start == value_or(self.display_start, 10),
            r.max_sessions == value_or(self.max_sessions, 8),
            r.idle_timeout == value_or(self.idle_timeout, 3600),
            r.gpu_driver@ == text_or(self.gpu_driver, "auto"@),
            r.backend@ == text_or(self.backend, "auto"@),
    {
        SessionConfig {
            default_width: match self.default_width {
                Some(v) => v,
                None => default_width(),
            },
            default_height: match self.default_height {
                Some(v) => v,
                None => default_height(),
            },
            display_start: match self.display_start {
                Some(v) => v,
                None => default_display_start(),
            },
            max_sessions: match self.max_sessions {
                Some(v) => v,
                None => default_max_sessions(),
            },
            idle_timeout: match self.idle_timeout {
                Some(v) => v,
                None => default_idle_timeout(),
            },
            gpu_driver: match self.gpu_driver {
                Some(v) => v,
                None => default_gpu_driver(),
            },
            backend: match self.backend {
                Some(v) => v,
                None => default_backend(),
            },
        }
    }
}

/// Whether `r` is the configuration that a file sets: each section that it has, filled, and the
/// defaults for the others.
pub open spec fn is_filled(f: ConfigFile, r: BeamConfig) -> bool {
    &&& match f.server {
        Some(s) => {
            &&& r.server.bind@ == text_or(s.bind, "0.0.0.0"@)
            &&& r.server.port == value_or(s.port, 8444)
            &&& r.server.hostname == s.hostname
            &&& r.server.tls_cert == s.tls_cert
            &&& r.server.tls_key == s.tls_key
            &&& r.server.jwt_secret == s.jwt_secret
            &&& r.server.web_root@ == text_or(s.web_root, "web/dist"@)
            &&& r.server.metrics_require_auth == value_or(s.metrics_require_auth, true)
            &&& r.server.admin_users@ == list_or_none(s.admin_users)
        },
        None => is_default_server(r.server),
    }
    &&& match f.video {
        Some(v) => {
            &&& r.video.bitrate == value_or(v.bitrate, 50000)
            &&& r.video.min_bitrate == value_or(v.min_bitrate, 2000)
            &&& r.video.max_bitrate == value_or(v.max_bitrate, 100000)
            &&& r.video.framerate == value_or(v.framerate, 120)
            &&& r.video.encoder == v.encoder
            &&& r.video.max_width == value_or(v.max_width, 3840)
            &&& r.video.max_height == value_or(v.max_height, 2160)
        },
        None => is_default_video(r.video),
    }
    &&& match f.audio {
        Some(a) => r.audio.enabled == value_or(a.enabled, true) && r.audio.bitrate == value_or(
            a.bitrate,
            128,
        ),
        None => is_default_audio(r.audio),
    }
    &&& match f.session {
        Some(s) => {
            &&& r.session.default_width == value_or(s.default_width, 1920)
            &&& r.session.default_height == value_or(s.default_height, 1080)
            &&& r.session.display_start == value_or(s.display_start, 10)
            &&& r.session.max_sessions == value_or(s.max_sessions, 8)
            &&& r.session.idle_timeout == value_or(s.idle_timeout, 3600)
            &&& r.session.gpu_driver@ == text_or(s.gpu_driver, "auto"@)
            &&& r.session.backend@ == text_or(s.backend, "auto"@)
        },
        None => is_default_session(r.session),
    }
}

impl ConfigFile {
    /// The configuration that the file sets, with the defaults where it sets nothing.
    pub fn filled(self) -> (r: BeamConfig)
        ensures
            is_filled(self, r),
    {
        BeamConfig {
            server: match self.server {
                Some(s) => s.filled(),
                None => ServerConfig::default(),
            },
            video: match self.video {
                Some(v) => v.filled(),
                None => VideoConfig::default(),
            },
            audio: match self.audio {
                Some(a) => a.filled(),
                None => AudioConfig::default(),
            },
            session: match self.session {
                Some(s) => s.filled(),
                None => SessionConfig::default(),
            },
        }
    }
}

/// A file that sets nothing gives the default configuration.
pub proof fn empty_file_gives_the_defaults(f: ConfigFile, r: BeamConfig)
    requires
        f.server is None,
        f.video is None,
        f.audio is None,
        f.session is None,
        is_filled(f, r),
    ensures
        is_default(r),
{
}

// ---------------------------------------------------------------------------
// What is wrong with a configuration
// ---------------------------------------------------------------------------

/// The one issue `text` where `cond` holds, and none where it does not.
pub open spec fn when(cond: bool, text: Seq<char>) -> Seq<Seq<char>> {
    if cond {
        seq![text]
    } else {
        Seq::empty()
    }
}

/// How an issue about a TLS file goes on behind the file's name.
pub open spec fn missing_file_hint() -> Seq<char> {
    "' does not exist. Generate with: openssl req -x509 -newkey rsa:4096 -keyout key.pem -out cert.pem -days 365 -nodes"@
}

/// The issues with the certificate and the key, given whether each of the files exists.
pub open spec fn tls_issues(s: ServerConfig, cert_exists: bool, key_exists: bool) -> Seq<
    Seq<char>,
> {
    match (s.tls_cert, s.tls_key) {
        (Some(cert), Some(key)) => when(
            !cert_exists,
            "ERROR: tls_cert '"@ + cert@ + missing_file_hint(),
        ) + when(!key_exists, "ERROR: tls_key '"@ + key@ + missing_file_hint()),
        (Some(_), None) => seq![
            "WARNING: tls_cert is set but tls_key is not. Both must be set for custom TLS, or omit both for auto-generated certificates."@,
        ],
        (None, Some(_)) => seq![
            "WARNING: tls_key is set but tls_cert is not. Both must be set for custom TLS, or omit both for auto-generated certificates."@,
        ],
        (None, None) => Seq::empty(),
    }
}

/// The issue with the port.
pub open spec fn port_issues(s: ServerConfig) -> Seq<Seq<char>> {
    when(s.port == 0, "ERROR: server.port must be between 1 and 65535, got 0."@)
}

/// The issues with the video section.
pub open spec fn video_issues(v: VideoConfig) -> Seq<Seq<char>> {
    when(
        v.bitrate > 200_000,
        "WARNING: video.bitrate is "@ + decimal(v.bitrate as nat) + " kbps ("@ + decimal(
            (v.bitrate / 1000) as nat,
        )
            + " Mbps) — this is unusually high and may indicate a misconfiguration. Typical values: 20000-100000 kbps."@,
    ) + when(
        v.framerate == 0 || v.framerate > 240,
        "ERROR: video.framerate must be between 1 and 240, got "@ + decimal(v.framerate as nat)
            + "."@,
    ) + when(
        v.max_width != 0 && v.max_width < 320,
        "ERROR: video.max_width must be 0 (unlimited) or at least 320, got "@ + decimal(
            v.max_width as nat,
        ) + "."@,
    ) + when(
        v.max_height != 0 && v.max_height < 240,
        "ERROR: video.max_height must be 0 (unlimited) or at least 240, got "@ + decimal(
            v.max_height as nat,
        ) + "."@,
    )
}

/// Whether `d` names a driver of virtual displays.
pub open spec fn is_gpu_driver(d: Seq<char>) -> bool {
    d == "auto"@ || d == "nvidia"@ || d == "dummy"@
}

/// Whether `b` names a backend.
pub open spec fn is_backend(b: Seq<char>) -> bool {
    b == "auto"@ || b == "xorg"@ || b == "wayland"@
}

/// The issues with the session section.
pub open spec fn session_issues(s: SessionConfig) -> Seq<Seq<char>> {
    when(
        s.display_start == 0,
        "ERROR: session.display_start must be >= 1. Display :0 is typically the local console."@,
    ) + when(
        !is_gpu_driver(s.gpu_driver@),
        "WARNING: session.gpu_driver '"@ + s.gpu_driver@
            + "' is not recognized. Valid values: auto, nvidia, dummy. Defaulting to auto."@,
    ) + when(
        !is_backend(s.backend@),
        "WARNING: session.backend '"@ + s.backend@
            + "' is not recognized. Valid values: auto, xorg, wayland. Defaulting to auto."@,
    ) + when(s.max_sessions == 0, "ERROR: session.max_sessions must be >= 1."@) + when(
        0 < s.idle_timeout < 60,
        "ERROR: session.idle_timeout must be 0 (disabled) or at least 60 seconds, got "@ + decimal(
            s.idle_timeout as nat,
        ) + ". Values under 60s will disconnect users too aggressively."@,
    )
}

/// Whether `c` is a letter or a digit of ASCII.
pub open spec fn is_ascii_alnum(c: char) -> bool {
    '0' <= c <= '9' || 'a' <= c <= 'z' || 'A' <= c <= 'Z'
}

/// Whether every character of `u` can stand in the name of a user.
pub open spec fn is_username(u: Seq<char>) -> bool {
    forall|i: int|
        0 <= i < u.len() ==> {
            let c = #[trigger] u[i];
            is_ascii_alnum(c) || c == '_' || c == '-' || c == '.'
        }
}

/// The issues with one admin user.
pub open spec fn user_issues(u: Seq<char>) -> Seq<Seq<char>> {
    when(
        trimmed(u) != u,
        "WARNING: admin_users entry '"@ + u
            + "' has leading/trailing whitespace. This will never match a login username. Did you mean '"@
            + trimmed(u) + "'?"@,
    ) + if u.len() == 0 {
        seq!["WARNING: admin_users contains an empty string. This entry will never match."@]
    } else {
        when(
            !is_username(u),
            "WARNING: admin_users entry '"@ + u
                + "' contains characters not allowed in usernames (only a-z, 0-9, _, -, . are valid). This entry will never match."@,
        )
    }
}

/// The issues with all admin users, in their order.
pub open spec fn admin_issues(users: Seq<String>) -> Seq<Seq<char>>
    decreases users.len(),
{
    if users.len() == 0 {
        Seq::empty()
    } else {
        admin_issues(users.drop_last()) + user_issues(users.last()@)
    }
}

/// All issues with a configuration, given whether the files of its certificate and key exist.
pub open spec fn issues_of(c: BeamConfig, cert_exists: bool, key_exists: bool) -> Seq<Seq<char>> {
    tls_issues(c.server, cert_exists, key_exists) + port_issues(c.server) + video_issues(c.video)
        + session_issues(c.session) + admin_issues(c.server.admin_users@)
}

/// Whether a result reports exactly these issues.
pub open spec fn reports(r: Result<(), Vec<String>>, issues: Seq<Seq<char>>) -> bool {
    match r {
        Ok(()) => issues.len() == 0,
        Err(found) => issues.len() > 0 && texts(found@) == issues,
    }
}

/// Calls `Path::exists` of std. Whether the file is there is up to the disk: nothing is stated
/// of the answer.
#[verifier::external_body]
fn path_exists(path: &str) -> (r: bool) {
    std::path::Path::new(path).exists()
}

fn note(issues: &mut Vec<String>, cond: bool, text: String)
    ensures
        texts(final(issues)@) == texts(old(issues)@) + when(cond, text@),
{
    if cond {
        issues.push(text);
        assert(texts(issues@) =~= texts(old(issues)@) + seq![text@]);
    } else {
        assert(texts(issues@) =~= texts(old(issues)@) + Seq::<Seq<char>>::empty());
    }
}

fn all_username_chars(u: &str) -> (r: bool)
    ensures
        r == is_username(u@),
{
    let v = chars_of(u);
    for i in 0..v.len()
        invariant
            v@ == u@,
            forall|k: int|
                0 <= k < i ==> {
                    let c = #[trigger] v@[k];
                    is_ascii_alnum(c) || c == '_' || c == '-' || c == '.'
                },
    {
        let c = v[i];
        if !(('0' <= c && c <= '9') || ('a' <= c && c <= 'z') || ('A' <= c && c <= 'Z') || c == '_'
            || c == '-' || c == '.') {
            assert(u@[i as int] == c);
            return false;
        }
    }
    true
}

impl BeamConfig {
    /// What is wrong with the configuration, given whether the files that it names for the
    /// certificate and the key exist.
    pub fn validate_with(&self, cert_exists: bool, key_exists: bool) -> (r: Result<
        (),
        Vec<String>,
    >)
        ensures
            reports(r, issues_of(*self, cert_exists, key_exists)),
    {
        let mut issues: Vec<String> = Vec::new();
        assert(texts(issues@) =~= Seq::<Seq<char>>::empty());
        self.note_tls(&mut issues, cert_exists, key_exists);
        note(
            &mut issues,
            self.server.port == 0,
            "ERROR: server.port must be between 1 and 65535, got 0.".to_owned(),
        );
        self.note_video(&mut issues);
        self.note_session(&mut issues);
        self.note_admins(&mut issues);
        assert(texts(issues@) =~= issues_of(*self, cert_exists, key_exists));
        assert(texts(issues@).len() == issues@.len());
        if issues.len() == 0 {
            Ok(())
        } else {
            Err(issues)
        }
    }

    /// The files that must exist for the configuration to be valid: that of the certificate and
    /// that of the key, where both are set.
    pub fn tls_files(&self) -> (r: Option<(&str, &str)>)
        ensures
            match (self.server.tls_cert, self.server.tls_key) {
                (Some(cert), Some(key)) => r matches Some((c, k)) && c@ == cert@ && k@ == key@,
                _ => r is None,
            },
    {
        match (&self.server.tls_cert, &self.server.tls_key) {
            (Some(cert), Some(key)) => Some((cert.as_str(), key.as_str())),
            _ => None,
        }
    }

    /// What is wrong with the configuration. Each issue begins with `ERROR:`, and the server
    /// should not start, or with `WARNING:`, and it can.
    pub fn validate(&self) -> (r: Result<(), Vec<String>>)
        ensures
            exists|cert_exists: bool, key_exists: bool|
                #![trigger issues_of(*self, cert_exists, key_exists)]
                reports(r, issues_of(*self, cert_exists, key_exists)),
            self.server.tls_cert is None || self.server.tls_key is None ==> reports(
                r,
                issues_of(*self, true, true),
            ),
    {
        let (cert_exists, key_exists) = match self.tls_files() {
            Some((cert, key)) => (path_exists(cert), path_exists(key)),
            None => (true, true),
        };
        self.validate_with(cert_exists, key_exists)
    }

    fn note_tls(&self, issues: &mut Vec<String>, cert_exists: bool, key_exists: bool)
        ensures
            texts(final(issues)@) == texts(old(issues)@) + tls_issues(
                self.server,
                cert_exists,
                key_exists,
            ),
    {
        let ghost before = texts(issues@);
        match (&self.server.tls_cert, &self.server.tls_key) {
            (Some(cert), Some(key)) => {
                let hint = "' does not exist. Generate with: openssl req -x509 -newkey rsa:4096 -keyout key.pem -out cert.pem -days 365 -nodes";
                note(
                    issues,
                    !cert_exists,
                    "ERROR: tls_cert '".to_owned().concat(cert.as_str()).concat(hint),
                );
                note(
                    issues,
                    !key_exists,
                    "ERROR: tls_key '".to_owned().concat(key.as_str()).concat(hint),
                );
                assert(texts(issues@) =~= before + tls_issues(
                    self.server,
                    cert_exists,
                    key_exists,
                ));
            },
            (Some(_), None) => {
                note(
                    issues,
                    true,
                    "WARNING: tls_cert is set but tls_key is not. Both must be set for custom TLS, or omit both for auto-generated certificates.".to_owned(),
                );
            },
            (None, Some(_)) => {
                note(
                    issues,
                    true,
                    "WARNING: tls_key is set but tls_cert is not. Both must be set for custom TLS, or omit both for auto-generated certificates.".to_owned(),
                );
            },
            (None, None) => {
                assert(before =~= before + Seq::<Seq<char>>::empty());
            },
        }
    }

    fn note_video(&self, issues: &mut Vec<String>)
        ensures
            texts(final(issues)@) == texts(old(issues)@) + video_issues(self.video),
    {
        let ghost before = texts(issues@);
        let v = &self.video;
        note(
            issues,
            v.bitrate > 200_000,
            "WARNING: video.bitrate is ".to_owned().concat(decimal_u32(v.bitrate).as_str()).concat(
                " kbps (",
            ).concat(decimal_u32(v.bitrate / 1000).as_str()).concat(
                " Mbps) — this is unusually high and may indicate a misconfiguration. Typical values: 20000-100000 kbps.",
            ),
        );
        note(
            issues,
            v.framerate == 0 || v.framerate > 240,
            "ERROR: video.framerate must be between 1 and 240, got ".to_owned().concat(
                decimal_u32(v.framerate).as_str(),
            ).concat("."),
        );
        note(
            issues,
            v.max_width != 0 && v.max_width < 320,
            "ERROR: video.max_width must be 0 (unlimited) or at least 320, got ".to_owned().concat(
                decimal_u32(v.max_width).as_str(),
            ).concat("."),
        );
        note(
            issues,
            v.max_height != 0 && v.max_height < 240,
            "ERROR: video.max_height must be 0 (unlimited) or at least 240, got ".to_owned().concat(
                decimal_u32(v.max_height).as_str(),
            ).concat("."),
        );
        assert(texts(issues@) =~= before + video_issues(*v));
    }

    fn note_session(&self, issues: &mut Vec<String>)
        ensures
            texts(final(issues)@) == texts(old(issues)@) + session_issues(self.session),
    {
        let ghost before = texts(issues@);
        let s = &self.session;
        note(
            issues,
            s.display_start == 0,
            "ERROR: session.display_start must be >= 1. Display :0 is typically the local console.".to_owned(),
        );
        let driver: &str = s.gpu_driver.as_str();
        note(
            issues,
            !(text_eq(driver, "auto") || text_eq(driver, "nvidia") || text_eq(driver, "dummy")),
            "WARNING: session.gpu_driver '".to_owned().concat(driver).concat(
                "' is not recognized. Valid values: auto, nvidia, dummy. Defaulting to auto.",
            ),
        );
        let backend: &str = s.backend.as_str();
        note(
            issues,
            !(text_eq(backend, "auto") || text_eq(backend, "xorg") || text_eq(backend, "wayland")),
            "WARNING: session.backend '".to_owned().concat(backend).concat(
                "' is not recognized. Valid values: auto, xorg, wayland. Defaulting to auto.",
            ),
        );
        note(
            issues,
            s.max_sessions == 0,
            "ERROR: session.max_sessions must be >= 1.".to_owned(),
        );
        note(
            issues,
            s.idle_timeout > 0 && s.idle_timeout < 60,
            "ERROR: session.idle_timeout must be 0 (disabled) or at least 60 seconds, got ".to_owned().concat(
                decimal_u64(s.idle_timeout).as_str(),
            ).concat(". Values under 60s will disconnect users too aggressively."),
        );
        assert(texts(issues@) =~= before + session_issues(*s));
    }

    fn note_admins(&self, issues: &mut Vec<String>)
        ensures
            texts(final(issues)@) == texts(old(issues)@) + admin_issues(self.server.admin_users@),
    {
        let users = &self.server.admin_users;
        let ghost before = texts(issues@);
        assert(users@.take(0) =~= Seq::<String>::empty());
        assert(before =~= before + Seq::<Seq<char>>::empty());
        for i in 0..users.len()
            invariant
                texts(issues@) == before + admin_issues(users@.take(i as int)),
        {
            let user: &str = users[i].as_str();
            let ghost now = texts(issues@);
            assert(users@.take(i + 1).drop_last() =~= users@.take(i as int));
            let inner = trim(user);
            note(
                issues,
                !text_eq(inner, user),
                "WARNING: admin_users entry '".to_owned().concat(user).concat(
                    "' has leading/trailing whitespace. This will never match a login username. Did you mean '",
                ).concat(inner).concat("'?"),
            );
            if user.is_empty() {
                note(
                    issues,
                    true,
                    "WARNING: admin_users contains an empty string. This entry will never match.".to_owned(),
                );
            } else {
                note(
                    issues,
                    !all_username_chars(user),
                    "WARNING: admin_users entry '".to_owned().concat(user).concat(
                        "' contains characters not allowed in usernames (only a-z, 0-9, _, -, . are valid). This entry will never match.",
                    ),
                );
            }
            assert(texts(issues@) =~= now + user_issues(user@));
            assert(texts(issues@) =~= before + admin_issues(users@.take(i + 1)));
        }
        assert(users@.take(users@.len() as int) =~= users@);
    }
}

// ---------------------------------------------------------------------------
// Laws
// ---------------------------------------------------------------------------

/// The default configuration has no issues.
pub proof fn defaults_are_valid(c: BeamConfig, cert_exists: bool, key_exists: bool)
    requires
        is_default(c),
    ensures
        issues_of(c, cert_exists, key_exists).len() == 0,
{
    assert(admin_issues(c.server.admin_users@).len() == 0);
}

/// Whether an issue is an error.
pub open spec fn is_error(issue: Seq<char>) -> bool {
    begins(issue, "ERROR:"@)
}

/// Whether an issue is a warning.
pub open spec fn is_warning(issue: Seq<char>) -> bool {
    begins(issue, "WARNING:"@)
}

/// Whether each issue is an error or a warning.
pub open spec fn well_marked(issues: Seq<Seq<char>>) -> bool {
    forall|i: int| 0 <= i < issues.len() ==> is_error(#[trigger] issues[i]) || is_warning(issues[i])
}

proof fn lemma_marked(head: Seq<char>, rest: Seq<char>)
    ensures
        is_error(head) ==> is_error(head + rest),
        is_warning(head) ==> is_warning(head + rest),
{
    if is_error(head) {
        assert((head + rest).subrange(0, "ERROR:"@.len() as int) =~= head.subrange(
            0,
            "ERROR:"@.len() as int,
        ));
    }
    if is_warning(head) {
        assert((head + rest).subrange(0, "WARNING:"@.len() as int) =~= head.subrange(
            0,
            "WARNING:"@.len() as int,
        ));
    }
}

proof fn lemma_heads()
    ensures
        is_error("ERROR: tls_cert '"@),
        is_error("ERROR: tls_key '"@),
        is_warning("WARNING: tls_cert is set but tls_key is not. Both must be set for custom TLS, or omit both for auto-generated certificates."@),
        is_warning("WARNING: tls_key is set but tls_cert is not. Both must be set for custom TLS, or omit both for auto-generated certificates."@),
        is_error("ERROR: server.port must be between 1 and 65535, got 0."@),
        is_warning("WARNING: video.bitrate is "@),
        is_error("ERROR: video.framerate must be between 1 and 240, got "@),
        is_error("ERROR: video.max_width must be 0 (unlimited) or at least 320, got "@),
        is_error("ERROR: video.max_height must be 0 (unlimited) or at least 240, got "@),
        is_error("ERROR: session.display_start must be >= 1. Display :0 is typically the local console."@),
        is_warning("WARNING: session.gpu_driver '"@),
        is_warning("WARNING: session.backend '"@),
        is_error("ERROR: session.max_sessions must be >= 1."@),
        is_error("ERROR: session.idle_timeout must be 0 (disabled) or at least 60 seconds, got "@),
        is_warning("WARNING: admin_users entry '"@),
        is_warning("WARNING: admin_users contains an empty string. This entry will never match."@),
{
    reveal_strlit("ERROR:");
    reveal_strlit("WARNING:");
    reveal_strlit("ERROR: tls_cert '");
    assert("ERROR: tls_cert '"@.subrange(0, 6) =~= "ERROR:"@);
    reveal_strlit("ERROR: tls_key '");
    assert("ERROR: tls_key '"@.subrange(0, 6) =~= "ERROR:"@);
    reveal_strlit("WARNING: tls_cert is set but tls_key is not. Both must be set for custom TLS, or omit both for auto-generated certificates.");
    assert("WARNING: tls_cert is set but tls_key is not. Both must be set for custom TLS, or omit both for auto-generated certificates."@.subrange(0, 8) =~= "WARNING:"@);
    reveal_strlit("WARNING: tls_key is set but tls_cert is not. Both must be set for custom TLS, or omit both for auto-generated certificates.");
    assert("WARNING: tls_key is set but tls_cert is not. Both must be set for custom TLS, or omit both for auto-generated certificates."@.subrange(0, 8) =~= "WARNING:"@);
    reveal_strlit("ERROR: server.port must be between 1 and 65535, got 0.");
    assert("ERROR: server.port must be between 1 and 65535, got 0."@.subrange(0, 6) =~= "ERROR:"@);
    reveal_strlit("WARNING: video.bitrate is ");
    assert("WARNING: video.bitrate is "@.subrange(0, 8) =~= "WARNING:"@);
    reveal_strlit("ERROR: video.framerate must be between 1 and 240, got ");
    assert("ERROR: video.framerate must be between 1 and 240, got "@.subrange(0, 6) =~= "ERROR:"@);
    reveal_strlit("ERROR: video.max_width must be 0 (unlimited) or at least 320, got ");
    assert("ERROR: video.max_width must be 0 (unlimited) or at least 320, got "@.subrange(0, 6) =~= "ERROR:"@);
    reveal_strlit("ERROR: video.max_height must be 0 (unlimited) or at least 240, got ");
    assert("ERROR: video.max_height must be 0 (unlimited) or at least 240, got "@.subrange(0, 6) =~= "ERROR:"@);
    reveal_strlit("ERROR: session.display_start must be >= 1. Display :0 is typically the local console.");
    assert("ERROR: session.display_start must be >= 1. Display :0 is typically the local console."@.subrange(0, 6) =~= "ERROR:"@);
    reveal_strlit("WARNING: session.gpu_driver '");
    assert("WARNING: session.gpu_driver '"@.subrange(0, 8) =~= "WARNING:"@);
    reveal_strlit("WARNING: session.backend '");
    assert("WARNING: session.backend '"@.subrange(0, 8) =~= "WARNING:"@);
    reveal_strlit("ERROR: session.max_sessions must be >= 1.");
    assert("ERROR: session.max_sessions must be >= 1."@.subrange(0, 6) =~= "ERROR:"@);
    reveal_strlit("ERROR: session.idle_timeout must be 0 (disabled) or at least 60 seconds, got ");
    assert("ERROR: session.idle_timeout must be 0 (disabled) or at least 60 seconds, got "@.subrange(0, 6) =~= "ERROR:"@);
    reveal_strlit("WARNING: admin_users entry '");
    assert("WARNING: admin_users entry '"@.subrange(0, 8) =~= "WARNING:"@);
    reveal_strlit("WARNING: admin_users contains an empty string. This entry will never match.");
    assert("WARNING: admin_users contains an empty string. This entry will never match."@.subrange(0, 8) =~= "WARNING:"@);
}

proof fn lemma_user_marked(u: Seq<char>)
    ensures
        well_marked(user_issues(u)),
{
    lemma_heads();
    let head = "WARNING: admin_users entry '"@;
    lemma_marked(head, u);
    lemma_marked(
        head + u,
        "' has leading/trailing whitespace. This will never match a login username. Did you mean '"@,
    );
    lemma_marked(
        head + u
            + "' has leading/trailing whitespace. This will never match a login username. Did you mean '"@,
        trimmed(u),
    );
    lemma_marked(
        head + u
            + "' has leading/trailing whitespace. This will never match a login username. Did you mean '"@
            + trimmed(u),
        "'?"@,
    );
    lemma_marked(
        head + u,
        "' contains characters not allowed in usernames (only a-z, 0-9, _, -, . are valid). This entry will never match."@,
    );
}

proof fn lemma_admins_marked(users: Seq<String>)
    ensures
        well_marked(admin_issues(users)),
    decreases users.len(),
{
    if users.len() > 0 {
        lemma_admins_marked(users.drop_last());
        lemma_user_marked(users.last()@);
    }
}

proof fn lemma_tls_marked(s: ServerConfig, cert_exists: bool, key_exists: bool)
    ensures
        well_marked(tls_issues(s, cert_exists, key_exists)),
{
    lemma_heads();
    match (s.tls_cert, s.tls_key) {
        (Some(cert), Some(key)) => {
            lemma_marked("ERROR: tls_cert '"@, cert@);
            lemma_marked("ERROR: tls_cert '"@ + cert@, missing_file_hint());
            lemma_marked("ERROR: tls_key '"@, key@);
            lemma_marked("ERROR: tls_key '"@ + key@, missing_file_hint());
        },
        _ => {},
    }
}

proof fn lemma_video_marked(v: VideoConfig)
    ensures
        well_marked(video_issues(v)),
{
    lemma_heads();
    let bitrate = "WARNING: video.bitrate is "@;
    let tail = " Mbps) — this is unusually high and may indicate a misconfiguration. Typical values: 20000-100000 kbps."@;
    let b = decimal(v.bitrate as nat);
    let m = decimal((v.bitrate / 1000) as nat);
    lemma_marked(bitrate, b);
    lemma_marked(bitrate + b, " kbps ("@);
    lemma_marked(bitrate + b + " kbps ("@, m);
    lemma_marked(bitrate + b + " kbps ("@ + m, tail);
    let framerate = "ERROR: video.framerate must be between 1 and 240, got "@;
    lemma_marked(framerate, decimal(v.framerate as nat));
    lemma_marked(framerate + decimal(v.framerate as nat), "."@);
    let width = "ERROR: video.max_width must be 0 (unlimited) or at least 320, got "@;
    lemma_marked(width, decimal(v.max_width as nat));
    lemma_marked(width + decimal(v.max_width as nat), "."@);
    let height = "ERROR: video.max_height must be 0 (unlimited) or at least 240, got "@;
    lemma_marked(height, decimal(v.max_height as nat));
    lemma_marked(height + decimal(v.max_height as nat), "."@);
}

proof fn lemma_session_marked(s: SessionConfig)
    ensures
        well_marked(session_issues(s)),
{
    lemma_heads();
    lemma_marked("WARNING: session.gpu_driver '"@, s.gpu_driver@);
    lemma_marked(
        "WARNING: session.gpu_driver '"@ + s.gpu_driver@,
        "' is not recognized. Valid values: auto, nvidia, dummy. Defaulting to auto."@,
    );
    lemma_marked("WARNING: session.backend '"@, s.backend@);
    lemma_marked(
        "WARNING: session.backend '"@ + s.backend@,
        "' is not recognized. Valid values: auto, xorg, wayland. Defaulting to auto."@,
    );
    let idle = "ERROR: session.idle_timeout must be 0 (disabled) or at least 60 seconds, got "@;
    lemma_marked(idle, decimal(s.idle_timeout as nat));
    lemma_marked(
        idle + decimal(s.idle_timeout as nat),
        ". Values under 60s will disconnect users too aggressively."@,
    );
}

/// Each issue that validation reports begins with `ERROR:` or with `WARNING:`.
pub proof fn issues_are_marked(c: BeamConfig, cert_exists: bool, key_exists: bool)
    ensures
        well_marked(issues_of(c, cert_exists, key_exists)),
{
    lemma_heads();
    lemma_tls_marked(c.server, cert_exists, key_exists);
    lemma_video_marked(c.video);
    lemma_session_marked(c.session);
    lemma_admins_marked(c.server.admin_users@);
}

/// Whether the name of an admin user can match a login.
pub open spec fn is_admin_name(u: Seq<char>) -> bool {
    u.len() > 0 && trimmed(u) == u && is_username(u)
}

/// Whether there is nothing to be said against a configuration, given whether the files of its
/// certificate and key exist.
pub open spec fn is_sound(c: BeamConfig, cert_exists: bool, key_exists: bool) -> bool {
    &&& c.server.tls_cert is Some <==> c.server.tls_key is Some
    &&& c.server.tls_cert is Some ==> cert_exists && key_exists
    &&& c.server.port != 0
    &&& c.video.bitrate <= 200_000
    &&& 1 <= c.video.framerate <= 240
    &&& c.video.max_width == 0 || c.video.max_width >= 320
    &&& c.video.max_height == 0 || c.video.max_height >= 240
    &&& c.session.display_start >= 1
    &&& is_gpu_driver(c.session.gpu_driver@)
    &&& is_backend(c.session.backend@)
    &&& c.session.max_sessions >= 1
    &&& c.session.idle_timeout == 0 || c.session.idle_timeout >= 60
    &&& forall|i: int|
        0 <= i < c.server.admin_users@.len() ==> is_admin_name(
            (#[trigger] c.server.admin_users@[i])@,
        )
}

proof fn lemma_sound_admins(users: Seq<String>)
    ensures
        admin_issues(users).len() == 0 <==> forall|i: int|
            0 <= i < users.len() ==> is_admin_name((#[trigger] users[i])@),
    decreases users.len(),
{
    if users.len() > 0 {
        let before = users.drop_last();
        lemma_sound_admins(before);
        assert(user_issues(users.last()@).len() == 0 <==> is_admin_name(users.last()@));
        assert(forall|i: int| 0 <= i < before.len() ==> #[trigger] before[i] == users[i]);
        assert(users.last() == users[users.len() - 1]);
        if admin_issues(users).len() == 0 {
            assert forall|i: int| 0 <= i < users.len() implies is_admin_name(
                (#[trigger] users[i])@,
            ) by {
                if i < before.len() {
                    assert(is_admin_name(before[i]@));
                }
            }
        }
    }
}

/// Validation reports nothing exactly for the sound configurations.
pub proof fn sound_configurations_have_no_issues(
    c: BeamConfig,
    cert_exists: bool,
    key_exists: bool,
)
    ensures
        issues_of(c, cert_exists, key_exists).len() == 0 <==> is_sound(c, cert_exists, key_exists),
{
    lemma_sound_admins(c.server.admin_users@);
    let tls = tls_issues(c.server, cert_exists, key_exists);
    assert(tls.len() == 0 <==> (c.server.tls_cert is Some <==> c.server.tls_key is Some) && (
    c.server.tls_cert is Some ==> cert_exists && key_exists));
}

/// Whether each character of a name is a letter or a digit of ASCII, or one of `_`, `-` and `.`.
pub open spec fn has_name_codes(u: Seq<char>) -> bool {
    forall|i: int|
        0 <= i < u.len() ==> {
            let n = (#[trigger] u[i]) as u32;
            (48 <= n <= 57) || (65 <= n <= 90) || (97 <= n <= 122) || n == 95 || n == 45 || n == 46
        }
}

proof fn lemma_name_codes(u: Seq<char>)
    ensures
        has_name_codes(u) == is_username(u),
{
    if has_name_codes(u) {
        assert forall|i: int| 0 <= i < u.len() implies {
            let c = #[trigger] u[i];
            is_ascii_alnum(c) || c == '_' || c == '-' || c == '.'
        } by {
            lemma_name_code(u[i]);
        }
    }
    if is_username(u) {
        assert forall|i: int| 0 <= i < u.len() implies {
            let n = (#[trigger] u[i]) as u32;
            (48 <= n <= 57) || (65 <= n <= 90) || (97 <= n <= 122) || n == 95 || n == 45 || n == 46
        } by {
            let c = u[i];
            assert(is_ascii_alnum(c) || c == '_' || c == '-' || c == '.');
        }
    }
}

proof fn lemma_name_code(c: char)
    requires
        ({
            let n = c as u32;
            (48 <= n <= 57) || (65 <= n <= 90) || (97 <= n <= 122) || n == 95 || n == 45 || n == 46
        }),
    ensures
        is_ascii_alnum(c) || c == '_' || c == '-' || c == '.',
{
}

/// Whether one of the issues begins with `ERROR:`.
pub open spec fn has_error(issues: Seq<Seq<char>>) -> bool {
    exists|i: int| 0 <= i < issues.len() && is_error(#[trigger] issues[i])
}

proof fn lemma_errors_add(a: Seq<Seq<char>>, b: Seq<Seq<char>>)
    ensures
        has_error(a + b) <==> has_error(a) || has_error(b),
{
    let s = a + b;
    if has_error(a) {
        let i = choose|i: int| 0 <= i < a.len() && is_error(#[trigger] a[i]);
        assert(s[i] == a[i]);
    }
    if has_error(b) {
        let i = choose|i: int| 0 <= i < b.len() && is_error(#[trigger] b[i]);
        assert(s[a.len() + i] == b[i]);
    }
}

proof fn lemma_error_when(cond: bool, text: Seq<char>)
    ensures
        has_error(when(cond, text)) <==> cond && is_error(text),
{
    if cond {
        assert(when(cond, text)[0] == text);
    }
}

proof fn lemma_warnings_are_no_errors(s: Seq<char>)
    requires
        is_warning(s),
    ensures
        !is_error(s),
{
    reveal_strlit("ERROR:");
    reveal_strlit("WARNING:");
    assert(s.subrange(0, 8)[0] == 'W');
    if is_error(s) {
        assert(s.subrange(0, 6)[0] == 'E');
    }
}

proof fn lemma_video_errors(v: VideoConfig)
    ensures
        has_error(video_issues(v)) <==> v.framerate == 0 || v.framerate > 240 || (0 < v.max_width
            < 320) || (0 < v.max_height < 240),
{
    lemma_heads();
    lemma_video_marked(v);
    let bitrate = "WARNING: video.bitrate is "@ + decimal(v.bitrate as nat) + " kbps ("@ + decimal(
        (v.bitrate / 1000) as nat,
    ) + " Mbps) — this is unusually high and may indicate a misconfiguration. Typical values: 20000-100000 kbps."@;
    let framerate = "ERROR: video.framerate must be between 1 and 240, got "@ + decimal(
        v.framerate as nat,
    ) + "."@;
    let width = "ERROR: video.max_width must be 0 (unlimited) or at least 320, got "@ + decimal(
        v.max_width as nat,
    ) + "."@;
    let height = "ERROR: video.max_height must be 0 (unlimited) or at least 240, got "@ + decimal(
        v.max_height as nat,
    ) + "."@;
    let a = when(v.bitrate > 200_000, bitrate);
    let b = when(v.framerate == 0 || v.framerate > 240, framerate);
    let c = when(v.max_width != 0 && v.max_width < 320, width);
    let d = when(v.max_height != 0 && v.max_height < 240, height);
    lemma_marked("WARNING: video.bitrate is "@, decimal(v.bitrate as nat));
    lemma_marked("WARNING: video.bitrate is "@ + decimal(v.bitrate as nat), " kbps ("@);
    lemma_marked(
        "WARNING: video.bitrate is "@ + decimal(v.bitrate as nat) + " kbps ("@,
        decimal((v.bitrate / 1000) as nat),
    );
    lemma_marked(
        "WARNING: video.bitrate is "@ + decimal(v.bitrate as nat) + " kbps ("@ + decimal(
            (v.bitrate / 1000) as nat,
        ),
        " Mbps) — this is unusually high and may indicate a misconfiguration. Typical values: 20000-100000 kbps."@,
    );
    lemma_warnings_are_no_errors(bitrate);
    lemma_marked(
        "ERROR: video.framerate must be between 1 and 240, got "@,
        decimal(v.framerate as nat),
    );
    lemma_marked(
        "ERROR: video.framerate must be between 1 and 240, got "@ + decimal(v.framerate as nat),
        "."@,
    );
    lemma_marked(
        "ERROR: video.max_width must be 0 (unlimited) or at least 320, got "@,
        decimal(v.max_width as nat),
    );
    lemma_marked(
        "ERROR: video.max_width must be 0 (unlimited) or at least 320, got "@ + decimal(
            v.max_width as nat,
        ),
        "."@,
    );
    lemma_marked(
        "ERROR: video.max_height must be 0 (unlimited) or at least 240, got "@,
        decimal(v.max_height as nat),
    );
    lemma_marked(
        "ERROR: video.max_height must be 0 (unlimited) or at least 240, got "@ + decimal(
            v.max_height as nat,
        ),
        "."@,
    );
    lemma_error_when(v.bitrate > 200_000, bitrate);
    lemma_error_when(v.framerate == 0 || v.framerate > 240, framerate);
    lemma_error_when(v.max_width != 0 && v.max_width < 320, width);
    lemma_error_when(v.max_height != 0 && v.max_height < 240, height);
    lemma_errors_add(a, b);
    lemma_errors_add(a + b, c);
    lemma_errors_add(a + b + c, d);
    assert(video_issues(v) == a + b + c + d);
}

proof fn lemma_session_errors(s: SessionConfig)
    ensures
        has_error(session_issues(s)) <==> s.display_start == 0 || s.max_sessions == 0 || (0
            < s.idle_timeout < 60),
{
    lemma_heads();
    let driver = "WARNING: session.gpu_driver '"@ + s.gpu_driver@
        + "' is not recognized. Valid values: auto, nvidia, dummy. Defaulting to auto."@;
    let backend = "WARNING: session.backend '"@ + s.backend@
        + "' is not recognized. Valid values: auto, xorg, wayland. Defaulting to auto."@;
    let idle = "ERROR: session.idle_timeout must be 0 (disabled) or at least 60 seconds, got "@
        + decimal(s.idle_timeout as nat)
        + ". Values under 60s will disconnect users too aggressively."@;
    lemma_marked("WARNING: session.gpu_driver '"@, s.gpu_driver@);
    lemma_marked(
        "WARNING: session.gpu_driver '"@ + s.gpu_driver@,
        "' is not recognized. Valid values: auto, nvidia, dummy. Defaulting to auto."@,
    );
    lemma_marked("WARNING: session.backend '"@, s.backend@);
    lemma_marked(
        "WARNING: session.backend '"@ + s.backend@,
        "' is not recognized. Valid values: auto, xorg, wayland. Defaulting to auto."@,
    );
    lemma_marked(
        "ERROR: session.idle_timeout must be 0 (disabled) or at least 60 seconds, got "@,
        decimal(s.idle_timeout as nat),
    );
    lemma_marked(
        "ERROR: session.idle_timeout must be 0 (disabled) or at least 60 seconds, got "@ + decimal(
            s.idle_timeout as nat,
        ),
        ". Values under 60s will disconnect users too aggressively."@,
    );
    lemma_warnings_are_no_errors(driver);
    lemma_warnings_are_no_errors(backend);
    let start = "ERROR: session.display_start must be >= 1. Display :0 is typically the local console."@;
    let most = "ERROR: session.max_sessions must be >= 1."@;
    let a = when(s.display_start == 0, start);
    let b = when(!is_gpu_driver(s.gpu_driver@), driver);
    let c = when(!is_backend(s.backend@), backend);
    let d = when(s.max_sessions == 0, most);
    let e = when(0 < s.idle_timeout < 60, idle);
    lemma_error_when(s.display_start == 0, start);
    lemma_error_when(!is_gpu_driver(s.gpu_driver@), driver);
    lemma_error_when(!is_backend(s.backend@), backend);
    lemma_error_when(s.max_sessions == 0, most);
    lemma_error_when(0 < s.idle_timeout < 60, idle);
    lemma_errors_add(a, b);
    lemma_errors_add(a + b, c);
    lemma_errors_add(a + b + c, d);
    lemma_errors_add(a + b + c + d, e);
    assert(session_issues(s) == a + b + c + d + e);
}

proof fn lemma_user_errors(u: Seq<char>)
    ensures
        !has_error(user_issues(u)),
{
    lemma_heads();
    let issues = user_issues(u);
    let head = "WARNING: admin_users entry '"@;
    lemma_marked(head, u);
    lemma_marked(
        head + u,
        "' has leading/trailing whitespace. This will never match a login username. Did you mean '"@,
    );
    lemma_marked(
        head + u
            + "' has leading/trailing whitespace. This will never match a login username. Did you mean '"@,
        trimmed(u),
    );
    lemma_marked(
        head + u
            + "' has leading/trailing whitespace. This will never match a login username. Did you mean '"@
            + trimmed(u),
        "'?"@,
    );
    lemma_marked(
        head + u,
        "' contains characters not allowed in usernames (only a-z, 0-9, _, -, . are valid). This entry will never match."@,
    );
    assert forall|i: int| 0 <= i < issues.len() implies !is_error(#[trigger] issues[i]) by {
        assert(is_warning(issues[i]));
        lemma_warnings_are_no_errors(issues[i]);
    }
}

proof fn lemma_admin_errors(users: Seq<String>)
    ensures
        !has_error(admin_issues(users)),
    decreases users.len(),
{
    if users.len() > 0 {
        lemma_admin_errors(users.drop_last());
        lemma_user_errors(users.last()@);
        lemma_errors_add(admin_issues(users.drop_last()), user_issues(users.last()@));
    }
}

proof fn lemma_tls_errors(s: ServerConfig, cert_exists: bool, key_exists: bool)
    ensures
        has_error(tls_issues(s, cert_exists, key_exists)) <==> s.tls_cert is Some && s.tls_key is Some
            && (!cert_exists || !key_exists),
{
    lemma_heads();
    match (s.tls_cert, s.tls_key) {
        (Some(cert), Some(key)) => {
            let a = "ERROR: tls_cert '"@ + cert@ + missing_file_hint();
            let b = "ERROR: tls_key '"@ + key@ + missing_file_hint();
            lemma_marked("ERROR: tls_cert '"@, cert@);
            lemma_marked("ERROR: tls_cert '"@ + cert@, missing_file_hint());
            lemma_marked("ERROR: tls_key '"@, key@);
            lemma_marked("ERROR: tls_key '"@ + key@, missing_file_hint());
            lemma_error_when(!cert_exists, a);
            lemma_error_when(!key_exists, b);
            lemma_errors_add(when(!cert_exists, a), when(!key_exists, b));
        },
        (Some(_), None) => {
            lemma_warnings_are_no_errors("WARNING: tls_cert is set but tls_key is not. Both must be set for custom TLS, or omit both for auto-generated certificates."@);
        },
        (None, Some(_)) => {
            lemma_warnings_are_no_errors("WARNING: tls_key is set but tls_cert is not. Both must be set for custom TLS, or omit both for auto-generated certificates."@);
        },
        (None, None) => {},
    }
}

/// A server does not start exactly where a TLS file that is set is missing, the port is 0, the frame
/// rate is not from 1 to 240, a size limit is set below 320 by 240, the first display is 0, no
/// session is allowed, or users are sent away in less than a minute.
pub proof fn errors_are_what_stops_a_server(
    c: &BeamConfig,
    cert_exists: bool,
    key_exists: bool,
    r: Result<(), Vec<String>>,
)
    requires
        call_ensures(BeamConfig::validate_with, (c, cert_exists, key_exists), r),
    ensures
        (r matches Err(issues) && has_error(texts(issues@))) <==> {
            ||| c.server.tls_cert is Some && c.server.tls_key is Some && (!cert_exists || !key_exists)
            ||| c.server.port == 0
            ||| c.video.framerate == 0 || c.video.framerate > 240
            ||| c.video.max_width != 0 && c.video.max_width < 320
            ||| c.video.max_height != 0 && c.video.max_height < 240
            ||| c.session.display_start == 0
            ||| c.session.max_sessions == 0
            ||| c.session.idle_timeout != 0 && c.session.idle_timeout < 60
        },
{
    let a = tls_issues(c.server, cert_exists, key_exists);
    let b = port_issues(c.server);
    let v = video_issues(c.video);
    let s = session_issues(c.session);
    let u = admin_issues(c.server.admin_users@);
    lemma_heads();
    lemma_tls_errors(c.server, cert_exists, key_exists);
    lemma_error_when(
        c.server.port == 0,
        "ERROR: server.port must be between 1 and 65535, got 0."@,
    );
    lemma_video_errors(c.video);
    lemma_session_errors(c.session);
    lemma_admin_errors(c.server.admin_users@);
    lemma_errors_add(a, b);
    lemma_errors_add(a + b, v);
    lemma_errors_add(a + b + v, s);
    lemma_errors_add(a + b + v + s, u);
    assert(issues_of(*c, cert_exists, key_exists) == a + b + v + s + u);
}

/// Validation is silent exactly where, besides what stops a server, nothing is odd either: both TLS
/// files or none are set, the bit rate is at most 200000 kbit/s, the driver is `auto`, `nvidia` or
/// `dummy`, the backend `auto`, `xorg` or `wayland`, and each admin has a name of letters, digits,
/// `_`, `-` and `.` that no white space surrounds.
pub proof fn warnings_are_what_is_odd(
    c: &BeamConfig,
    cert_exists: bool,
    key_exists: bool,
    r: Result<(), Vec<String>>,
)
    requires
        call_ensures(BeamConfig::validate_with, (c, cert_exists, key_exists), r),
    ensures
        r is Ok <==> {
            &&& c.server.tls_cert is Some <==> c.server.tls_key is Some
            &&& c.server.tls_cert is Some ==> cert_exists && key_exists
            &&& c.server.port != 0
            &&& c.video.bitrate <= 200_000
            &&& 1 <= c.video.framerate <= 240
            &&& c.video.max_width == 0 || c.video.max_width >= 320
            &&& c.video.max_height == 0 || c.video.max_height >= 240
            &&& c.session.display_start >= 1
            &&& c.session.gpu_driver@ == "auto"@ || c.session.gpu_driver@ == "nvidia"@
                || c.session.gpu_driver@ == "dummy"@
            &&& c.session.backend@ == "auto"@ || c.session.backend@ == "xorg"@ || c.session.backend@
                == "wayland"@
            &&& c.session.max_sessions >= 1
            &&& c.session.idle_timeout == 0 || c.session.idle_timeout >= 60
            &&& forall|i: int|
                0 <= i < c.server.admin_users@.len() ==> is_plain_name(
                    (#[trigger] c.server.admin_users@[i])@,
                )
        },
{
    sound_configurations_have_no_issues(*c, cert_exists, key_exists);
    assert forall|u: Seq<char>| #[trigger] is_plain_name(u) == is_admin_name(u) by {
        lemma_name_codes(u);
    }
}

/// Whether a name is a text of letters, digits, `_`, `-` and `.` that trimming leaves as it is.
pub open spec fn is_plain_name(u: Seq<char>) -> bool {
    u.len() > 0 && trimmed(u) == u && has_name_codes(u)
}

/// What a file sets in a section, where it has the section and sets it there, or else the default.
pub open spec fn set_or<T>(value: Option<T>, default: T) -> T {
    match value {
        Some(v) => v,
        None => default,
    }
}

/// Every number that a file sets is taken, and every one that it does not is the documented one,
/// whether the whole section is missing or the number alone.
pub proof fn files_are_filled_with_the_documented_numbers(f: ConfigFile, r: BeamConfig)
    requires
        call_ensures(ConfigFile::filled, (f,), r),
    ensures
        ({
            let v = f.video;
            let s = f.session;
            let a = f.audio;
            let p = f.server;
            &&& r.video.bitrate == (if v is Some { set_or(v->0.bitrate, 50_000) } else { 50_000 })
            &&& r.video.min_bitrate == (if v is Some { set_or(v->0.min_bitrate, 2_000) } else { 2_000 })
            &&& r.video.max_bitrate == (if v is Some { set_or(v->0.max_bitrate, 100_000) } else { 100_000 })
            &&& r.video.framerate == (if v is Some { set_or(v->0.framerate, 120) } else { 120 })
            &&& r.video.max_width == (if v is Some { set_or(v->0.max_width, 3840) } else { 3840 })
            &&& r.video.max_height == (if v is Some { set_or(v->0.max_height, 2160) } else { 2160 })
            &&& r.audio.enabled == (if a is Some { set_or(a->0.enabled, true) } else { true })
            &&& r.audio.bitrate == (if a is Some { set_or(a->0.bitrate, 128) } else { 128 })
            &&& r.session.default_width == (if s is Some { set_or(s->0.default_width, 1920) } else { 1920 })
            &&& r.session.default_height == (if s is Some { set_or(s->0.default_height, 1080) } else { 1080 })
            &&& r.session.display_start == (if s is Some { set_or(s->0.display_start, 10) } else { 10 })
            &&& r.session.max_sessions == (if s is Some { set_or(s->0.max_sessions, 8) } else { 8 })
            &&& r.session.idle_timeout == (if s is Some { set_or(s->0.idle_timeout, 3600) } else { 3600 })
            &&& r.server.port == (if p is Some { set_or(p->0.port, 8444) } else { 8444 })
            &&& r.server.metrics_require_auth == (if p is Some {
                set_or(p->0.metrics_require_auth, true)
            } else {
                true
            })
        }),
{
}

/// Every text that a file sets is taken, and every one that it does not is the documented one.
pub proof fn files_are_filled_with_the_documented_texts(f: ConfigFile, r: BeamConfig)
    requires
        call_ensures(ConfigFile::filled, (f,), r),
    ensures
        f.server matches Some(p) ==> {
            &&& p.bind matches Some(x) ==> r.server.bind@ == x@
            &&& p.bind is None ==> r.server.bind@ == "0.0.0.0"@
            &&& p.web_root matches Some(x) ==> r.server.web_root@ == x@
            &&& p.web_root is None ==> r.server.web_root@ == "web/dist"@
            &&& r.server.hostname == p.hostname
            &&& r.server.tls_cert == p.tls_cert
            &&& r.server.tls_key == p.tls_key
            &&& r.server.jwt_secret == p.jwt_secret
            &&& p.admin_users matches Some(x) ==> r.server.admin_users@ == x@
            &&& p.admin_users is None ==> r.server.admin_users@.len() == 0
        },
        f.server is None ==> r.server.bind@ == "0.0.0.0"@ && r.server.web_root@ == "web/dist"@
            && r.server.hostname is None && r.server.tls_cert is None && r.server.tls_key is None
            && r.server.jwt_secret is None && r.server.admin_users@.len() == 0,
        f.video matches Some(v) ==> r.video.encoder == v.encoder,
        f.video is None ==> r.video.encoder is None,
        f.session matches Some(s) ==> {
            &&& s.gpu_driver matches Some(x) ==> r.session.gpu_driver@ == x@
            &&& s.gpu_driver is None ==> r.session.gpu_driver@ == "auto"@
            &&& s.backend matches Some(x) ==> r.session.backend@ == x@
            &&& s.backend is None ==> r.session.backend@ == "auto"@
        },
        f.session is None ==> r.session.gpu_driver@ == "auto"@ && r.session.backend@ == "auto"@,
{
}

/// Whether an issue is told of a TLS file or the port of a server.
pub open spec fn is_server_issue(s: ServerConfig, cert_exists: bool, key_exists: bool, x: Seq<char>)
    -> bool {
    let missing =
        "' does not exist. Generate with: openssl req -x509 -newkey rsa:4096 -keyout key.pem -out cert.pem -days 365 -nodes"@;
    ||| s.tls_cert is Some && s.tls_key is Some && !cert_exists && x == "ERROR: tls_cert '"@
        + s.tls_cert->0@ + missing
    ||| s.tls_cert is Some && s.tls_key is Some && !key_exists && x == "ERROR: tls_key '"@
        + s.tls_key->0@ + missing
    ||| s.tls_cert is Some && s.tls_key is None && x
        == "WARNING: tls_cert is set but tls_key is not. Both must be set for custom TLS, or omit both for auto-generated certificates."@
    ||| s.tls_cert is None && s.tls_key is Some && x
        == "WARNING: tls_key is set but tls_cert is not. Both must be set for custom TLS, or omit both for auto-generated certificates."@
    ||| s.port == 0 && x == "ERROR: server.port must be between 1 and 65535, got 0."@
}

/// Whether an issue is told of the video section.
pub open spec fn is_video_issue(v: VideoConfig, x: Seq<char>) -> bool {
    ||| v.bitrate > 200_000 && x == "WARNING: video.bitrate is "@ + decimal(v.bitrate as nat)
        + " kbps ("@ + decimal((v.bitrate / 1000) as nat)
        + " Mbps) — this is unusually high and may indicate a misconfiguration. Typical values: 20000-100000 kbps."@
    ||| !(1 <= v.framerate <= 240) && x
        == "ERROR: video.framerate must be between 1 and 240, got "@ + decimal(v.framerate as nat)
        + "."@
    ||| 1 <= v.max_width <= 319 && x
        == "ERROR: video.max_width must be 0 (unlimited) or at least 320, got "@ + decimal(
        v.max_width as nat,
    ) + "."@
    ||| 1 <= v.max_height <= 239 && x
        == "ERROR: video.max_height must be 0 (unlimited) or at least 240, got "@ + decimal(
        v.max_height as nat,
    ) + "."@
}

/// Whether an issue is told of the session section.
pub open spec fn is_session_issue(s: SessionConfig, x: Seq<char>) -> bool {
    ||| s.display_start == 0 && x
        == "ERROR: session.display_start must be >= 1. Display :0 is typically the local console."@
    ||| s.gpu_driver@ != "auto"@ && s.gpu_driver@ != "nvidia"@ && s.gpu_driver@ != "dummy"@ && x
        == "WARNING: session.gpu_driver '"@ + s.gpu_driver@
        + "' is not recognized. Valid values: auto, nvidia, dummy. Defaulting to auto."@
    ||| s.backend@ != "auto"@ && s.backend@ != "xorg"@ && s.backend@ != "wayland"@ && x
        == "WARNING: session.backend '"@ + s.backend@
        + "' is not recognized. Valid values: auto, xorg, wayland. Defaulting to auto."@
    ||| s.max_sessions == 0 && x == "ERROR: session.max_sessions must be >= 1."@
    ||| 1 <= s.idle_timeout <= 59 && x
        == "ERROR: session.idle_timeout must be 0 (disabled) or at least 60 seconds, got "@ + decimal(
        s.idle_timeout as nat,
    ) + ". Values under 60s will disconnect users too aggressively."@
}

/// Whether an issue is told of the name of an admin.
pub open spec fn is_name_issue(u: Seq<char>, x: Seq<char>) -> bool {
    ||| u.len() == 0 && x
        == "WARNING: admin_users contains an empty string. This entry will never match."@
    ||| trimmed(u) != u && x == "WARNING: admin_users entry '"@ + u
        + "' has leading/trailing whitespace. This will never match a login username. Did you mean '"@
        + trimmed(u) + "'?"@
    ||| !has_name_codes(u) && x == "WARNING: admin_users entry '"@ + u
        + "' contains characters not allowed in usernames (only a-z, 0-9, _, -, . are valid). This entry will never match."@
}

proof fn lemma_told_either(a: Seq<Seq<char>>, b: Seq<Seq<char>>, x: Seq<char>)
    ensures
        (a + b).contains(x) <==> a.contains(x) || b.contains(x),
{
    let s = a + b;
    if a.contains(x) {
        let i = choose|i: int| 0 <= i < a.len() && a[i] == x;
        assert(s[i] == x);
    }
    if b.contains(x) {
        let i = choose|i: int| 0 <= i < b.len() && b[i] == x;
        assert(s[a.len() + i] == x);
    }
    if s.contains(x) {
        let i = choose|i: int| 0 <= i < s.len() && s[i] == x;
        if i < a.len() {
            assert(a[i] == x);
        } else {
            assert(b[i - a.len()] == x);
        }
    }
}

proof fn lemma_told_when(cond: bool, text: Seq<char>, x: Seq<char>)
    ensures
        (when(cond, text)).contains(x) <==> cond && x == text,
{
    if cond {
        assert(when(cond, text)[0] == text);
    }
}

proof fn lemma_server_told(s: ServerConfig, cert_exists: bool, key_exists: bool, x: Seq<char>)
    ensures
        (tls_issues(s, cert_exists, key_exists) + port_issues(s)).contains(x) <==> is_server_issue(
            s,
            cert_exists,
            key_exists,
            x,
        ),
{
    let t = tls_issues(s, cert_exists, key_exists);
    lemma_told_either(t, port_issues(s), x);
    lemma_told_when(s.port == 0, "ERROR: server.port must be between 1 and 65535, got 0."@, x);
    if s.tls_cert is Some && s.tls_key is Some {
        let a = "ERROR: tls_cert '"@ + s.tls_cert->0@ + missing_file_hint();
        let b = "ERROR: tls_key '"@ + s.tls_key->0@ + missing_file_hint();
        lemma_told_when(!cert_exists, a, x);
        lemma_told_when(!key_exists, b, x);
        lemma_told_either(when(!cert_exists, a), when(!key_exists, b), x);
    } else if t.len() > 0 {
        assert(t[0] == t[0]);
        assert(t.contains(t[0]));
    }
}

proof fn lemma_video_told(v: VideoConfig, x: Seq<char>)
    ensures
        video_issues(v).contains(x) <==> is_video_issue(v, x),
{
    let a = "WARNING: video.bitrate is "@ + decimal(v.bitrate as nat) + " kbps ("@ + decimal(
        (v.bitrate / 1000) as nat,
    )
        + " Mbps) — this is unusually high and may indicate a misconfiguration. Typical values: 20000-100000 kbps."@;
    let b = "ERROR: video.framerate must be between 1 and 240, got "@ + decimal(v.framerate as nat)
        + "."@;
    let c = "ERROR: video.max_width must be 0 (unlimited) or at least 320, got "@ + decimal(
        v.max_width as nat,
    ) + "."@;
    let d = "ERROR: video.max_height must be 0 (unlimited) or at least 240, got "@ + decimal(
        v.max_height as nat,
    ) + "."@;
    let wa = when(v.bitrate > 200_000, a);
    let wb = when(v.framerate == 0 || v.framerate > 240, b);
    let wc = when(v.max_width != 0 && v.max_width < 320, c);
    let wd = when(v.max_height != 0 && v.max_height < 240, d);
    lemma_told_when(v.bitrate > 200_000, a, x);
    lemma_told_when(v.framerate == 0 || v.framerate > 240, b, x);
    lemma_told_when(v.max_width != 0 && v.max_width < 320, c, x);
    lemma_told_when(v.max_height != 0 && v.max_height < 240, d, x);
    lemma_told_either(wa, wb, x);
    lemma_told_either(wa + wb, wc, x);
    lemma_told_either(wa + wb + wc, wd, x);
    assert(video_issues(v) == wa + wb + wc + wd);
}

proof fn lemma_session_told(s: SessionConfig, x: Seq<char>)
    ensures
        session_issues(s).contains(x) <==> is_session_issue(s, x),
{
    let a =
        "ERROR: session.display_start must be >= 1. Display :0 is typically the local console."@;
    let b = "WARNING: session.gpu_driver '"@ + s.gpu_driver@
        + "' is not recognized. Valid values: auto, nvidia, dummy. Defaulting to auto."@;
    let c = "WARNING: session.backend '"@ + s.backend@
        + "' is not recognized. Valid values: auto, xorg, wayland. Defaulting to auto."@;
    let d = "ERROR: session.max_sessions must be >= 1."@;
    let e = "ERROR: session.idle_timeout must be 0 (disabled) or at least 60 seconds, got "@ + decimal(
        s.idle_timeout as nat,
    ) + ". Values under 60s will disconnect users too aggressively."@;
    let wa = when(s.display_start == 0, a);
    let wb = when(!is_gpu_driver(s.gpu_driver@), b);
    let wc = when(!is_backend(s.backend@), c);
    let wd = when(s.max_sessions == 0, d);
    let we = when(0 < s.idle_timeout < 60, e);
    lemma_told_when(s.display_start == 0, a, x);
    lemma_told_when(!is_gpu_driver(s.gpu_driver@), b, x);
    lemma_told_when(!is_backend(s.backend@), c, x);
    lemma_told_when(s.max_sessions == 0, d, x);
    lemma_told_when(0 < s.idle_timeout < 60, e, x);
    lemma_told_either(wa, wb, x);
    lemma_told_either(wa + wb, wc, x);
    lemma_told_either(wa + wb + wc, wd, x);
    lemma_told_either(wa + wb + wc + wd, we, x);
    assert(session_issues(s) == wa + wb + wc + wd + we);
}

proof fn lemma_name_told(u: Seq<char>, x: Seq<char>)
    ensures
        user_issues(u).contains(x) <==> is_name_issue(u, x),
{
    lemma_name_codes(u);
    let a = "WARNING: admin_users entry '"@ + u
        + "' has leading/trailing whitespace. This will never match a login username. Did you mean '"@
        + trimmed(u) + "'?"@;
    let b = "WARNING: admin_users entry '"@ + u
        + "' contains characters not allowed in usernames (only a-z, 0-9, _, -, . are valid). This entry will never match."@;
    let wa = when(trimmed(u) != u, a);
    lemma_told_when(trimmed(u) != u, a, x);
    if u.len() == 0 {
        let none = seq![
            "WARNING: admin_users contains an empty string. This entry will never match."@,
        ];
        lemma_told_either(wa, none, x);
        assert(none[0] == none[0]);
        assert(none.contains(none[0]));
        assert(user_issues(u) == wa + none);
        assert(has_name_codes(u));
    } else {
        lemma_told_when(!is_username(u), b, x);
        lemma_told_either(wa, when(!is_username(u), b), x);
        assert(user_issues(u) == wa + when(!is_username(u), b));
    }
}

proof fn lemma_names_told(users: Seq<String>, x: Seq<char>)
    ensures
        admin_issues(users).contains(x) <==> exists|i: int|
            0 <= i < users.len() && is_name_issue((#[trigger] users[i])@, x),
    decreases users.len(),
{
    if users.len() > 0 {
        let front = users.drop_last();
        lemma_names_told(front, x);
        lemma_name_told(users.last()@, x);
        lemma_told_either(admin_issues(front), user_issues(users.last()@), x);
        if admin_issues(front).contains(x) {
            let i = choose|i: int| 0 <= i < front.len() && is_name_issue((#[trigger] front[i])@, x);
            assert(users[i] == front[i]);
        }
        if exists|i: int| 0 <= i < users.len() && is_name_issue((#[trigger] users[i])@, x) {
            let i = choose|i: int| 0 <= i < users.len() && is_name_issue((#[trigger] users[i])@, x);
            if i < front.len() {
                assert(front[i] == users[i]);
            }
        }
    } else {
        assert(admin_issues(users).len() == 0);
    }
}

/// An issue is told exactly where the configuration has it, and whether the files exist is asked only
/// where both are set.
pub proof fn all_issues_are_told(
    c: &BeamConfig,
    cert_exists: bool,
    key_exists: bool,
    r: Result<(), Vec<String>>,
    x: Seq<char>,
    whole: Result<(), Vec<String>>,
)
    requires
        call_ensures(BeamConfig::validate_with, (c, cert_exists, key_exists), r),
        call_ensures(BeamConfig::validate, (c,), whole),
    ensures
        (r matches Err(issues) && texts(issues@).contains(x)) <==> {
            ||| is_server_issue(c.server, cert_exists, key_exists, x)
            ||| is_video_issue(c.video, x)
            ||| is_session_issue(c.session, x)
            ||| exists|i: int|
                0 <= i < c.server.admin_users@.len() && is_name_issue(
                    (#[trigger] c.server.admin_users@[i])@,
                    x,
                )
        },
        c.server.tls_cert is None || c.server.tls_key is None ==> {
            &&& whole is Ok <==> r is Ok
            &&& whole matches Err(issues) ==> (r matches Err(others) && texts(issues@) == texts(
                others@,
            ))
        },
        is_video_issue(c.video, x) || is_session_issue(c.session, x) || (c.server.port == 0 && x
            == "ERROR: server.port must be between 1 and 65535, got 0."@) ==> (
        whole matches Err(issues) && texts(issues@).contains(x)),
{
    let s = tls_issues(c.server, cert_exists, key_exists) + port_issues(c.server);
    let v = video_issues(c.video);
    let e = session_issues(c.session);
    let u = admin_issues(c.server.admin_users@);
    lemma_server_told(c.server, cert_exists, key_exists, x);
    lemma_video_told(c.video, x);
    lemma_session_told(c.session, x);
    lemma_names_told(c.server.admin_users@, x);
    lemma_told_either(s, v, x);
    lemma_told_either(s + v, e, x);
    lemma_told_either(s + v + e, u, x);
    assert(issues_of(*c, cert_exists, key_exists) == s + v + e + u);
    let (cert, key) = choose|cert: bool, key: bool|
        #![trigger issues_of(*c, cert, key)]
        reports(whole, issues_of(*c, cert, key));
    let w = tls_issues(c.server, cert, key) + port_issues(c.server);
    lemma_server_told(c.server, cert, key, x);
    lemma_told_either(w, v, x);
    lemma_told_either(w + v, e, x);
    lemma_told_either(w + v + e, u, x);
    assert(issues_of(*c, cert, key) == w + v + e + u);
}

/// The files of the certificate and of the key must exist where both are set.
pub proof fn both_files_are_needed(c: &BeamConfig, r: Option<(&str, &str)>)
    requires
        call_ensures(BeamConfig::tls_files, (c,), r),
    ensures
        r is Some <==> c.server.tls_cert is Some && c.server.tls_key is Some,
        r matches Some(f) ==> f.0@ == c.server.tls_cert->0@ && f.1@ == c.server.tls_key->0@,
{
}

/// A section that sets nothing, and one that is missing, are filled with what the defaults give, and
/// those are the documented numbers and texts.
pub proof fn defaults_fill_what_is_not_set(
    f: ConfigFile,
    r: BeamConfig,
    bind: String,
    port: u16,
    web_root: String,
    bitrate: u32,
    min_bitrate: u32,
    max_bitrate: u32,
    framerate: u32,
    max_width: u32,
    max_height: u32,
    yes: bool,
    audio_bitrate: u32,
    width: u32,
    height: u32,
    display_start: u32,
    max_sessions: u32,
    idle_timeout: u64,
    gpu_driver: String,
    backend: String,
)
    requires
        call_ensures(ConfigFile::filled, (f,), r),
        call_ensures(default_bind, (), bind),
        call_ensures(default_port, (), port),
        call_ensures(default_web_root, (), web_root),
        call_ensures(default_bitrate, (), bitrate),
        call_ensures(default_min_bitrate, (), min_bitrate),
        call_ensures(default_max_bitrate, (), max_bitrate),
        call_ensures(default_framerate, (), framerate),
        call_ensures(default_max_width, (), max_width),
        call_ensures(default_max_height, (), max_height),
        call_ensures(default_true, (), yes),
        call_ensures(default_audio_bitrate, (), audio_bitrate),
        call_ensures(default_width, (), width),
        call_ensures(default_height, (), height),
        call_ensures(default_display_start, (), display_start),
        call_ensures(default_max_sessions, (), max_sessions),
        call_ensures(default_idle_timeout, (), idle_timeout),
        call_ensures(default_gpu_driver, (), gpu_driver),
        call_ensures(default_backend, (), backend),
    ensures
        bind@ == "0.0.0.0"@ && port == 8444 && web_root@ == "web/dist"@,
        bitrate == 50_000 && min_bitrate == 2_000 && max_bitrate == 100_000 && framerate == 120,
        max_width == 3840 && max_height == 2160 && yes && audio_bitrate == 128,
        width == 1920 && height == 1080 && display_start == 10 && max_sessions == 8,
        idle_timeout == 3600 && gpu_driver@ == "auto"@ && backend@ == "auto"@,
        f.server is None ==> r.server.port == port && r.server.bind@ == bind@ && r.server.web_root@
            == web_root@ && r.server.metrics_require_auth == yes,
        f.video is None ==> r.video.bitrate == bitrate && r.video.min_bitrate == min_bitrate
            && r.video.max_bitrate == max_bitrate && r.video.framerate == framerate
            && r.video.max_width == max_width && r.video.max_height == max_height,
        f.audio is None ==> r.audio.enabled == yes && r.audio.bitrate == audio_bitrate,
        f.session is None ==> r.session.default_width == width && r.session.default_height == height
            && r.session.display_start == display_start && r.session.max_sessions == max_sessions
            && r.session.idle_timeout == idle_timeout && r.session.gpu_driver@ == gpu_driver@
            && r.session.backend@ == backend@,
{
}

/// A section alone is filled as it is in its file.
pub proof fn sections_are_filled_alone(
    f: ConfigFile,
    r: BeamConfig,
    p: ServerSection,
    rp: ServerConfig,
    v: VideoSection,
    rv: VideoConfig,
    a: AudioSection,
    ra: AudioConfig,
    s: SessionSection,
    rs: SessionConfig,
)
    requires
        f.server == Some(p) && f.video == Some(v) && f.audio == Some(a) && f.session == Some(s),
        call_ensures(ConfigFile::filled, (f,), r),
        call_ensures(ServerSection::filled, (p,), rp),
        call_ensures(VideoSection::filled, (v,), rv),
        call_ensures(AudioSection::filled, (a,), ra),
        call_ensures(SessionSection::filled, (s,), rs),
    ensures
        rp.port == r.server.port && rp.bind@ == r.server.bind@ && rp.web_root@ == r.server.web_root@,
        rp.hostname == r.server.hostname && rp.tls_cert == r.server.tls_cert && rp.tls_key
            == r.server.tls_key && rp.jwt_secret == r.server.jwt_secret,
        rp.metrics_require_auth == r.server.metrics_require_auth && rp.admin_users@
            == r.server.admin_users@,
        rv == r.video,
        ra == r.audio,
        rs.default_width == r.session.default_width && rs.default_height == r.session.default_height
            && rs.display_start == r.session.display_start && rs.max_sessions
            == r.session.max_sessions && rs.idle_timeout == r.session.idle_timeout,
        rs.gpu_driver@ == r.session.gpu_driver@ && rs.backend@ == r.session.backend@,
{
}

} // verus!
