//! The sessions of the server: who has which display, which agent may connect, and when a
//! session has been idle for too long.
use std::collections::HashMap;
use crate::backend::{resolve_backend, resolved};
use crate::config::VideoConfig;
use crate::ids::{is_random_uuid, new_random_uuid, uuid_string, uuid_text};
use crate::pool::{DisplayPool, PoolView, allocated, can_allocate, released, reserved};
use crate::text::{decimal, decimal_u64, opt_text, text_eq};
use vstd::prelude::*;
use vstd::string::*;

verus! {

broadcast use vstd::std_specs::hash::group_hash_axioms;

// ---------------------------------------------------------------------------
// What a session is
// ---------------------------------------------------------------------------

/// What clients are told of a session.
pub struct SessionInfo {
    pub id: u128,
    pub username: String,
    pub display: u32,
    pub width: u32,
    pub height: u32,
    /// When the session was made, in seconds since the epoch.
    pub created_at: u64,
}

/// A session's information in mathematical terms.
pub struct InfoView {
    pub id: u128,
    pub username: Seq<char>,
    pub display: u32,
    pub width: u32,
    pub height: u32,
    pub created_at: u64,
}

impl View for SessionInfo {
    type V = InfoView;

    open spec fn view(&self) -> InfoView {
        InfoView {
            id: self.id,
            username: self.username@,
            display: self.display,
            width: self.width,
            height: self.height,
            created_at: self.created_at,
        }
    }
}

impl SessionInfo {
    /// A copy of the information.
    pub fn copied(&self) -> (r: Self)
        ensures
            r@ == self@,
    {
        SessionInfo {
            id: self.id,
            username: self.username.clone(),
            display: self.display,
            width: self.width,
            height: self.height,
            created_at: self.created_at,
        }
    }
}

/// A session and what the server keeps to itself of it.
struct ManagedSession {
    info: SessionInfo,
    /// The systemd unit that the agent runs in; none before it has started, and none for an
    /// agent that runs outside systemd.
    systemd_unit: Option<String>,
    /// When the session was last active, in seconds since the epoch.
    last_activity: u64,
    /// What the agent must show to connect.
    agent_token: String,
    /// What a closing browser tab must show to release the session.
    release_token: String,
    /// How many grace periods were begun or cancelled. A timer that was begun under another
    /// number has been overtaken.
    grace_generation: u64,
    /// How often the agent was restarted.
    restart_count: u32,
    /// The session's own idle timeout in seconds, in place of the server's.
    idle_timeout_override: Option<u64>,
}

/// A session in mathematical terms.
pub struct SessionView {
    pub info: InfoView,
    pub systemd_unit: Option<Seq<char>>,
    pub last_activity: u64,
    pub agent_token: Seq<char>,
    pub release_token: Seq<char>,
    pub grace_generation: u64,
    pub restart_count: u32,
    pub idle_timeout_override: Option<u64>,
}

impl View for ManagedSession {
    type V = SessionView;

    closed spec fn view(&self) -> SessionView {
        SessionView {
            info: self.info@,
            systemd_unit: opt_text(self.systemd_unit),
            last_activity: self.last_activity,
            agent_token: self.agent_token@,
            release_token: self.release_token@,
            grace_generation: self.grace_generation,
            restart_count: self.restart_count,
            idle_timeout_override: self.idle_timeout_override,
        }
    }
}

/// A session as it is kept on disk while the server restarts.
pub struct PersistedSession {
    pub session_id: u128,
    pub username: String,
    pub display: u32,
    pub width: u32,
    pub height: u32,
    pub created_at: u64,
    /// The process of an agent that runs outside systemd, else 0.
    pub agent_pid: u32,
    pub agent_token: String,
    /// Empty in records of servers that knew no release tokens.
    pub release_token: String,
    pub systemd_unit: Option<String>,
}

/// A session record in mathematical terms.
pub struct PersistedView {
    pub info: InfoView,
    pub agent_pid: u32,
    pub agent_token: Seq<char>,
    pub release_token: Seq<char>,
    pub systemd_unit: Option<Seq<char>>,
}

impl View for PersistedSession {
    type V = PersistedView;

    open spec fn view(&self) -> PersistedView {
        PersistedView {
            info: InfoView {
                id: self.session_id,
                username: self.username@,
                display: self.display,
                width: self.width,
                height: self.height,
                created_at: self.created_at,
            },
            agent_pid: self.agent_pid,
            agent_token: self.agent_token@,
            release_token: self.release_token@,
            systemd_unit: opt_text(self.systemd_unit),
        }
    }
}

// ---------------------------------------------------------------------------
// The manager
// ---------------------------------------------------------------------------

/// The sessions of a server, with the settings that their agents are started with.
pub struct SessionManager {
    sessions: HashMap<u128, ManagedSession>,
    default_width: u32,
    default_height: u32,
    display_pool: DisplayPool,
    /// The certificate that agents pin.
    tls_cert_path: Option<String>,
    video_config: VideoConfig,
    gpu_driver: String,
    /// The backend that agents run on; `auto` was resolved when the manager was made.
    backend: String,
    /// The first display number.
    display_start: u32,
}

/// The settings that agents are started with.
pub struct SettingsView {
    pub default_width: u32,
    pub default_height: u32,
    pub tls_cert_path: Option<Seq<char>>,
    pub framerate: u32,
    pub bitrate: u32,
    pub min_bitrate: u32,
    pub max_bitrate: u32,
    pub max_width: u32,
    pub max_height: u32,
    pub encoder: Option<Seq<char>>,
    pub gpu_driver: Seq<char>,
    pub backend: Seq<char>,
    pub display_start: u32,
}

/// A manager in mathematical terms.
#[verifier::ext_equal]
pub struct ManagerView {
    pub sessions: Map<u128, SessionView>,
    pub pool: PoolView,
    pub settings: SettingsView,
}

impl View for SessionManager {
    type V = ManagerView;

    closed spec fn view(&self) -> ManagerView {
        ManagerView {
            sessions: self.sessions@.map_values(|s: ManagedSession| s@),
            pool: self.display_pool@,
            settings: SettingsView {
                default_width: self.default_width,
                default_height: self.default_height,
                tls_cert_path: opt_text(self.tls_cert_path),
                framerate: self.video_config.framerate,
                bitrate: self.video_config.bitrate,
                min_bitrate: self.video_config.min_bitrate,
                max_bitrate: self.video_config.max_bitrate,
                max_width: self.video_config.max_width,
                max_height: self.video_config.max_height,
                encoder: opt_text(self.video_config.encoder),
                gpu_driver: self.gpu_driver@,
                backend: self.backend@,
                display_start: self.display_start,
            },
        }
    }
}

/// The manager with other sessions.
pub open spec fn with_sessions(m: ManagerView, sessions: Map<u128, SessionView>) -> ManagerView {
    ManagerView { sessions, ..m }
}

/// The manager with one session set.
pub open spec fn with_session(m: ManagerView, id: u128, s: SessionView) -> ManagerView {
    with_sessions(m, m.sessions.insert(id, s))
}

/// Whether each session is kept under its own identifier.
pub open spec fn keyed_by_id(m: ManagerView) -> bool {
    forall|id: u128| #[trigger]
        m.sessions.contains_key(id) ==> m.sessions[id].info.id == id
}

/// The width that a session starts with: the one asked for where it is from 320 to 3840.
pub open spec fn initial_width_of(asked: Option<u32>, default: u32) -> u32 {
    match asked {
        Some(w) => if 320 <= w <= 3840 {
            w
        } else {
            default
        },
        None => default,
    }
}

/// The height that a session starts with: the one asked for where it is from 240 to 2160.
pub open spec fn initial_height_of(asked: Option<u32>, default: u32) -> u32 {
    match asked {
        Some(h) => if 240 <= h <= 2160 {
            h
        } else {
            default
        },
        None => default,
    }
}

/// A session at its start.
pub open spec fn fresh_session(
    info: InfoView,
    agent_token: Seq<char>,
    release_token: Seq<char>,
    idle_timeout_override: Option<u64>,
) -> SessionView {
    SessionView {
        info,
        systemd_unit: None,
        last_activity: info.created_at,
        agent_token,
        release_token,
        grace_generation: 0,
        restart_count: 0,
        idle_timeout_override,
    }
}

/// What is asked for when a session is made.
pub struct SessionRequest {
    pub username: String,
    /// How many sessions there may be.
    pub max_sessions: usize,
    pub initial_width: Option<u32>,
    pub initial_height: Option<u32>,
    pub idle_timeout_override: Option<u64>,
}

/// Whether making a session under `id` at the time `now` leads from one manager to another, with
/// the result `r`.
pub open spec fn session_made(
    m: ManagerView,
    n: ManagerView,
    id: u128,
    now: u64,
    request: SessionRequest,
    agent_token: Seq<char>,
    release_token: Seq<char>,
    r: Result<SessionInfo, String>,
) -> bool {
    match r {
        Ok(info) => {
            &&& m.sessions.len() < request.max_sessions
            &&& info@ == (InfoView {
                id,
                username: request.username@,
                display: info.display,
                width: initial_width_of(request.initial_width, m.settings.default_width),
                height: initial_height_of(request.initial_height, m.settings.default_height),
                created_at: now,
            })
            &&& allocated(m.pool, n.pool, info.display)
            &&& n.sessions == m.sessions.insert(
                id,
                fresh_session(info@, agent_token, release_token, request.idle_timeout_override),
            )
            &&& n.settings == m.settings
        },
        Err(message) => {
            &&& m.sessions.len() >= request.max_sessions
            &&& message@ == "Maximum number of sessions reached ("@ + decimal(
                request.max_sessions as nat,
            ) + ")"@
            &&& n == m
        },
    }
}

/// Whether an agent that shows `token` may connect to a session.
pub open spec fn admits_agent(m: ManagerView, id: u128, token: Seq<char>) -> bool {
    m.sessions.contains_key(id) && m.sessions[id].agent_token == token
}

/// Whether `token` releases a session.
pub open spec fn admits_release(m: ManagerView, id: u128, token: Seq<char>) -> bool {
    m.sessions.contains_key(id) && m.sessions[id].release_token == token
}

/// The systemd unit that an agent was started in, where it was.
pub open spec fn started_unit(start: Result<String, String>) -> Option<Seq<char>> {
    match start {
        Ok(unit) => Some(unit@),
        Err(_) => None,
    }
}

/// The manager once the start of a new session's agent has come to an end: the session has its
/// unit, or it is taken out again and its display number comes back.
pub open spec fn start_settled(m: ManagerView, id: u128, display: u32, unit: Option<Seq<char>>)
    -> ManagerView {
    match unit {
        Some(u) => if m.sessions.contains_key(id) {
            with_session(m, id, SessionView { systemd_unit: Some(u), ..m.sessions[id] })
        } else {
            m
        },
        None => ManagerView {
            sessions: m.sessions.remove(id),
            pool: released(m.pool, display),
            ..m
        },
    }
}

/// The manager once the agent of a session was started again under a new token, where it was.
pub open spec fn respawned(m: ManagerView, id: u128, unit: Option<Seq<char>>, token: Seq<char>)
    -> ManagerView {
    match unit {
        Some(u) => if m.sessions.contains_key(id) {
            with_session(
                m,
                id,
                SessionView { systemd_unit: Some(u), agent_token: token, ..m.sessions[id] },
            )
        } else {
            m
        },
        None => m,
    }
}

/// What is needed to start the agent of a session again.
pub struct RespawnPlan {
    pub info: SessionInfo,
    /// The systemd unit to stop first.
    pub systemd_unit: Option<String>,
}

/// What is left to do for a session that was taken out.
pub struct StoppedSession {
    /// The display number, to be given back once the agent has stopped.
    pub display: u32,
    /// The systemd unit to stop.
    pub systemd_unit: Option<String>,
}

/// The seconds without activity after which a session is stale; 0 for never.
pub open spec fn idle_limit(s: SessionView, max_idle_secs: u64) -> u64 {
    match s.idle_timeout_override {
        Some(secs) => secs,
        None => max_idle_secs,
    }
}

/// Whether a session has been idle for longer than it may at the time `now`.
pub open spec fn is_stale(s: SessionView, now: u64, max_idle_secs: u64) -> bool {
    let limit = idle_limit(s, max_idle_secs);
    limit > 0 && now - s.last_activity > limit
}

/// Whether `ids` names each key of a map once.
pub open spec fn enumerates(ids: Seq<u128>, keys: Set<u128>) -> bool {
    ids.no_duplicates() && ids.to_set() == keys
}

/// The record that the session under `id` is kept as on disk.
pub open spec fn record_of(id: u128, s: SessionView) -> PersistedView {
    PersistedView {
        info: InfoView { id, ..s.info },
        agent_pid: 0,
        agent_token: s.agent_token,
        release_token: s.release_token,
        systemd_unit: s.systemd_unit,
    }
}

/// The systemd unit to look for when a record is restored.
pub open spec fn recorded_unit(p: PersistedView) -> Seq<char> {
    match p.systemd_unit {
        Some(unit) => unit,
        None => unit_name_of(p.info.id),
    }
}

/// The systemd unit of a session's agent.
pub open spec fn unit_name_of(id: u128) -> Seq<char> {
    "beam-agent-"@ + uuid_text(id)
}

/// What was found out about the agent of a record.
pub struct AgentState {
    /// The systemd unit is active.
    pub unit_active: bool,
    /// The process of the record exists.
    pub process_exists: bool,
}

/// Whether the agent of a record still runs.
pub open spec fn is_alive(p: PersistedView, found: AgentState) -> bool {
    found.unit_active || (p.agent_pid > 0 && found.process_exists)
}

/// The session that a record is restored to.
pub open spec fn restored_session(
    p: PersistedView,
    unit_active: bool,
    now: u64,
    new_release_token: Seq<char>,
) -> SessionView {
    SessionView {
        info: p.info,
        systemd_unit: if unit_active {
            Some(recorded_unit(p))
        } else {
            None
        },
        last_activity: now,
        agent_token: p.agent_token,
        release_token: if p.release_token.len() == 0 {
            new_release_token
        } else {
            p.release_token
        },
        grace_generation: 0,
        restart_count: 0,
        idle_timeout_override: None,
    }
}

/// The manager once a record has been restored, where its agent is alive.
pub open spec fn restored(
    m: ManagerView,
    p: PersistedView,
    found: AgentState,
    now: u64,
    new_release_token: Seq<char>,
) -> ManagerView {
    if is_alive(p, found) {
        ManagerView {
            sessions: m.sessions.insert(
                p.info.id,
                restored_session(p, found.unit_active, now, new_release_token),
            ),
            pool: reserved(m.pool, p.info.display),
            ..m
        }
    } else {
        m
    }
}

/// A record that was found on disk, and what goes with it.
pub struct FoundRecord {
    pub record: PersistedSession,
    pub agent: AgentState,
    /// The release token that the session gets where the record has none.
    pub new_release_token: String,
}

/// The manager once all records have been restored, in their order.
pub open spec fn restored_all(m: ManagerView, found: Seq<FoundRecord>, now: u64) -> ManagerView
    decreases found.len(),
{
    if found.len() == 0 {
        m
    } else {
        let f = found.last();
        restored(
            restored_all(m, found.drop_last(), now),
            f.record@,
            f.agent,
            now,
            f.new_release_token@,
        )
    }
}

/// The identifiers of the records whose agents are alive, in their order.
pub open spec fn restored_ids(found: Seq<FoundRecord>) -> Seq<u128>
    decreases found.len(),
{
    if found.len() == 0 {
        Seq::empty()
    } else if is_alive(found.last().record@, found.last().agent) {
        restored_ids(found.drop_last()).push(found.last().record.session_id)
    } else {
        restored_ids(found.drop_last())
    }
}

/// Whether two byte strings are equal. Every byte of the longer one is looked at, whatever the
/// outcome.
pub fn constant_time_eq(a: &[u8], b: &[u8]) -> (r: bool)
    ensures
        r == (a@ == b@),
{
    let mut diff: u8 = if a.len() != b.len() {
        1
    } else {
        0
    };
    let n: usize = if a.len() > b.len() {
        a.len()
    } else {
        b.len()
    };
    for i in 0..n
        invariant
            n == if a@.len() > b@.len() {
                a@.len()
            } else {
                b@.len()
            },
            diff == 0 <==> a@.len() == b@.len() && forall|k: int| 0 <= k < i ==> a@[k] == b@[k],
    {
        let x: u8 = if i < a.len() {
            a[i]
        } else {
            0
        };
        let y: u8 = if i < b.len() {
            b[i]
        } else {
            0
        };
        assert(diff | (x ^ y) == 0 <==> diff == 0 && x == y) by (bit_vector);
        diff = diff | (x ^ y);
    }
    assert(diff == 0 ==> a@ =~= b@);
    diff == 0
}

proof fn lemma_bytes_determine_text(a: Seq<char>, b: Seq<char>)
    ensures
        vstd::utf8::encode_utf8(a) == vstd::utf8::encode_utf8(b) <==> a == b,
{
    vstd::utf8::encode_utf8_decode_utf8(a);
    vstd::utf8::encode_utf8_decode_utf8(b);
}

fn tokens_match(a: &str, b: &str) -> (r: bool)
    ensures
        r == (a@ == b@),
{
    proof {
        lemma_bytes_determine_text(a@, b@);
    }
    constant_time_eq(a.as_bytes(), b.as_bytes())
}

/// The systemd unit of a session's agent.
pub fn unit_name(id: u128) -> (r: String)
    ensures
        r@ == unit_name_of(id),
{
    "beam-agent-".to_owned().concat(uuid_string(id).as_str())
}

impl PersistedSession {
    /// The systemd unit to look for when the record is restored.
    pub fn unit(&self) -> (r: String)
        ensures
            r@ == recorded_unit(self@),
    {
        match &self.systemd_unit {
            Some(unit) => unit.clone(),
            None => unit_name(self.session_id),
        }
    }

    /// Whether the agent of the record still runs, by what was found out about it.
    pub fn is_running(&self, found: &AgentState) -> (r: bool)
        ensures
            r == is_alive(self@, *found),
    {
        found.unit_active || (self.agent_pid > 0 && found.process_exists)
    }
}

/// The settings that agents are started with, for reading.
pub(crate) struct Settings<'a> {
    pub(crate) tls_cert_path: &'a Option<String>,
    pub(crate) video: &'a VideoConfig,
    pub(crate) gpu_driver: &'a str,
    pub(crate) backend: &'a str,
    pub(crate) display_start: u32,
}

impl SessionManager {
    /// The settings that agents are started with.
    pub(crate) fn settings(&self) -> (r: Settings<'_>)
        ensures
            opt_text(*r.tls_cert_path) == self@.settings.tls_cert_path,
            r.video.framerate == self@.settings.framerate,
            r.video.bitrate == self@.settings.bitrate,
            r.video.max_width == self@.settings.max_width,
            r.video.max_height == self@.settings.max_height,
            opt_text(r.video.encoder) == self@.settings.encoder,
            r.gpu_driver@ == self@.settings.gpu_driver,
            r.backend@ == self@.settings.backend,
            r.display_start == self@.settings.display_start,
    {
        Settings {
            tls_cert_path: &self.tls_cert_path,
            video: &self.video_config,
            gpu_driver: self.gpu_driver.as_str(),
            backend: self.backend.as_str(),
            display_start: self.display_start,
        }
    }

    /// A manager without sessions. `os_release` is the text of `/etc/os-release`, by which the
    /// backend `auto` is resolved once and for all.
    pub fn new(
        display_start: u32,
        default_width: u32,
        default_height: u32,
        tls_cert_path: Option<String>,
        video_config: VideoConfig,
        gpu_driver: String,
        backend: String,
        os_release: &str,
    ) -> (r: Self)
        ensures
            r@ == (ManagerView {
                sessions: Map::empty(),
                pool: PoolView { next: display_start, free: Set::empty() },
                settings: SettingsView {
                    default_width,
                    default_height,
                    tls_cert_path: opt_text(tls_cert_path),
                    framerate: video_config.framerate,
                    bitrate: video_config.bitrate,
                    min_bitrate: video_config.min_bitrate,
                    max_bitrate: video_config.max_bitrate,
                    max_width: video_config.max_width,
                    max_height: video_config.max_height,
                    encoder: opt_text(video_config.encoder),
                    gpu_driver: gpu_driver@,
                    backend: resolved(backend@, os_release@),
                    display_start,
                },
            }),
    {
        let r = SessionManager {
            sessions: HashMap::new(),
            default_width,
            default_height,
            display_pool: DisplayPool::new(display_start),
            tls_cert_path,
            video_config,
            gpu_driver,
            backend: resolve_backend(backend.as_str(), os_release),
            display_start,
        };
        assert(r@.sessions =~= Map::empty());
        r
    }

    /// Whether there is a display number for one more session.
    pub fn display_available(&self) -> (r: bool)
        ensures
            r == can_allocate(self@.pool),
    {
        self.display_pool.available()
    }

    /// Makes a session under a new random identifier, at the time `now`, and takes a display
    /// number for it. The agent is yet to be started.
    pub fn create_session(
        &mut self,
        request: SessionRequest,
        now: u64,
        agent_token: String,
        release_token: String,
    ) -> (r: Result<SessionInfo, String>)
        requires
            old(self)@.sessions.len() < request.max_sessions ==> can_allocate(old(self)@.pool),
        ensures
            exists|id: u128|
                is_random_uuid(id) && #[trigger] session_made(
                    old(self)@,
                    final(self)@,
                    id,
                    now,
                    request,
                    agent_token@,
                    release_token@,
                    r,
                ),
    {
        let id: u128 = new_random_uuid();
        self.reserve_session(id, request, now, agent_token, release_token)
    }

    /// Makes a session under the identifier `id`, at the time `now`, and takes a display number
    /// for it, unless there are as many sessions as there may be.
    pub fn reserve_session(
        &mut self,
        id: u128,
        request: SessionRequest,
        now: u64,
        agent_token: String,
        release_token: String,
    ) -> (r: Result<SessionInfo, String>)
        requires
            old(self)@.sessions.len() < request.max_sessions ==> can_allocate(old(self)@.pool),
        ensures
            session_made(
                old(self)@,
                final(self)@,
                id,
                now,
                request,
                agent_token@,
                release_token@,
                r,
            ),
    {
        let width: u32 = match request.initial_width {
            Some(w) => if 320 <= w && w <= 3840 {
                w
            } else {
                self.default_width
            },
            None => self.default_width,
        };
        let height: u32 = match request.initial_height {
            Some(h) => if 240 <= h && h <= 2160 {
                h
            } else {
                self.default_height
            },
            None => self.default_height,
        };
        proof {
            lemma_len(self.sessions@);
        }
        if self.sessions.len() >= request.max_sessions {
            return Err(
                "Maximum number of sessions reached (".to_owned().concat(
                    decimal_u64(request.max_sessions as u64).as_str(),
                ).concat(")"),
            );
        }
        let display: u32 = self.display_pool.allocate();
        let info = SessionInfo {
            id,
            username: request.username,
            display,
            width,
            height,
            created_at: now,
        };
        let managed = ManagedSession {
            info: info.copied(),
            systemd_unit: None,
            last_activity: now,
            agent_token,
            release_token,
            grace_generation: 0,
            restart_count: 0,
            idle_timeout_override: request.idle_timeout_override,
        };
        self.put(id, managed);
        Ok(info)
    }

    fn put(&mut self, id: u128, s: ManagedSession)
        ensures
            final(self)@ == with_session(old(self)@, id, s@),
    {
        self.sessions.insert(id, s);
        assert(self@.sessions =~= old(self)@.sessions.insert(id, s@));
    }

    fn take(&mut self, id: u128) -> (r: Option<ManagedSession>)
        ensures
            final(self)@ == with_sessions(old(self)@, old(self)@.sessions.remove(id)),
            match r {
                Some(s) => old(self)@.sessions.contains_key(id) && s@ == old(self)@.sessions[id],
                None => !old(self)@.sessions.contains_key(id),
            },
    {
        let r = self.sessions.remove(&id);
        assert(self@.sessions =~= old(self)@.sessions.remove(id));
        r
    }

    fn look(&self, id: u128) -> (r: Option<&ManagedSession>)
        ensures
            match r {
                Some(s) => self@.sessions.contains_key(id) && s@ == self@.sessions[id],
                None => !self@.sessions.contains_key(id),
            },
    {
        self.sessions.get(&id)
    }

    /// Notes the systemd unit that a session's agent was started in.
    fn agent_started(&mut self, id: u128, unit: String)
        ensures
            final(self)@ == if old(self)@.sessions.contains_key(id) {
                with_session(
                    old(self)@,
                    id,
                    SessionView { systemd_unit: Some(unit@), ..old(self)@.sessions[id] },
                )
            } else {
                old(self)@
            },
    {
        match self.take(id) {
            Some(mut s) => {
                s.systemd_unit = Some(unit);
                self.put(id, s);
                assert(self@.sessions =~= old(self)@.sessions.insert(id, s@));
            },
            None => {
                assert(self@.sessions =~= old(self)@.sessions);
            },
        }
    }

    /// Undoes the making of a session whose agent could not be started.
    fn agent_failed(&mut self, id: u128, display: u32)
        ensures
            final(self)@ == (ManagerView {
                sessions: old(self)@.sessions.remove(id),
                pool: released(old(self)@.pool, display),
                ..old(self)@
            }),
    {
        let _ = self.take(id);
        self.display_pool.release(display);
    }

    /// Takes in what the start of a new session's agent came to: the systemd unit that it runs in,
    /// or why it does not. A session whose agent does not run is undone.
    pub fn session_started(&mut self, info: SessionInfo, start: Result<String, String>) -> (r:
        Result<SessionInfo, String>)
        ensures
            final(self)@ == start_settled(
                old(self)@,
                info@.id,
                info@.display,
                started_unit(start),
            ),
            match start {
                Ok(_) => r matches Ok(i) && i@ == info@,
                Err(e) => r matches Err(f) && f@ == "Failed to start agent service: "@ + e@,
            },
    {
        match start {
            Ok(unit) => {
                self.agent_started(info.id, unit);
                Ok(info)
            },
            Err(e) => {
                self.agent_failed(info.id, info.display);
                Err("Failed to start agent service: ".to_owned().concat(e.as_str()))
            },
        }
    }

    /// What is needed to start the agent of a session again; none where there is no such session.
    pub fn respawn_plan(&self, id: u128) -> (r: Option<RespawnPlan>)
        ensures
            match r {
                Some(p) => self@.sessions.contains_key(id) && p.info@ == self@.sessions[id].info
                    && opt_text(p.systemd_unit) == self@.sessions[id].systemd_unit,
                None => !self@.sessions.contains_key(id),
            },
    {
        match self.look(id) {
            Some(s) => Some(
                RespawnPlan {
                    info: s.info.copied(),
                    systemd_unit: match &s.systemd_unit {
                        Some(unit) => Some(unit.clone()),
                        None => None,
                    },
                },
            ),
            None => None,
        }
    }

    /// Takes in what another start of a session's agent, under a new token, came to. Nothing where
    /// there is no such session. A start that fails changes nothing; after one that does not, the
    /// session knows its agent by the new token alone.
    pub fn respawn_agent(&mut self, id: u128, start: Result<String, String>, agent_token: String)
        -> (r: Result<Option<()>, String>)
        ensures
            final(self)@ == respawned(old(self)@, id, started_unit(start), agent_token@),
            match r {
                Ok(None) => !old(self)@.sessions.contains_key(id),
                Ok(Some(())) => old(self)@.sessions.contains_key(id) && start is Ok,
                Err(e) => old(self)@.sessions.contains_key(id) && (start matches Err(f) && e@
                    == f@),
            },
            r matches Ok(Some(())) ==> forall|shown: Seq<char>| #[trigger]
                admits_agent(final(self)@, id, shown) <==> shown == agent_token@,
    {
        let known = self.look(id).is_some();
        if !known {
            return Ok(None);
        }
        match start {
            Ok(unit) => {
                self.agent_respawned(id, unit, agent_token);
                Ok(Some(()))
            },
            Err(e) => Err(e),
        }
    }

    /// Takes a session out, and says what is left to do for it. Its display number is given back
    /// by `release_display` once the agent has stopped.
    pub fn destroy_session(&mut self, id: u128) -> (r: Option<StoppedSession>)
        ensures
            final(self)@ == with_sessions(old(self)@, old(self)@.sessions.remove(id)),
            match r {
                Some(s) => {
                    &&& old(self)@.sessions.contains_key(id)
                    &&& s.display == old(self)@.sessions[id].info.display
                    &&& opt_text(s.systemd_unit) == old(self)@.sessions[id].systemd_unit
                },
                None => !old(self)@.sessions.contains_key(id),
            },
    {
        match self.take(id) {
            Some(s) => Some(
                StoppedSession { display: s.info.display, systemd_unit: s.systemd_unit },
            ),
            None => None,
        }
    }

    /// Gives a display number back.
    pub fn release_display(&mut self, display: u32)
        ensures
            final(self)@ == (ManagerView {
                pool: released(old(self)@.pool, display),
                ..old(self)@
            }),
    {
        self.display_pool.release(display);
    }

    fn ids(&self) -> (r: Vec<u128>)
        ensures
            enumerates(r@, self@.sessions.dom()),
    {
        let mut out: Vec<u128> = Vec::new();
        for id in it: self.sessions.keys()
            invariant
                it.seq().unref().to_set() == self.sessions@.dom(),
                it.seq().unref().no_duplicates(),
                out@ == it.seq().unref().take(it.index() as int),
                it.index() == it.seq().len() ==> out@ == it.seq().unref(),
        {
            out.push(*id);
            assert(it.seq().unref().take(it.index() + 1) =~= it.seq().unref().take(
                it.index() as int,
            ).push(*id));
        }
        assert(self@.sessions.dom() =~= self.sessions@.dom());
        out
    }

    /// The information of all sessions, in no particular order.
    pub fn list_sessions(&self) -> (r: Vec<SessionInfo>)
        ensures
            exists|ids: Seq<u128>|
                #![trigger enumerates(ids, self@.sessions.dom())]
                enumerates(ids, self@.sessions.dom()) && r@.len() == ids.len() && forall|i: int|
                    0 <= i < ids.len() ==> (#[trigger] r@[i])@ == self@.sessions[ids[i]].info,
    {
        let ids = self.ids();
        let mut out: Vec<SessionInfo> = Vec::new();
        for i in 0..ids.len()
            invariant
                enumerates(ids@, self@.sessions.dom()),
                out@.len() == i,
                forall|k: int|
                    0 <= k < i ==> (#[trigger] out@[k])@ == self@.sessions[ids@[k]].info,
        {
            assert(ids@.to_set().contains(ids@[i as int]));
            match self.look(ids[i]) {
                Some(s) => {
                    out.push(s.info.copied());
                },
                None => {},
            }
        }
        out
    }

    /// The information of all sessions and when each was last active, in no particular order.
    pub fn list_sessions_with_activity(&self) -> (r: Vec<(SessionInfo, u64)>)
        ensures
            exists|ids: Seq<u128>|
                #![trigger enumerates(ids, self@.sessions.dom())]
                enumerates(ids, self@.sessions.dom()) && r@.len() == ids.len() && forall|i: int|
                    0 <= i < ids.len() ==> {
                        let entry = #[trigger] r@[i];
                        entry.0@ == self@.sessions[ids[i]].info && entry.1
                            == self@.sessions[ids[i]].last_activity
                    },
    {
        let ids = self.ids();
        let mut out: Vec<(SessionInfo, u64)> = Vec::new();
        for i in 0..ids.len()
            invariant
                enumerates(ids@, self@.sessions.dom()),
                out@.len() == i,
                forall|k: int|
                    0 <= k < i ==> {
                        let entry = #[trigger] out@[k];
                        entry.0@ == self@.sessions[ids@[k]].info && entry.1
                            == self@.sessions[ids@[k]].last_activity
                    },
        {
            assert(ids@.to_set().contains(ids@[i as int]));
            match self.look(ids[i]) {
                Some(s) => {
                    out.push((s.info.copied(), s.last_activity));
                },
                None => {},
            }
        }
        out
    }

    /// The information of one session.
    pub fn get_session(&self, id: u128) -> (r: Option<SessionInfo>)
        ensures
            match r {
                Some(info) => self@.sessions.contains_key(id) && info@ == self@.sessions[id].info,
                None => !self@.sessions.contains_key(id),
            },
    {
        match self.look(id) {
            Some(s) => Some(s.info.copied()),
            None => None,
        }
    }

    /// Notes that a session was active at the time `now`; false where there is no such session.
    pub fn heartbeat(&mut self, id: u128, now: u64) -> (r: bool)
        ensures
            r == old(self)@.sessions.contains_key(id),
            final(self)@ == if r {
                with_session(
                    old(self)@,
                    id,
                    SessionView { last_activity: now, ..old(self)@.sessions[id] },
                )
            } else {
                old(self)@
            },
    {
        match self.take(id) {
            Some(mut s) => {
                s.last_activity = now;
                self.put(id, s);
                assert(self@.sessions =~= old(self)@.sessions.insert(id, s@));
                true
            },
            None => {
                assert(self@.sessions =~= old(self)@.sessions);
                false
            },
        }
    }

    /// The identifiers of the sessions that have been idle for too long at the time `now`, in no
    /// particular order. A session's own timeout counts before `max_idle_secs`; a timeout of 0
    /// is none.
    pub fn stale_sessions(&self, now: u64, max_idle_secs: u64) -> (r: Vec<u128>)
        ensures
            r@.no_duplicates(),
            forall|id: u128|
                #![trigger r@.contains(id)]
                r@.contains(id) <==> self@.sessions.contains_key(id) && is_stale(
                    self@.sessions[id],
                    now,
                    max_idle_secs,
                ),
    {
        let ids = self.ids();
        let mut out: Vec<u128> = Vec::new();
        for i in 0..ids.len()
            invariant
                enumerates(ids@, self@.sessions.dom()),
                out@.no_duplicates(),
                forall|id: u128|
                    #![trigger out@.contains(id)]
                    out@.contains(id) <==> ids@.take(i as int).contains(id) && is_stale(
                        self@.sessions[id],
                        now,
                        max_idle_secs,
                    ),
        {
            let id: u128 = ids[i];
            let ghost before = out@;
            let ghost seen = ids@.take(i as int);
            assert(ids@.to_set().contains(id));
            assert(ids@.take(i + 1) =~= seen.push(id));
            proof {
                lemma_push_contains(seen, id);
            }
            assert(!seen.contains(id));
            match self.look(id) {
                Some(s) => {
                    let limit: u64 = match s.idle_timeout_override {
                        Some(secs) => secs,
                        None => max_idle_secs,
                    };
                    let idle: u64 = if now > s.last_activity {
                        now - s.last_activity
                    } else {
                        0
                    };
                    if limit > 0 && idle > limit {
                        out.push(id);
                        proof {
                            lemma_push_contains(before, id);
                        }
                        assert(!before.contains(id));
                    }
                },
                None => {},
            }
            assert forall|x: u128|
                #![trigger out@.contains(x)]
                out@.contains(x) <==> ids@.take(i + 1).contains(x) && is_stale(
                    self@.sessions[x],
                    now,
                    max_idle_secs,
                ) by {
                assert(before.contains(x) <==> seen.contains(x) && is_stale(
                    self@.sessions[x],
                    now,
                    max_idle_secs,
                ));
            }
        }
        assert(ids@.take(ids@.len() as int) =~= ids@);
        assert forall|id: u128| ids@.contains(id) <==> self@.sessions.contains_key(id) by {
            assert(ids@.to_set().contains(id) <==> self@.sessions.dom().contains(id));
        }
        out
    }

    /// The idle timeout of a session in seconds: its own, or `global_default`.
    pub fn get_idle_timeout(&self, id: u128, global_default: u64) -> (r: u64)
        ensures
            r == if self@.sessions.contains_key(id) {
                idle_limit(self@.sessions[id], global_default)
            } else {
                global_default
            },
    {
        match self.look(id) {
            Some(s) => match s.idle_timeout_override {
                Some(secs) => secs,
                None => global_default,
            },
            None => global_default,
        }
    }

    /// Whether `token` is the one that the session's agent must show.
    pub fn verify_agent_token(&self, id: u128, token: &str) -> (r: bool)
        ensures
            r == admits_agent(self@, id, token@),
    {
        match self.look(id) {
            Some(s) => tokens_match(s.agent_token.as_str(), token),
            None => false,
        }
    }

    /// A session of the given user, where there is one.
    pub fn find_by_username(&self, username: &str) -> (r: Option<SessionInfo>)
        ensures
            match r {
                Some(info) => info@.username == username@ && exists|id: u128| #[trigger]
                    self@.sessions.contains_key(id) && self@.sessions[id].info == info@,
                None => forall|id: u128| #[trigger]
                    self@.sessions.contains_key(id) ==> self@.sessions[id].info.username
                        != username@,
            },
    {
        let ids = self.ids();
        for i in 0..ids.len()
            invariant
                enumerates(ids@, self@.sessions.dom()),
                forall|k: int|
                    0 <= k < i ==> self@.sessions[#[trigger] ids@[k]].info.username != username@,
        {
            assert(ids@.to_set().contains(ids@[i as int]));
            match self.look(ids[i]) {
                Some(s) => {
                    if text_eq(s.info.username.as_str(), username) {
                        return Some(s.info.copied());
                    }
                },
                None => {},
            }
        }
        assert forall|id: u128| #[trigger] self@.sessions.contains_key(id) implies self@.sessions[id].info.username
            != username@ by {
            assert(ids@.to_set().contains(id));
            let k = choose|k: int| 0 <= k < ids@.len() && ids@[k] == id;
        }
        None
    }

    /// The release token of a session.
    pub fn get_release_token(&self, id: u128) -> (r: Option<String>)
        ensures
            opt_text(r) == if self@.sessions.contains_key(id) {
                Some(self@.sessions[id].release_token)
            } else {
                None
            },
    {
        match self.look(id) {
            Some(s) => Some(s.release_token.clone()),
            None => None,
        }
    }

    /// Whether `token` is the one that releases the session.
    pub fn verify_release_token(&self, id: u128, token: &str) -> (r: bool)
        ensures
            r == admits_release(self@, id, token@),
    {
        match self.look(id) {
            Some(s) => tokens_match(s.release_token.as_str(), token),
            None => false,
        }
    }

    fn bump_generation(&mut self, id: u128) -> (r: Option<u64>)
        ensures
            grace_bumped(old(self)@, final(self)@, id),
            r == if old(self)@.sessions.contains_key(id) {
                Some(next_generation(old(self)@.sessions[id].grace_generation))
            } else {
                None
            },
    {
        match self.take(id) {
            Some(mut s) => {
                let next: u64 = s.grace_generation.wrapping_add(1);
                s.grace_generation = next;
                self.put(id, s);
                assert(self@.sessions =~= old(self)@.sessions.insert(id, s@));
                Some(next)
            },
            None => {
                assert(self@.sessions =~= old(self)@.sessions);
                None
            },
        }
    }

    /// Begins a grace period of a session: the number that its timer is begun under. All timers
    /// that were begun before are overtaken.
    pub fn start_grace_period(&mut self, id: u128) -> (r: Option<u64>)
        ensures
            grace_bumped(old(self)@, final(self)@, id),
            r == if old(self)@.sessions.contains_key(id) {
                Some(next_generation(old(self)@.sessions[id].grace_generation))
            } else {
                None
            },
    {
        self.bump_generation(id)
    }

    /// Cancels the grace period of a session: all its timers are overtaken.
    pub fn cancel_grace_period(&mut self, id: u128)
        ensures
            grace_bumped(old(self)@, final(self)@, id),
    {
        let _ = self.bump_generation(id);
    }

    /// Whether a timer that was begun under `generation` still counts when it ends. One of a session
    /// that has ended in the meantime does not: there is nothing left to end.
    pub fn grace_period_ended(&self, id: u128, generation: u64) -> (r: bool)
        ensures
            r == timer_counts(self@, id, generation),
    {
        match self.look(id) {
            Some(s) => s.grace_generation == generation,
            None => false,
        }
    }

    /// Counts a restart of a session's agent: how many there were.
    pub fn increment_restart_count(&mut self, id: u128) -> (r: Option<u32>)
        requires
            old(self)@.sessions.contains_key(id) ==> old(self)@.sessions[id].restart_count
                < u32::MAX,
        ensures
            match r {
                Some(count) => {
                    &&& old(self)@.sessions.contains_key(id)
                    &&& count == old(self)@.sessions[id].restart_count + 1
                    &&& final(self)@ == with_session(
                        old(self)@,
                        id,
                        SessionView { restart_count: count, ..old(self)@.sessions[id] },
                    )
                },
                None => !old(self)@.sessions.contains_key(id) && final(self)@ == old(self)@,
            },
    {
        match self.take(id) {
            Some(mut s) => {
                let count: u32 = s.restart_count + 1;
                s.restart_count = count;
                self.put(id, s);
                assert(self@.sessions =~= old(self)@.sessions.insert(id, s@));
                Some(count)
            },
            None => {
                assert(self@.sessions =~= old(self)@.sessions);
                None
            },
        }
    }

    /// How often a session's agent was restarted.
    pub fn get_restart_count(&self, id: u128) -> (r: Option<u32>)
        ensures
            r == if self@.sessions.contains_key(id) {
                Some(self@.sessions[id].restart_count)
            } else {
                None
            },
    {
        match self.look(id) {
            Some(s) => Some(s.restart_count),
            None => None,
        }
    }

    /// Takes the new unit and the new token of a session whose agent was started again.
    fn agent_respawned(&mut self, id: u128, unit: String, agent_token: String)
        ensures
            final(self)@ == if old(self)@.sessions.contains_key(id) {
                with_session(
                    old(self)@,
                    id,
                    SessionView {
                        systemd_unit: Some(unit@),
                        agent_token: agent_token@,
                        ..old(self)@.sessions[id]
                    },
                )
            } else {
                old(self)@
            },
    {
        match self.take(id) {
            Some(mut s) => {
                s.systemd_unit = Some(unit);
                s.agent_token = agent_token;
                self.put(id, s);
                assert(self@.sessions =~= old(self)@.sessions.insert(id, s@));
            },
            None => {
                assert(self@.sessions =~= old(self)@.sessions);
            },
        }
    }

    /// The records of all sessions whose agents run in a systemd unit, in no particular order.
    pub fn persist_sessions(&self) -> (r: Vec<PersistedSession>)
        ensures
            exists|ids: Seq<u128>|
                #![trigger enumerates(ids, with_unit(self@))]
                enumerates(ids, with_unit(self@)) && r@.len() == ids.len() && forall|i: int|
                    0 <= i < ids.len() ==> (#[trigger] r@[i])@ == record_of(
                        ids[i],
                        self@.sessions[ids[i]],
                    ),
    {
        let ids = self.ids();
        let mut out: Vec<PersistedSession> = Vec::new();
        let mut kept: Vec<u128> = Vec::new();
        for i in 0..ids.len()
            invariant
                enumerates(ids@, self@.sessions.dom()),
                kept@.no_duplicates(),
                out@.len() == kept@.len(),
                forall|id: u128|
                    #![trigger kept@.contains(id)]
                    kept@.contains(id) <==> ids@.take(i as int).contains(id)
                        && self@.sessions[id].systemd_unit is Some,
                forall|k: int|
                    0 <= k < out@.len() ==> (#[trigger] out@[k])@ == record_of(
                        kept@[k],
                        self@.sessions[kept@[k]],
                    ),
        {
            let id: u128 = ids[i];
            let ghost before = kept@;
            let ghost seen = ids@.take(i as int);
            assert(ids@.to_set().contains(id));
            assert(ids@.take(i + 1) =~= seen.push(id));
            proof {
                lemma_push_contains(seen, id);
            }
            assert(!seen.contains(id));
            match self.look(id) {
                Some(s) => match &s.systemd_unit {
                    Some(unit) => {
                        out.push(
                            PersistedSession {
                                session_id: id,
                                username: s.info.username.clone(),
                                display: s.info.display,
                                width: s.info.width,
                                height: s.info.height,
                                created_at: s.info.created_at,
                                agent_pid: 0,
                                agent_token: s.agent_token.clone(),
                                release_token: s.release_token.clone(),
                                systemd_unit: Some(unit.clone()),
                            },
                        );
                        kept.push(id);
                        proof {
                            lemma_push_contains(before, id);
                        }
                        assert(!before.contains(id));
                    },
                    None => {},
                },
                None => {},
            }
            assert forall|x: u128|
                #![trigger kept@.contains(x)]
                kept@.contains(x) <==> ids@.take(i + 1).contains(x)
                    && self@.sessions[x].systemd_unit is Some by {
                assert(before.contains(x) <==> seen.contains(x)
                    && self@.sessions[x].systemd_unit is Some);
            }
        }
        assert(ids@.take(ids@.len() as int) =~= ids@);
        assert forall|id: u128| ids@.contains(id) <==> self@.sessions.contains_key(id) by {
            assert(ids@.to_set().contains(id) <==> self@.sessions.dom().contains(id));
        }
        assert(kept@.to_set() =~= with_unit(self@)) by {
            assert forall|id: u128| kept@.to_set().contains(id) <==> with_unit(self@).contains(id) by {
                assert(kept@.contains(id) <==> kept@.to_set().contains(id));
            }
        }
        assert(enumerates(kept@, with_unit(self@)));
        out
    }

    /// Restores the session of a record at the time `now`, unless its agent is gone: whether it
    /// was restored. The display number is taken out of the pool. A record without a release
    /// token gets the new one.
    pub fn restore_session(
        &mut self,
        p: &PersistedSession,
        found: &AgentState,
        now: u64,
        new_release_token: &str,
    ) -> (r: bool)
        requires
            is_alive(p@, *found) ==> p.display < u32::MAX,
        ensures
            r == is_alive(p@, *found),
            final(self)@ == restored(old(self)@, p@, *found, now, new_release_token@),
    {
        if !p.is_running(found) {
            return false;
        }
        self.display_pool.reserve(p.display);
        let release_token = if p.release_token.as_str().is_empty() {
            new_release_token.to_owned()
        } else {
            p.release_token.clone()
        };
        let managed = ManagedSession {
            info: SessionInfo {
                id: p.session_id,
                username: p.username.clone(),
                display: p.display,
                width: p.width,
                height: p.height,
                created_at: p.created_at,
            },
            systemd_unit: if found.unit_active {
                Some(p.unit())
            } else {
                None
            },
            last_activity: now,
            agent_token: p.agent_token.clone(),
            release_token,
            grace_generation: 0,
            restart_count: 0,
            idle_timeout_override: None,
        };
        self.put(p.session_id, managed);
        true
    }

    /// Restores the sessions of the records that were found, at the time `now`: the identifiers
    /// of those whose agents are alive.
    pub fn restore_sessions(&mut self, found: &Vec<FoundRecord>, now: u64) -> (r: Vec<u128>)
        requires
            forall|i: int|
                0 <= i < found@.len() ==> is_alive((#[trigger] found@[i]).record@, found@[i].agent)
                    ==> found@[i].record.display < u32::MAX,
        ensures
            r@ == restored_ids(found@),
            final(self)@ == restored_all(old(self)@, found@, now),
    {
        let mut out: Vec<u128> = Vec::new();
        assert(found@.take(0) =~= Seq::<FoundRecord>::empty());
        for i in 0..found.len()
            invariant
                forall|k: int|
                    0 <= k < found@.len() ==> is_alive(
                        (#[trigger] found@[k]).record@,
                        found@[k].agent,
                    ) ==> found@[k].record.display < u32::MAX,
                out@ == restored_ids(found@.take(i as int)),
                self@ == restored_all(old(self)@, found@.take(i as int), now),
        {
            let f = &found[i];
            assert(found@.take(i + 1).drop_last() =~= found@.take(i as int));
            if self.restore_session(&f.record, &f.agent, now, f.new_release_token.as_str()) {
                out.push(f.record.session_id);
            }
        }
        assert(found@.take(found@.len() as int) =~= found@);
        out
    }

    /// The systemd unit of a session's agent.
    pub fn get_systemd_unit(&self, id: u128) -> (r: Option<String>)
        ensures
            opt_text(r) == if self@.sessions.contains_key(id) {
                self@.sessions[id].systemd_unit
            } else {
                None
            },
    {
        match self.look(id) {
            Some(s) => match &s.systemd_unit {
                Some(unit) => Some(unit.clone()),
                None => None,
            },
            None => None,
        }
    }
}

/// The identifiers of the sessions whose agents run in a systemd unit.
pub open spec fn with_unit(m: ManagerView) -> Set<u128> {
    m.sessions.dom().filter(|id: u128| m.sessions[id].systemd_unit is Some)
}

proof fn lemma_push_contains(s: Seq<u128>, id: u128)
    ensures
        forall|x: u128| #[trigger] s.push(id).contains(x) <==> s.contains(x) || x == id,
{
    assert forall|x: u128| #[trigger] s.push(id).contains(x) <==> s.contains(x) || x == id by {
        if s.contains(x) {
            let k = choose|k: int| 0 <= k < s.len() && s[k] == x;
            assert(s.push(id)[k] == x);
        }
        assert(s.push(id)[s.len() as int] == id);
    }
}

/// The number of the next grace period.
pub open spec fn next_generation(generation: u64) -> u64 {
    if generation == u64::MAX {
        0
    } else {
        (generation + 1) as u64
    }
}

/// Whether one manager becomes another when a session's grace number goes up.
pub open spec fn grace_bumped(m: ManagerView, n: ManagerView, id: u128) -> bool {
    if m.sessions.contains_key(id) {
        n == with_session(
            m,
            id,
            SessionView {
                grace_generation: next_generation(m.sessions[id].grace_generation),
                ..m.sessions[id]
            },
        )
    } else {
        n == m
    }
}

/// Whether a timer that was begun under `generation` still counts.
pub open spec fn timer_counts(m: ManagerView, id: u128, generation: u64) -> bool {
    m.sessions.contains_key(id) && m.sessions[id].grace_generation == generation
}

proof fn lemma_len(m: Map<u128, ManagedSession>)
    requires
        m.dom().finite(),
    ensures
        m.map_values(|s: ManagedSession| s@).len() == m.len(),
{
    assert(m.map_values(|s: ManagedSession| s@).dom() =~= m.dom());
}

// ---------------------------------------------------------------------------
// Laws
// ---------------------------------------------------------------------------

/// Whether no two sessions share a display, and none has one that can be given out.
pub open spec fn displays_are_exclusive(m: ManagerView) -> bool {
    &&& forall|id: u128| #[trigger]
        m.sessions.contains_key(id) ==> m.sessions[id].info.display < m.pool.next
            && !m.pool.free.contains(m.sessions[id].info.display)
    &&& forall|n: u32| #[trigger] m.pool.free.contains(n) ==> n < m.pool.next
    &&& forall|a: u128, b: u128|
        #![trigger m.sessions.contains_key(a), m.sessions.contains_key(b)]
        m.sessions.contains_key(a) && m.sessions.contains_key(b) && a != b
            ==> m.sessions[a].info.display != m.sessions[b].info.display
}

/// A manager starts with its displays exclusive and its sessions kept under their identifiers.
pub proof fn new_managers_are_sound(m: ManagerView)
    requires
        m.sessions == Map::<u128, SessionView>::empty(),
        m.pool.free == Set::<u32>::empty(),
    ensures
        displays_are_exclusive(m),
        keyed_by_id(m),
{
}

/// A new session gets a display that no other session has, and there are never more sessions
/// than there may be.
pub proof fn new_sessions_are_sound(
    m: ManagerView,
    n: ManagerView,
    id: u128,
    now: u64,
    request: SessionRequest,
    agent_token: Seq<char>,
    release_token: Seq<char>,
    r: Result<SessionInfo, String>,
)
    requires
        displays_are_exclusive(m),
        keyed_by_id(m),
        m.sessions.len() < request.max_sessions ==> can_allocate(m.pool),
        m.sessions.dom().finite(),
        session_made(m, n, id, now, request, agent_token, release_token, r),
    ensures
        displays_are_exclusive(n),
        keyed_by_id(n),
        r is Ok ==> n.sessions.len() <= request.max_sessions,
        r matches Ok(info) ==> forall|other: u128| #[trigger]
            m.sessions.contains_key(other) ==> m.sessions[other].info.display != info.display,
{
    match r {
        Ok(info) => {
            assert(n.sessions.contains_key(id));
            assert forall|other: u128| #[trigger]
                n.sessions.contains_key(other) implies n.sessions[other].info.display
                < n.pool.next && !n.pool.free.contains(n.sessions[other].info.display) by {
                if other != id {
                    assert(m.sessions.contains_key(other));
                }
            }
            assert forall|a: u128, b: u128|
                #![trigger n.sessions.contains_key(a), n.sessions.contains_key(b)]
                n.sessions.contains_key(a) && n.sessions.contains_key(b) && a
                    != b implies n.sessions[a].info.display != n.sessions[b].info.display by {
                if a != id {
                    assert(m.sessions.contains_key(a));
                }
                if b != id {
                    assert(m.sessions.contains_key(b));
                }
            }
        },
        Err(_) => {},
    }
}

/// A session that ends, and the return of its display once it has, leave the other sessions with
/// displays of their own.
pub proof fn ended_sessions_are_sound(m: ManagerView, id: u128)
    requires
        displays_are_exclusive(m),
        keyed_by_id(m),
        m.sessions.contains_key(id),
    ensures
        ({
            let gone = with_sessions(m, m.sessions.remove(id));
            let back = ManagerView { pool: released(gone.pool, m.sessions[id].info.display), ..gone };
            displays_are_exclusive(gone) && keyed_by_id(gone) && displays_are_exclusive(back)
                && keyed_by_id(back)
        }),
{
    let gone = with_sessions(m, m.sessions.remove(id));
    assert forall|other: u128| #[trigger] gone.sessions.contains_key(other) implies m.sessions.contains_key(
        other,
    ) && other != id by {}
}

/// A session whose agent could not be started leaves no trace but its display number, which can
/// be given out again.
pub proof fn failed_starts_are_undone(
    m: ManagerView,
    n: ManagerView,
    id: u128,
    now: u64,
    request: SessionRequest,
    agent_token: Seq<char>,
    release_token: Seq<char>,
    info: SessionInfo,
)
    requires
        displays_are_exclusive(m),
        !m.sessions.contains_key(id),
        can_allocate(m.pool),
        session_made(
            m,
            n,
            id,
            now,
            request,
            agent_token,
            release_token,
            Ok::<SessionInfo, String>(info),
        ),
    ensures
        ({
            let undone = start_settled(n, id, info.display, None);
            &&& undone.sessions == m.sessions
            &&& undone.pool.free == m.pool.free.insert(info.display)
            &&& undone.settings == m.settings
            &&& displays_are_exclusive(undone)
        }),
{
    let undone = start_settled(n, id, info.display, None);
    assert(undone.sessions =~= m.sessions);
    assert(undone.pool.free =~= m.pool.free.insert(info.display));
}

/// A session whose agent was started admits that agent and no other, can be released by its own
/// token alone, and is among those that are kept across a restart of the server.
pub proof fn started_sessions_admit_their_agent(
    m: ManagerView,
    n: ManagerView,
    id: u128,
    now: u64,
    request: SessionRequest,
    agent_token: Seq<char>,
    release_token: Seq<char>,
    info: SessionInfo,
    unit: Seq<char>,
)
    requires
        session_made(
            m,
            n,
            id,
            now,
            request,
            agent_token,
            release_token,
            Ok::<SessionInfo, String>(info),
        ),
    ensures
        ({
            let running = start_settled(n, id, info.display, Some(unit));
            &&& forall|shown: Seq<char>| #[trigger]
                admits_agent(running, id, shown) <==> shown == agent_token
            &&& forall|shown: Seq<char>| #[trigger]
                admits_release(running, id, shown) <==> shown == release_token
            &&& running.sessions[id].info == info@
            &&& running.sessions[id].systemd_unit == Some(unit)
            &&& with_unit(running).contains(id)
            &&& forall|other: u128|
                other != id ==> (running.sessions.contains_key(other) <==> #[trigger] m.sessions.contains_key(other))
            &&& forall|other: u128| #[trigger]
                m.sessions.contains_key(other) && other != id ==> running.sessions[other]
                    == m.sessions[other]
        }),
{
    let running = start_settled(n, id, info.display, Some(unit));
    assert(running.sessions.dom().contains(id));
}

/// An agent that was started again is admitted by its new token alone. All else that the session
/// had, but for its unit, stays, and so does all else that the manager has.
pub proof fn respawned_agents_need_the_new_token(
    m: ManagerView,
    id: u128,
    unit: Seq<char>,
    token: Seq<char>,
)
    requires
        m.sessions.contains_key(id),
    ensures
        ({
            let n = respawned(m, id, Some(unit), token);
            &&& forall|shown: Seq<char>| #[trigger] admits_agent(n, id, shown) <==> shown == token
            &&& forall|shown: Seq<char>| #[trigger]
                admits_release(n, id, shown) <==> admits_release(m, id, shown)
            &&& n.sessions[id] == (SessionView {
                systemd_unit: Some(unit),
                agent_token: token,
                ..m.sessions[id]
            })
            &&& n.sessions.dom() == m.sessions.dom()
            &&& forall|other: u128| #[trigger]
                m.sessions.contains_key(other) && other != id ==> n.sessions[other]
                    == m.sessions[other]
            &&& n.pool == m.pool
            &&& n.settings == m.settings
            &&& displays_are_exclusive(m) ==> displays_are_exclusive(n)
            &&& keyed_by_id(m) ==> keyed_by_id(n)
        }),
{
    let n = respawned(m, id, Some(unit), token);
    assert(n.sessions.dom() =~= m.sessions.dom());
    assert(forall|other: u128| #[trigger]
        n.sessions.contains_key(other) <==> m.sessions.contains_key(other));
}

/// A start that fails, or one for a session that is gone, leaves the manager as it was.
pub proof fn failed_respawns_change_nothing(
    m: ManagerView,
    id: u128,
    unit: Option<Seq<char>>,
    token: Seq<char>,
)
    requires
        unit is None || !m.sessions.contains_key(id),
    ensures
        respawned(m, id, unit, token) == m,
{
}

/// A restored session keeps its display to itself, where no other session has it.
pub proof fn restored_sessions_are_sound(
    m: ManagerView,
    p: PersistedView,
    found: AgentState,
    now: u64,
    new_release_token: Seq<char>,
)
    requires
        displays_are_exclusive(m),
        keyed_by_id(m),
        p.info.display < u32::MAX,
        forall|other: u128| #[trigger]
            m.sessions.contains_key(other) && other != p.info.id ==> m.sessions[other].info.display
                != p.info.display,
    ensures
        displays_are_exclusive(restored(m, p, found, now, new_release_token)),
        keyed_by_id(restored(m, p, found, now, new_release_token)),
{
    if is_alive(p, found) {
        let n = restored(m, p, found, now, new_release_token);
        assert forall|other: u128| #[trigger]
            n.sessions.contains_key(other) implies n.sessions[other].info.display < n.pool.next
            && !n.pool.free.contains(n.sessions[other].info.display) by {
            if other != p.info.id {
                assert(m.sessions.contains_key(other));
            }
        }
        assert forall|a: u128, b: u128|
            #![trigger n.sessions.contains_key(a), n.sessions.contains_key(b)]
            n.sessions.contains_key(a) && n.sessions.contains_key(b) && a
                != b implies n.sessions[a].info.display != n.sessions[b].info.display by {
            if a != p.info.id {
                assert(m.sessions.contains_key(a));
            }
            if b != p.info.id {
                assert(m.sessions.contains_key(b));
            }
        }
    }
}

/// A session whose agent runs in a systemd unit comes back from its record as it was, with the
/// counters at zero, no timeout of its own, and the time of the restart as its last activity.
pub proof fn records_restore_sessions(
    s: SessionView,
    id: u128,
    found: AgentState,
    now: u64,
    new_release_token: Seq<char>,
)
    requires
        s.info.id == id,
        s.systemd_unit is Some,
        s.release_token.len() > 0,
        found.unit_active,
    ensures
        is_alive(record_of(id, s), found),
        restored_session(record_of(id, s), found.unit_active, now, new_release_token) == (
        SessionView {
            last_activity: now,
            grace_generation: 0,
            restart_count: 0,
            idle_timeout_override: None,
            ..s
        }),
{
}

/// A session as it comes back after a restart of the server at the time `now`.
pub open spec fn readopted(s: SessionView, now: u64) -> SessionView {
    SessionView {
        last_activity: now,
        grace_generation: 0,
        restart_count: 0,
        idle_timeout_override: None,
        ..s
    }
}

/// Whether what was found on disk are the records of sessions, in the order of `ids`, and all
/// their agents still run.
pub open spec fn all_found(m: ManagerView, ids: Seq<u128>, found: Seq<FoundRecord>) -> bool {
    &&& found.len() == ids.len()
    &&& forall|i: int|
        0 <= i < ids.len() ==> (#[trigger] found[i]).record@ == record_of(
            ids[i],
            m.sessions[ids[i]],
        ) && found[i].agent.unit_active
}

proof fn lemma_restart(
    m: ManagerView,
    fresh: ManagerView,
    ids: Seq<u128>,
    found: Seq<FoundRecord>,
    now: u64,
)
    requires
        keyed_by_id(m),
        displays_are_exclusive(m),
        fresh.sessions == Map::<u128, SessionView>::empty(),
        fresh.pool.free == Set::<u32>::empty(),
        ids.no_duplicates(),
        forall|i: int|
            0 <= i < ids.len() ==> {
                let id = #[trigger] ids[i];
                m.sessions.contains_key(id) && m.sessions[id].systemd_unit is Some
                    && m.sessions[id].release_token.len() > 0
            },
        all_found(m, ids, found),
    ensures
        ({
            let n = restored_all(fresh, found, now);
            &&& displays_are_exclusive(n)
            &&& keyed_by_id(n)
            &&& forall|id: u128| #[trigger] n.sessions.contains_key(id) <==> ids.contains(id)
            &&& forall|id: u128|
                ids.contains(id) ==> #[trigger] n.sessions[id] == readopted(m.sessions[id], now)
        }),
    decreases found.len(),
{
    let n = restored_all(fresh, found, now);
    if found.len() == 0 {
        assert(n == fresh);
    } else {
        let k = found.len() - 1;
        let front = ids.drop_last();
        let id = ids[k];
        let f = found[k];
        assert forall|i: int| 0 <= i < front.len() implies (#[trigger] found.drop_last()[i]).record@
            == record_of(front[i], m.sessions[front[i]]) && found.drop_last()[i].agent.unit_active by {
            assert(found.drop_last()[i] == found[i]);
        }
        assert forall|i: int| 0 <= i < front.len() implies {
            let other = #[trigger] front[i];
            m.sessions.contains_key(other) && m.sessions[other].systemd_unit is Some
                && m.sessions[other].release_token.len() > 0
        } by {
            assert(front[i] == ids[i]);
        }
        lemma_restart(m, fresh, front, found.drop_last(), now);
        let b = restored_all(fresh, found.drop_last(), now);
        assert(f.record@ == record_of(id, m.sessions[id]));
        assert(found.last() == f);
        assert(!front.contains(id));
        assert forall|other: u128| #[trigger]
            b.sessions.contains_key(other) && other != f.record@.info.id implies b.sessions[other].info.display
            != f.record@.info.display by {
            assert(front.contains(other));
            let i = choose|i: int| 0 <= i < front.len() && front[i] == other;
            assert(ids[i] == other);
            assert(m.sessions.contains_key(other) && m.sessions.contains_key(id));
            assert(b.sessions[other] == readopted(m.sessions[other], now));
        }
        assert(m.sessions.contains_key(id));
        assert(f.record@.info.display < u32::MAX);
        restored_sessions_are_sound(b, f.record@, f.agent, now, f.new_release_token@);
        records_restore_sessions(m.sessions[id], id, f.agent, now, f.new_release_token@);
        assert(n == restored(b, f.record@, f.agent, now, f.new_release_token@));
        assert(ids =~= front.push(id));
        lemma_push_contains(front, id);
    }
}

/// A restart of the server keeps the sessions whose agents run in systemd units: from the records
/// that the old manager leaves, a new one gets exactly these sessions back, each as it was but for
/// its counters, its own timeout and its last activity, on displays that it gives to no other.
pub proof fn restarts_keep_sessions(
    m: ManagerView,
    fresh: ManagerView,
    ids: Seq<u128>,
    found: Seq<FoundRecord>,
    now: u64,
)
    requires
        keyed_by_id(m),
        displays_are_exclusive(m),
        forall|id: u128| #[trigger]
            m.sessions.contains_key(id) ==> m.sessions[id].release_token.len() > 0,
        enumerates(ids, with_unit(m)),
        all_found(m, ids, found),
        fresh.sessions == Map::<u128, SessionView>::empty(),
        fresh.pool.free == Set::<u32>::empty(),
    ensures
        ({
            let n = restored_all(fresh, found, now);
            &&& n.sessions.dom() == with_unit(m)
            &&& forall|id: u128| #[trigger]
                n.sessions.contains_key(id) ==> n.sessions[id] == readopted(m.sessions[id], now)
            &&& displays_are_exclusive(n)
            &&& keyed_by_id(n)
        }),
{
    assert forall|i: int| 0 <= i < ids.len() implies {
        let id = #[trigger] ids[i];
        m.sessions.contains_key(id) && m.sessions[id].systemd_unit is Some
            && m.sessions[id].release_token.len() > 0
    } by {
        assert(ids.to_set().contains(ids[i]));
        assert(with_unit(m).contains(ids[i]));
    }
    lemma_restart(m, fresh, ids, found, now);
    let n = restored_all(fresh, found, now);
    assert forall|id: u128| n.sessions.dom().contains(id) <==> with_unit(m).contains(id) by {
        assert(ids.contains(id) <==> ids.to_set().contains(id));
    }
    assert(n.sessions.dom() =~= with_unit(m));
}

/// A change to one session leaves all others as they were.
pub proof fn other_sessions_stay(m: ManagerView, id: u128, s: SessionView, other: u128)
    requires
        other != id,
    ensures
        with_session(m, id, s).sessions.contains_key(other) == m.sessions.contains_key(other),
        m.sessions.contains_key(other) ==> with_session(m, id, s).sessions[other]
            == m.sessions[other],
        with_session(m, id, s).pool == m.pool,
{
}

/// The timer of the grace period that was begun last counts, and no other does.
pub proof fn only_the_last_timer_counts(m: ManagerView, n: ManagerView, id: u128, generation: u64)
    requires
        m.sessions.contains_key(id),
        grace_bumped(m, n, id),
    ensures
        timer_counts(n, id, generation) <==> generation == next_generation(
            m.sessions[id].grace_generation,
        ),
        timer_counts(m, id, generation) ==> !timer_counts(n, id, generation),
{
}

/// A session that was just active is not stale, and becomes so only when more than its idle limit
/// has passed since.
pub proof fn active_sessions_are_not_stale(s: SessionView, active: u64, now: u64, max_idle_secs: u64)
    ensures
        ({
            let t = SessionView { last_activity: active, ..s };
            &&& now <= active ==> !is_stale(t, now, max_idle_secs)
            &&& is_stale(t, now, max_idle_secs) <==> idle_limit(s, max_idle_secs) > 0 && now
                > active + idle_limit(s, max_idle_secs)
        }),
{
}

/// A session that was stale stays so until it is active again.
pub proof fn stale_sessions_stay_stale(s: SessionView, now: u64, later: u64, max_idle_secs: u64)
    requires
        now <= later,
        is_stale(s, now, max_idle_secs),
    ensures
        is_stale(s, later, max_idle_secs),
{
}

/// A session has the size that was asked for where that is from 320 to 3840 wide and from 240 to
/// 2160 high, side by side, and on any other side the manager's own. It belongs to the user who
/// asked for it, from the time of the request on, and it is made exactly where there are fewer
/// sessions than there may be.
pub proof fn sessions_are_made_as_asked_for(
    m: &mut SessionManager,
    id: u128,
    request: SessionRequest,
    now: u64,
    agent_token: String,
    release_token: String,
    r: Result<SessionInfo, String>,
)
    requires
        old(m)@.sessions.len() < request.max_sessions ==> can_allocate(old(m)@.pool),
        call_ensures(
            SessionManager::reserve_session,
            (m, id, request, now, agent_token, release_token),
            r,
        ),
    ensures
        r is Ok <==> old(m)@.sessions.len() < request.max_sessions,
        r is Err ==> final(m)@ == old(m)@,
        r matches Ok(info) ==> {
            &&& (request.initial_width matches Some(w) && 320 <= w <= 3840) ==> info.width
                == request.initial_width->0
            &&& !(request.initial_width matches Some(w) && 320 <= w <= 3840) ==> info.width
                == old(m)@.settings.default_width
            &&& (request.initial_height matches Some(h) && 240 <= h <= 2160) ==> info.height
                == request.initial_height->0
            &&& !(request.initial_height matches Some(h) && 240 <= h <= 2160) ==> info.height
                == old(m)@.settings.default_height
            &&& info.id == id
            &&& info.username@ == request.username@
            &&& info.created_at == now
            &&& final(m)@.sessions.dom() == old(m)@.sessions.dom().insert(id)
            &&& final(m)@.sessions[id].info == info@
            &&& final(m)@.sessions[id].last_activity == now
            &&& final(m)@.sessions[id].agent_token == agent_token@
            &&& final(m)@.sessions[id].release_token == release_token@
            &&& final(m)@.sessions[id].systemd_unit is None
            &&& final(m)@.sessions[id].restart_count == 0
            &&& final(m)@.sessions[id].grace_generation == 0
            &&& final(m)@.sessions[id].idle_timeout_override == request.idle_timeout_override
            &&& forall|other: u128| #[trigger]
                old(m)@.sessions.contains_key(other) && other != id
                    ==> final(m)@.sessions[other] == old(m)@.sessions[other]
            &&& old(m)@.pool.free.len() == 0 ==> info.display == old(m)@.pool.next
            &&& old(m)@.pool.free.len() > 0 ==> old(m)@.pool.free.contains(info.display)
            &&& !final(m)@.pool.free.contains(info.display)
            &&& forall|n: u32|
                n != info.display ==> (#[trigger] final(m)@.pool.free.contains(n)
                    <==> old(m)@.pool.free.contains(n))
            &&& final(m)@.pool.next == old(m)@.pool.next + (if old(m)@.pool.free.len() == 0 {
                1int
            } else {
                0
            })
            &&& final(m)@.settings == old(m)@.settings
        },
        r matches Err(e) ==> e@ == "Maximum number of sessions reached ("@ + decimal(
            request.max_sessions as nat,
        ) + ")"@,
{
    if r is Ok {
        assert(final(m)@.sessions.dom() =~= old(m)@.sessions.dom().insert(id));
        if old(m)@.pool.free.len() == 0 {
            assert(!final(m)@.pool.free.contains(r->Ok_0.display)) by {
                lemma_no_free(old(m)@.pool.free, r->Ok_0.display);
            }
        }
    }
}

proof fn lemma_no_free(free: Set<u32>, n: u32)
    requires
        free.len() == 0,
    ensures
        !free.contains(n),
{
    vstd::set_lib::lemma_int_range(0, 0x1_0000_0000);
    let all = Set::new(|x: u32| true);
    lemma_u32_finite();
    assert(free.subset_of(all));
    vstd::set_lib::lemma_set_subset_finite(all, free);
    if free.contains(n) {
        vstd::set_lib::lemma_len_subset(set![n], free);
    }
}

proof fn lemma_u32_finite()
    ensures
        Set::new(|x: u32| true).finite(),
{
    let ints = vstd::set_lib::set_int_range(0, 0x1_0000_0000);
    vstd::set_lib::lemma_int_range(0, 0x1_0000_0000);
    let mapped = ints.map(|x: int| x as u32);
    ints.lemma_map_finite(|x: int| x as u32);
    assert forall|x: u32| mapped.contains(x) by {
        assert(ints.contains(x as int));
        assert((x as int) as u32 == x);
    }
    assert(mapped =~= Set::new(|x: u32| true));
}

/// A session that shows a sign of life was last active just then, and nothing else changes.
pub proof fn heartbeats_are_noted(m: &mut SessionManager, id: u128, now: u64, r: bool, other: u128)
    requires
        call_ensures(SessionManager::heartbeat, (m, id, now), r),
    ensures
        r <==> old(m)@.sessions.contains_key(id),
        r ==> final(m)@.sessions[id] == (SessionView {
            last_activity: now,
            ..old(m)@.sessions[id]
        }),
        !r ==> final(m)@ == old(m)@,
        other != id ==> final(m)@.sessions.contains_key(other) == old(m)@.sessions.contains_key(other)
            && final(m)@.sessions[other] == old(m)@.sessions[other],
        final(m)@.pool == old(m)@.pool,
        final(m)@.settings == old(m)@.settings,
{
}

/// A session is stale exactly where its own limit, or else the server's, is set and was passed since
/// its last activity; each stale session is named once, and no other.
pub proof fn stale_sessions_are_found(
    m: &SessionManager,
    now: u64,
    max_idle_secs: u64,
    r: Vec<u128>,
    id: u128,
)
    requires
        call_ensures(SessionManager::stale_sessions, (m, now, max_idle_secs), r),
    ensures
        r@.no_duplicates(),
        r@.contains(id) ==> m@.sessions.contains_key(id),
        m@.sessions.contains_key(id) ==> (m@.sessions[id].idle_timeout_override matches Some(limit)
            ==> (r@.contains(id) <==> limit > 0 && now > m@.sessions[id].last_activity + limit)),
        m@.sessions.contains_key(id) && m@.sessions[id].idle_timeout_override is None ==> (
        r@.contains(id) <==> max_idle_secs > 0 && now > m@.sessions[id].last_activity
            + max_idle_secs),
{
}

/// What is asked about a session is answered by what the session has, and about one that is not
/// there by nothing.
pub proof fn sessions_are_asked(
    m: &SessionManager,
    id: u128,
    token: &str,
    default: u64,
    generation: u64,
    info: Option<SessionInfo>,
    agent: bool,
    release: bool,
    own: Option<String>,
    unit: Option<String>,
    restarts: Option<u32>,
    timeout: u64,
    ended: bool,
)
    requires
        call_ensures(SessionManager::get_session, (m, id), info),
        call_ensures(SessionManager::verify_agent_token, (m, id, token), agent),
        call_ensures(SessionManager::verify_release_token, (m, id, token), release),
        call_ensures(SessionManager::get_release_token, (m, id), own),
        call_ensures(SessionManager::get_systemd_unit, (m, id), unit),
        call_ensures(SessionManager::get_restart_count, (m, id), restarts),
        call_ensures(SessionManager::get_idle_timeout, (m, id, default), timeout),
        call_ensures(SessionManager::grace_period_ended, (m, id, generation), ended),
    ensures
        m@.sessions.contains_key(id) ==> {
            let s = m@.sessions[id];
            &&& info matches Some(i) && i@ == s.info
            &&& agent <==> s.agent_token == token@
            &&& release <==> s.release_token == token@
            &&& own matches Some(t) && t@ == s.release_token
            &&& unit is Some <==> s.systemd_unit is Some
            &&& unit matches Some(u) ==> s.systemd_unit == Some(u@)
            &&& restarts == Some(s.restart_count)
            &&& s.idle_timeout_override matches Some(t) ==> timeout == t
            &&& s.idle_timeout_override is None ==> timeout == default
            &&& ended <==> s.grace_generation == generation
        },
        !m@.sessions.contains_key(id) ==> info is None && !agent && !release && own is None && unit is None
            && restarts is None && timeout == default && !ended,
{
}

/// A user who has a session gets one of their own, and one who has none gets none.
pub proof fn users_find_their_sessions(
    m: &SessionManager,
    username: &str,
    r: Option<SessionInfo>,
    id: u128,
)
    requires
        call_ensures(SessionManager::find_by_username, (m, username), r),
    ensures
        m@.sessions.contains_key(id) && m@.sessions[id].info.username == username@ ==> r is Some,
        r matches Some(i) ==> i.username@ == username@ && exists|k: u128| #[trigger]
            m@.sessions.contains_key(k) && m@.sessions[k].info == i@,
{
}

/// Whether there is a session of which this is told.
pub open spec fn is_told_of(m: ManagerView, info: InfoView) -> bool {
    exists|k: u128| #[trigger] m.sessions.contains_key(k) && m.sessions[k].info == info
}

/// A list of the sessions holds each of them, and nothing else, and as many entries as there are.
pub proof fn lists_are_complete(
    m: &SessionManager,
    r: Vec<SessionInfo>,
    a: Vec<(SessionInfo, u64)>,
    id: u128,
)
    requires
        call_ensures(SessionManager::list_sessions, (m,), r),
        call_ensures(SessionManager::list_sessions_with_activity, (m,), a),
    ensures
        m@.sessions.contains_key(id) ==> exists|i: int|
            0 <= i < r@.len() && (#[trigger] r@[i])@ == m@.sessions[id].info,
        m@.sessions.contains_key(id) ==> exists|i: int|
            0 <= i < a@.len() && (#[trigger] a@[i]).0@ == m@.sessions[id].info && a@[i].1
                == m@.sessions[id].last_activity,
        forall|i: int| 0 <= i < r@.len() ==> is_told_of(m@, (#[trigger] r@[i])@),
        forall|i: int| 0 <= i < a@.len() ==> is_told_of(m@, (#[trigger] a@[i]).0@),
        r@.len() == m@.sessions.dom().len(),
        a@.len() == m@.sessions.dom().len(),
{
    let ids = choose|ids: Seq<u128>|
        #![trigger enumerates(ids, m@.sessions.dom())]
        enumerates(ids, m@.sessions.dom()) && r@.len() == ids.len() && forall|i: int|
            0 <= i < ids.len() ==> (#[trigger] r@[i])@ == m@.sessions[ids[i]].info;
    let ads = choose|ids: Seq<u128>|
        #![trigger enumerates(ids, m@.sessions.dom())]
        enumerates(ids, m@.sessions.dom()) && a@.len() == ids.len() && forall|i: int|
            0 <= i < ids.len() ==> {
                let entry = #[trigger] a@[i];
                entry.0@ == m@.sessions[ids[i]].info && entry.1 == m@.sessions[ids[i]].last_activity
            };
    if m@.sessions.contains_key(id) {
        assert(ids.to_set().contains(id));
        let i = choose|i: int| 0 <= i < ids.len() && ids[i] == id;
        assert(r@[i]@ == m@.sessions[id].info);
        assert(ads.to_set().contains(id));
        let k = choose|k: int| 0 <= k < ads.len() && ads[k] == id;
        assert(a@[k].0@ == m@.sessions[id].info);
    }
    assert forall|i: int| 0 <= i < r@.len() implies is_told_of(m@, (#[trigger] r@[i])@) by {
        assert(ids.to_set().contains(ids[i]));
        assert(m@.sessions.contains_key(ids[i]));
    }
    assert forall|i: int| 0 <= i < a@.len() implies is_told_of(m@, (#[trigger] a@[i]).0@) by {
        assert(ads.to_set().contains(ads[i]));
        assert(m@.sessions.contains_key(ads[i]));
    }
    ids.unique_seq_to_set();
    ads.unique_seq_to_set();
}

/// A session that is ended is gone, with what is left to do for it, and its display comes back when
/// it is given back. Other sessions stay.
pub proof fn sessions_end(
    m: &mut SessionManager,
    id: u128,
    r: Option<StoppedSession>,
    n: &mut SessionManager,
    display: u32,
    other: u128,
)
    requires
        call_ensures(SessionManager::destroy_session, (m, id), r),
        call_ensures(SessionManager::release_display, (n, display), ()),
    ensures
        r is Some <==> old(m)@.sessions.contains_key(id),
        r matches Some(s) ==> s.display == old(m)@.sessions[id].info.display && opt_text(
            s.systemd_unit,
        ) == old(m)@.sessions[id].systemd_unit,
        !final(m)@.sessions.contains_key(id),
        other != id ==> final(m)@.sessions.contains_key(other) == old(m)@.sessions.contains_key(other)
            && (old(m)@.sessions.contains_key(other) ==> final(m)@.sessions[other]
            == old(m)@.sessions[other]),
        final(m)@.pool == old(m)@.pool,
        final(m)@.settings == old(m)@.settings,
        final(n)@.pool.free.contains(display),
        forall|k: u32|
            k != display ==> (#[trigger] final(n)@.pool.free.contains(k)
                <==> old(n)@.pool.free.contains(k)),
        final(n)@.pool.next == old(n)@.pool.next,
        final(n)@.sessions == old(n)@.sessions,
        final(n)@.settings == old(n)@.settings,
{
}

/// A grace period that is begun gives a number under which its timer counts, and under which none
/// that was begun before counts any more; one that is cancelled leaves none that counts.
pub proof fn grace_periods_overtake_each_other(
    m: &mut SessionManager,
    id: u128,
    r: Option<u64>,
    earlier: u64,
    n: &mut SessionManager,
    after: &SessionManager,
    cancelled: &SessionManager,
    now_counts: bool,
    then_counted: bool,
    still_counts: bool,
)
    requires
        call_ensures(SessionManager::start_grace_period, (m, id), r),
        call_ensures(SessionManager::cancel_grace_period, (n, id), ()),
        after@ == final(m)@,
        cancelled@ == final(n)@,
        old(m)@.sessions.contains_key(id) ==> old(m)@.sessions[id].grace_generation == earlier,
        old(n)@.sessions.contains_key(id) ==> old(n)@.sessions[id].grace_generation == earlier,
        r is Some ==> call_ensures(SessionManager::grace_period_ended, (after, id, r->0), now_counts),
        call_ensures(SessionManager::grace_period_ended, (after, id, earlier), then_counted),
        call_ensures(SessionManager::grace_period_ended, (cancelled, id, earlier), still_counts),
    ensures
        r is Some <==> old(m)@.sessions.contains_key(id),
        r is Some ==> now_counts,
        !then_counted,
        !still_counts,
{
}

/// A restart is counted by one.
pub proof fn restarts_are_counted(m: &mut SessionManager, id: u128, r: Option<u32>)
    requires
        old(m)@.sessions.contains_key(id) ==> old(m)@.sessions[id].restart_count < u32::MAX,
        call_ensures(SessionManager::increment_restart_count, (m, id), r),
    ensures
        r is Some <==> old(m)@.sessions.contains_key(id),
        r matches Some(n) ==> n == old(m)@.sessions[id].restart_count + 1
            && final(m)@.sessions[id].restart_count == n,
        r is None ==> final(m)@ == old(m)@,
{
}

/// The records that are kept are those of the sessions with a unit, each with all that the session
/// needs to come back.
pub proof fn records_are_complete(m: &SessionManager, r: Vec<PersistedSession>, id: u128)
    requires
        call_ensures(SessionManager::persist_sessions, (m,), r),
    ensures
        m@.sessions.contains_key(id) && m@.sessions[id].systemd_unit is Some ==> exists|i: int|
            0 <= i < r@.len() && is_record_of(#[trigger] r@[i], id, m@.sessions[id]),
        forall|i: int|
            0 <= i < r@.len() ==> {
                let p = #[trigger] r@[i];
                m@.sessions.contains_key(p.session_id) && m@.sessions[p.session_id].systemd_unit is Some
                    && is_record_of(p, p.session_id, m@.sessions[p.session_id])
            },
        forall|i: int, j: int|
            0 <= i < j < r@.len() ==> (#[trigger] r@[i]).session_id != (#[trigger] r@[j]).session_id,
{
    let ids = choose|ids: Seq<u128>|
        #![trigger enumerates(ids, with_unit(m@))]
        enumerates(ids, with_unit(m@)) && r@.len() == ids.len() && forall|i: int|
            0 <= i < ids.len() ==> (#[trigger] r@[i])@ == record_of(ids[i], m@.sessions[ids[i]]);
    if m@.sessions.contains_key(id) && m@.sessions[id].systemd_unit is Some {
        assert(with_unit(m@).contains(id));
        assert(ids.to_set().contains(id));
        let i = choose|i: int| 0 <= i < ids.len() && ids[i] == id;
        assert(r@[i]@ == record_of(id, m@.sessions[id]));
        assert(is_record_of(r@[i], id, m@.sessions[id]));
    }
    assert forall|i: int| 0 <= i < r@.len() implies {
        let p = #[trigger] r@[i];
        m@.sessions.contains_key(p.session_id) && m@.sessions[p.session_id].systemd_unit is Some
            && is_record_of(p, p.session_id, m@.sessions[p.session_id])
    } by {
        assert(ids.to_set().contains(ids[i]));
        assert(with_unit(m@).contains(ids[i]));
        assert(r@[i]@ == record_of(ids[i], m@.sessions[ids[i]]));
        assert(r@[i]@.info.id == ids[i]);
    }
    assert forall|i: int, j: int| 0 <= i < j < r@.len() implies (#[trigger] r@[i]).session_id != (
    #[trigger] r@[j]).session_id by {
        assert(r@[i]@.info.id == ids[i]);
        assert(r@[j]@.info.id == ids[j]);
    }
}

/// Whether a record has the user, the display, the size, the time, the tokens and the unit of a
/// session.
pub open spec fn is_record_of(p: PersistedSession, id: u128, s: SessionView) -> bool {
    &&& p.session_id == id
    &&& p.username@ == s.info.username
    &&& p.display == s.info.display
    &&& (p.width, p.height) == (s.info.width, s.info.height)
    &&& p.created_at == s.info.created_at
    &&& p.agent_pid == 0
    &&& p.agent_token@ == s.agent_token
    &&& p.release_token@ == s.release_token
    &&& opt_text(p.systemd_unit) == s.systemd_unit
}

/// A record comes back as the session that it was exactly where its unit is active, or it has a
/// process that exists; then its display is taken, and it was last active at the restart.
pub proof fn records_come_back(
    m: &mut SessionManager,
    p: &PersistedSession,
    found: &AgentState,
    now: u64,
    token: &str,
    r: bool,
)
    requires
        is_alive(p@, *found) ==> p.display < u32::MAX,
        call_ensures(SessionManager::restore_session, (m, p, found, now, token), r),
    ensures
        r <==> found.unit_active || (p.agent_pid > 0 && found.process_exists),
        !r ==> final(m)@ == old(m)@,
        r ==> {
            let s = final(m)@.sessions[p.session_id];
            &&& final(m)@.sessions.contains_key(p.session_id)
            &&& s.info.username == p.username@
            &&& s.info.id == p.session_id
            &&& s.info.display == p.display
            &&& (s.info.width, s.info.height) == (p.width, p.height)
            &&& s.info.created_at == p.created_at
            &&& s.agent_token == p.agent_token@
            &&& p.release_token@.len() > 0 ==> s.release_token == p.release_token@
            &&& p.release_token@.len() == 0 ==> s.release_token == token@
            &&& s.last_activity == now
            &&& s.idle_timeout_override is None
            &&& (s.grace_generation, s.restart_count) == (0u64, 0u32)
            &&& found.unit_active && p.systemd_unit is Some ==> s.systemd_unit == opt_text(
                p.systemd_unit,
            )
            &&& found.unit_active && p.systemd_unit is None ==> s.systemd_unit == Some(
                "beam-agent-"@ + uuid_text(p.session_id),
            )
            &&& !found.unit_active ==> s.systemd_unit is None
            &&& !final(m)@.pool.free.contains(p.display)
            &&& final(m)@.pool.next > p.display
            &&& final(m)@.pool.next >= old(m)@.pool.next
            &&& final(m)@.pool.next == old(m)@.pool.next || final(m)@.pool.next == p.display + 1
            &&& forall|n: u32|
                n != p.display ==> (#[trigger] final(m)@.pool.free.contains(n)
                    <==> old(m)@.pool.free.contains(n))
            &&& forall|other: u128|
                other != p.session_id ==> (#[trigger] final(m)@.sessions.contains_key(other)
                    <==> old(m)@.sessions.contains_key(other)) && final(m)@.sessions[other]
                    == old(m)@.sessions[other]
            &&& final(m)@.settings == old(m)@.settings
        },
{
}

/// Tokens are compared by all of their bytes.
pub proof fn tokens_are_compared_whole(a: &[u8], b: &[u8], r: bool)
    requires
        call_ensures(constant_time_eq, (a, b), r),
    ensures
        r <==> a@.len() == b@.len() && forall|i: int| 0 <= i < a@.len() ==> a@[i] == b@[i],
{
    if a@.len() == b@.len() && forall|i: int| 0 <= i < a@.len() ==> a@[i] == b@[i] {
        assert(a@ =~= b@);
    }
}

/// A new manager has no sessions and all display numbers from its first on, hands its settings to
/// its agents as they are, and has its backend resolved.
pub proof fn managers_start_empty(
    display_start: u32,
    width: u32,
    height: u32,
    cert: Option<String>,
    video: VideoConfig,
    driver: String,
    backend: String,
    os_release: &str,
    r: SessionManager,
    b: &str,
    concrete: String,
    free: bool,
)
    requires
        call_ensures(
            SessionManager::new,
            (display_start, width, height, cert, video, driver, backend, os_release),
            r,
        ),
        b@ == backend@,
        call_ensures(resolve_backend, (b, os_release), concrete),
        call_ensures(SessionManager::display_available, (&r,), free),
    ensures
        r@.sessions.dom() == Set::<u128>::empty(),
        r@.pool.next == display_start,
        r@.pool.free == Set::<u32>::empty(),
        (r@.settings.default_width, r@.settings.default_height) == (width, height),
        r@.settings.framerate == video.framerate,
        r@.settings.bitrate == video.bitrate,
        r@.settings.max_width == video.max_width,
        r@.settings.max_height == video.max_height,
        r@.settings.encoder == opt_text(video.encoder),
        r@.settings.tls_cert_path == opt_text(cert),
        r@.settings.gpu_driver == driver@,
        r@.settings.backend == concrete@,
        r@.settings.display_start == display_start,
        free <==> display_start < 0xffff_ffff,
{
    assert(r@.sessions.dom() =~= Set::<u128>::empty());
}

/// To begin or to cancel a grace period changes the number of the session's grace periods and nothing
/// else, and to count a restart changes their number and nothing else; other sessions stay.
pub proof fn the_rest_of_a_session_stays(
    m: &mut SessionManager,
    n: &mut SessionManager,
    k: &mut SessionManager,
    id: u128,
    begun: Option<u64>,
    restarts: Option<u32>,
    other: u128,
)
    requires
        call_ensures(SessionManager::start_grace_period, (m, id), begun),
        call_ensures(SessionManager::cancel_grace_period, (n, id), ()),
        old(k)@.sessions.contains_key(id) ==> old(k)@.sessions[id].restart_count < u32::MAX,
        call_ensures(SessionManager::increment_restart_count, (k, id), restarts),
    ensures
        old(m)@.sessions.contains_key(id) ==> final(m)@.sessions[id] == (SessionView {
            grace_generation: final(m)@.sessions[id].grace_generation,
            ..old(m)@.sessions[id]
        }),
        old(n)@.sessions.contains_key(id) ==> final(n)@.sessions[id] == (SessionView {
            grace_generation: final(n)@.sessions[id].grace_generation,
            ..old(n)@.sessions[id]
        }),
        old(k)@.sessions.contains_key(id) ==> final(k)@.sessions[id] == (SessionView {
            restart_count: final(k)@.sessions[id].restart_count,
            ..old(k)@.sessions[id]
        }),
        final(m)@.sessions.contains_key(other) <==> old(m)@.sessions.contains_key(other),
        final(n)@.sessions.contains_key(other) <==> old(n)@.sessions.contains_key(other),
        final(k)@.sessions.contains_key(other) <==> old(k)@.sessions.contains_key(other),
        other != id && old(m)@.sessions.contains_key(other) ==> final(m)@.sessions[other]
            == old(m)@.sessions[other],
        other != id && old(n)@.sessions.contains_key(other) ==> final(n)@.sessions[other]
            == old(n)@.sessions[other],
        other != id && old(k)@.sessions.contains_key(other) ==> final(k)@.sessions[other]
            == old(k)@.sessions[other],
        (final(m)@.pool, final(m)@.settings) == (old(m)@.pool, old(m)@.settings),
        (final(n)@.pool, final(n)@.settings) == (old(n)@.pool, old(n)@.settings),
        (final(k)@.pool, final(k)@.settings) == (old(k)@.pool, old(k)@.settings),
{
}

/// A session whose agent has started has the unit of that agent, and is otherwise as it was. One
/// whose agent has not is gone, its display comes back, and the caller is told why. Other sessions
/// stay.
pub proof fn starts_are_settled(
    m: &mut SessionManager,
    info: SessionInfo,
    start: Result<String, String>,
    r: Result<SessionInfo, String>,
    other: u128,
)
    requires
        call_ensures(SessionManager::session_started, (m, info, start), r),
    ensures
        r is Ok <==> start is Ok,
        start matches Ok(unit) ==> {
            &&& r matches Ok(i) && i@ == info@
            &&& final(m)@.sessions.contains_key(info.id) <==> old(m)@.sessions.contains_key(info.id)
            &&& old(m)@.sessions.contains_key(info.id) ==> {
                let a = old(m)@.sessions[info.id];
                let b = final(m)@.sessions[info.id];
                &&& b.systemd_unit == Some(unit@)
                &&& (b.info, b.agent_token, b.release_token) == (
                    a.info,
                    a.agent_token,
                    a.release_token,
                )
                &&& (b.last_activity, b.grace_generation, b.restart_count, b.idle_timeout_override)
                    == (a.last_activity, a.grace_generation, a.restart_count, a.idle_timeout_override)
            }
            &&& final(m)@.pool == old(m)@.pool
        },
        start matches Err(e) ==> {
            &&& r matches Err(f) && f@ == "Failed to start agent service: "@ + e@
            &&& !final(m)@.sessions.contains_key(info.id)
            &&& final(m)@.pool.free.contains(info.display)
            &&& final(m)@.pool.next == old(m)@.pool.next
            &&& forall|n: u32|
                n != info.display ==> (#[trigger] final(m)@.pool.free.contains(n)
                    <==> old(m)@.pool.free.contains(n))
        },
        other != info.id ==> (final(m)@.sessions.contains_key(other)
            <==> old(m)@.sessions.contains_key(other)),
        other != info.id && old(m)@.sessions.contains_key(other) ==> final(m)@.sessions[other]
            == old(m)@.sessions[other],
        final(m)@.settings == old(m)@.settings,
{
}

/// A session whose agent was started again has the new unit and the new token, and is otherwise as it
/// was; where there is no such session, or the start fails, nothing changes. The plan for the start
/// tells of the session as it is.
pub proof fn respawns_are_settled(
    m: &mut SessionManager,
    id: u128,
    start: Result<String, String>,
    token: String,
    r: Result<Option<()>, String>,
    before: &SessionManager,
    plan: Option<RespawnPlan>,
    other: u128,
)
    requires
        call_ensures(SessionManager::respawn_agent, (m, id, start, token), r),
        call_ensures(SessionManager::respawn_plan, (before, id), plan),
    ensures
        plan is Some <==> before@.sessions.contains_key(id),
        plan matches Some(p) ==> {
            &&& p.info@ == before@.sessions[id].info
            &&& p.systemd_unit is Some <==> before@.sessions[id].systemd_unit is Some
            &&& p.systemd_unit matches Some(u) ==> before@.sessions[id].systemd_unit == Some(u@)
        },
        r matches Ok(None) <==> !old(m)@.sessions.contains_key(id),
        old(m)@.sessions.contains_key(id) ==> match start {
            Ok(unit) => {
                let a = old(m)@.sessions[id];
                let b = final(m)@.sessions[id];
                &&& r matches Ok(Some(_))
                &&& b.systemd_unit == Some(unit@)
                &&& b.agent_token == token@
                &&& (b.info, b.release_token) == (a.info, a.release_token)
                &&& (b.last_activity, b.grace_generation, b.restart_count, b.idle_timeout_override)
                    == (a.last_activity, a.grace_generation, a.restart_count, a.idle_timeout_override)
            },
            Err(e) => (r matches Err(f) && f@ == e@) && final(m)@ == old(m)@,
        },
        final(m)@.sessions.contains_key(other) <==> old(m)@.sessions.contains_key(other),
        other != id && old(m)@.sessions.contains_key(other) ==> final(m)@.sessions[other]
            == old(m)@.sessions[other],
        (final(m)@.pool, final(m)@.settings) == (old(m)@.pool, old(m)@.settings),
{
}

proof fn lemma_all_restored(m: ManagerView, found: Seq<FoundRecord>, now: u64, i: int)
    requires
        0 <= i < found.len(),
        forall|k: int|
            0 <= k < found.len() ==> is_alive((#[trigger] found[k]).record@, found[k].agent)
                ==> found[k].record.display < u32::MAX,
    ensures
        ({
            let n = restored_all(m, found, now);
            let f = found[i];
            &&& is_alive(f.record@, f.agent) ==> {
                &&& restored_ids(found).contains(f.record.session_id)
                &&& n.sessions.contains_key(f.record.session_id)
                &&& !n.pool.free.contains(f.record.display)
                &&& n.pool.next > f.record.display
                &&& (forall|k: int|
                    i < k < found.len() ==> (#[trigger] found[k]).record.session_id
                        != f.record.session_id) ==> n.sessions[f.record.session_id]
                    == restored_session(
                    f.record@,
                    f.agent.unit_active,
                    now,
                    f.new_release_token@,
                )
            }
        }),
    decreases found.len(),
{
    let last = found.last();
    let front = found.drop_last();
    let ids = restored_ids(front);
    if i < front.len() {
        lemma_all_restored(m, front, now, i);
        assert(found[i] == front[i]);
        if is_alive(found[i].record@, found[i].agent) {
            let j = choose|j: int| 0 <= j < ids.len() && ids[j] == found[i].record.session_id;
            assert(restored_ids(found)[j] == found[i].record.session_id);
            if forall|k: int|
                i < k < found.len() ==> (#[trigger] found[k]).record.session_id
                    != found[i].record.session_id {
                assert forall|k: int| i < k < front.len() implies (
                #[trigger] front[k]).record.session_id != front[i].record.session_id by {
                    assert(found[k] == front[k]);
                }
                assert(found[found.len() - 1].record.session_id != found[i].record.session_id);
            }
        }
    } else if is_alive(last.record@, last.agent) {
        assert(restored_ids(found)[ids.len() as int] == last.record.session_id);
    }
}

proof fn lemma_none_but_restored(m: ManagerView, found: Seq<FoundRecord>, now: u64, id: u128)
    ensures
        ({
            let n = restored_all(m, found, now);
            &&& !restored_ids(found).contains(id) ==> (n.sessions.contains_key(id)
                <==> m.sessions.contains_key(id)) && n.sessions[id] == m.sessions[id]
            &&& restored_ids(found).contains(id) ==> exists|k: int|
                #![trigger found[k]]
                0 <= k < found.len() && found[k].record.session_id == id && is_alive(
                    found[k].record@,
                    found[k].agent,
                )
            &&& n.settings == m.settings
        }),
    decreases found.len(),
{
    if found.len() > 0 {
        let last = found.last();
        let front = found.drop_last();
        let ids = restored_ids(front);
        lemma_none_but_restored(m, front, now, id);
        assert forall|j: int| 0 <= j < ids.len() implies restored_ids(found).contains(
            #[trigger] ids[j],
        ) by {
            assert(restored_ids(found)[j] == ids[j]);
        }
        if is_alive(last.record@, last.agent) {
            assert(restored_ids(found)[ids.len() as int] == last.record.session_id);
        }
        if restored_ids(found).contains(id) {
            if ids.contains(id) {
                let k = choose|k: int|
                    #![trigger front[k]]
                    0 <= k < front.len() && front[k].record.session_id == id && is_alive(
                        front[k].record@,
                        front[k].agent,
                    );
                assert(found[k] == front[k]);
            } else {
                assert(found[found.len() - 1].record.session_id == id);
            }
        }
    }
}

/// A server that starts again has the session of every record whose unit is active, or whose process
/// exists, and names no other as restored. Each has the display that it had, and the last record
/// counts where two have one identifier. All other sessions stay.
pub proof fn restarted_servers_find_their_sessions(
    m: &mut SessionManager,
    found: &Vec<FoundRecord>,
    now: u64,
    r: Vec<u128>,
    i: int,
    id: u128,
)
    requires
        0 <= i < found@.len(),
        forall|k: int|
            0 <= k < found@.len() ==> is_alive((#[trigger] found@[k]).record@, found@[k].agent)
                ==> found@[k].record.display < u32::MAX,
        call_ensures(SessionManager::restore_sessions, (m, found, now), r),
    ensures
        ({
            let p = found@[i].record;
            let a = found@[i].agent;
            a.unit_active || (p.agent_pid > 0 && a.process_exists) ==> {
                &&& r@.contains(p.session_id)
                &&& final(m)@.sessions.contains_key(p.session_id)
                &&& !final(m)@.pool.free.contains(p.display)
                &&& final(m)@.pool.next > p.display
                &&& (forall|k: int|
                    i < k < found@.len() ==> (#[trigger] found@[k]).record.session_id
                        != p.session_id) ==> {
                    let s = final(m)@.sessions[p.session_id];
                    &&& s.info.id == p.session_id
                    &&& s.info.username == p.username@
                    &&& s.info.display == p.display
                    &&& (s.info.width, s.info.height) == (p.width, p.height)
                    &&& s.info.created_at == p.created_at
                    &&& s.agent_token == p.agent_token@
                    &&& p.release_token@.len() > 0 ==> s.release_token == p.release_token@
                    &&& s.last_activity == now
                }
            }
        }),
        r@.contains(id) ==> exists|k: int|
            #![trigger found@[k]]
            0 <= k < found@.len() && found@[k].record.session_id == id && (
            found@[k].agent.unit_active || (found@[k].record.agent_pid > 0
                && found@[k].agent.process_exists)),
        !r@.contains(id) ==> (final(m)@.sessions.contains_key(id)
            <==> old(m)@.sessions.contains_key(id)) && final(m)@.sessions[id]
            == old(m)@.sessions[id],
        final(m)@.settings == old(m)@.settings,
{
    lemma_all_restored(old(m)@, found@, now, i);
    lemma_none_but_restored(old(m)@, found@, now, id);
}

/// A session that is made under a random identifier is one that is made as asked for, and agents and
/// units are named after it.
pub proof fn random_sessions_are_made_as_asked_for(
    m: &mut SessionManager,
    request: SessionRequest,
    now: u64,
    agent_token: String,
    release_token: String,
    r: Result<SessionInfo, String>,
    id: u128,
    unit: String,
)
    requires
        old(m)@.sessions.len() < request.max_sessions ==> can_allocate(old(m)@.pool),
        call_ensures(
            SessionManager::create_session,
            (m, request, now, agent_token, release_token),
            r,
        ),
        call_ensures(unit_name, (id,), unit),
    ensures
        unit@ == "beam-agent-"@ + uuid_text(id),
        r is Ok <==> old(m)@.sessions.len() < request.max_sessions,
        r is Err ==> final(m)@ == old(m)@,
        r matches Ok(info) ==> {
            &&& (request.initial_width matches Some(w) && 320 <= w <= 3840) ==> info.width
                == request.initial_width->0
            &&& !(request.initial_width matches Some(w) && 320 <= w <= 3840) ==> info.width
                == old(m)@.settings.default_width
            &&& (request.initial_height matches Some(h) && 240 <= h <= 2160) ==> info.height
                == request.initial_height->0
            &&& !(request.initial_height matches Some(h) && 240 <= h <= 2160) ==> info.height
                == old(m)@.settings.default_height
            &&& info.username@ == request.username@
            &&& info.created_at == now
            &&& final(m)@.sessions.contains_key(info.id)
            &&& final(m)@.sessions[info.id].info == info@
            &&& final(m)@.sessions[info.id].agent_token == agent_token@
            &&& final(m)@.sessions[info.id].release_token == release_token@
            &&& forall|other: u128|
                other != info.id ==> (#[trigger] final(m)@.sessions.contains_key(other)
                    <==> old(m)@.sessions.contains_key(other))
            &&& old(m)@.pool.free.len() == 0 ==> info.display == old(m)@.pool.next
            &&& old(m)@.pool.free.len() > 0 ==> old(m)@.pool.free.contains(info.display)
        },
{
}

/// A record is looked for in the unit that it names, or in that of its session, and its agent runs
/// where that unit is active, or where it has a process that exists. A copy of what is told of a
/// session tells the same.
pub proof fn records_are_looked_for(
    p: &PersistedSession,
    unit: String,
    found: &AgentState,
    runs: bool,
    info: &SessionInfo,
    copy: SessionInfo,
)
    requires
        call_ensures(PersistedSession::unit, (p,), unit),
        call_ensures(PersistedSession::is_running, (p, found), runs),
        call_ensures(SessionInfo::copied, (info,), copy),
    ensures
        p.systemd_unit matches Some(u) ==> unit@ == u@,
        p.systemd_unit is None ==> unit@ == "beam-agent-"@ + uuid_text(p.session_id),
        runs <==> found.unit_active || (p.agent_pid > 0 && found.process_exists),
        (copy.id, copy.display, copy.width, copy.height) == (
            info.id,
            info.display,
            info.width,
            info.height,
        ),
        copy.created_at == info.created_at && copy.username@ == info.username@,
{
}

} // verus!
