//! How long is waited for what comes up or goes away on its own, and how often it is looked for.
use vstd::prelude::*;

verus! {

/// What to do about something that is waited for.
#[derive(Clone, Copy, PartialEq, Eq, Structural)]
pub enum Wait {
    /// It is there.
    Ready,
    /// Look again after a pause.
    Pause,
    /// It is not waited for any longer.
    GiveUp,
}

/// What to do about something that is looked for so many times, with a pause after each.
pub open spec fn polled(attempt: u32, limit: u32, reached: bool) -> Wait {
    if reached {
        Wait::Ready
    } else if attempt < limit {
        Wait::Pause
    } else {
        Wait::GiveUp
    }
}

/// What to do about something that is looked for, after `attempt` pauses of at most `limit`.
pub fn poll_step(attempt: u32, limit: u32, reached: bool) -> (r: Wait)
    ensures
        r == polled(attempt, limit, reached),
{
    if reached {
        Wait::Ready
    } else if attempt < limit {
        Wait::Pause
    } else {
        Wait::GiveUp
    }
}

/// What to do about something that is looked for until a time is over.
pub open spec fn awaited(elapsed_ms: u64, limit_ms: u64, reached: bool) -> Wait {
    if elapsed_ms >= limit_ms {
        Wait::GiveUp
    } else if reached {
        Wait::Ready
    } else {
        Wait::Pause
    }
}

/// What to do about something that has been looked for during `elapsed_ms` of at most `limit_ms`.
/// What comes when the time is over comes too late.
pub fn await_step(elapsed_ms: u64, limit_ms: u64, reached: bool) -> (r: Wait)
    ensures
        r == awaited(elapsed_ms, limit_ms, reached),
{
    if elapsed_ms >= limit_ms {
        Wait::GiveUp
    } else if reached {
        Wait::Ready
    } else {
        Wait::Pause
    }
}

/// The pauses in which the socket of a sound server is waited for: two seconds of them.
pub const SOUND_SOCKET_PAUSES: u32 = 20;

/// How long such a pause is.
pub const SOUND_SOCKET_PAUSE_MS: u64 = 100;

/// How long a desktop is given before its display is captured.
pub const DESKTOP_PAUSE_MS: u64 = 500;

/// The pauses in which the lock of an X server that was stopped is waited to go: two seconds of
/// them.
pub const LOCK_PAUSES: u32 = 20;

/// How long such a pause is.
pub const LOCK_PAUSE_MS: u64 = 100;

/// The pauses in which a display that was resized settles, unless the agent shuts down.
pub const RESIZE_PAUSES: u32 = 20;

/// How long such a pause is.
pub const RESIZE_PAUSE_MS: u64 = 10;

/// How long the encoder is given for a frame.
pub const DRAIN_LIMIT_MS: u64 = 2;

/// How long the pause after a failed capture is.
pub const CAPTURE_RETRY_MS: u64 = 1;

/// How long the socket of a compositor is waited for.
pub const COMPOSITOR_LIMIT_MS: u64 = 5_000;

/// How long the pauses in between are.
pub const COMPOSITOR_PAUSE_MS: u64 = 100;

/// How long the socket of a message bus is waited for.
pub const BUS_LIMIT_MS: u64 = 3_000;

/// How long the pauses in between are.
pub const BUS_PAUSE_MS: u64 = 50;

/// How long the portal is waited for on the message bus.
pub const PORTAL_LIMIT_MS: u64 = 5_000;

/// How long the pauses in between are.
pub const PORTAL_PAUSE_MS: u64 = 100;

/// How long the portal is given for a response.
pub const RESPONSE_LIMIT_MS: u64 = 10_000;

/// How long a process of a Wayland session is given to end before it is killed.
pub const TERMINATE_LIMIT_MS: u64 = 2_000;

/// How long the pauses in between are.
pub const TERMINATE_PAUSE_MS: u64 = 50;

/// How long the process group of a desktop is given to end before it is killed.
pub const GROUP_LIMIT_MS: u64 = 500;

/// How long an X server is given before it is looked at.
pub const SERVER_PAUSE_MS: u64 = 500;

/// How long the pauses are between attempts to reach a display.
pub const PROBE_PAUSE_MS: u64 = 200;

/// How long the pauses are in which the message bus of a desktop is looked for.
pub const DESKTOP_BUS_PAUSE_MS: u64 = 1_000;

/// How long systemd is given to queue the start of an agent.
pub const SPAWN_LIMIT_MS: u64 = 10_000;

/// How long an agent is given to stop before it is killed.
pub const STOP_LIMIT_MS: u64 = 15_000;

/// How long a packet of sound is waited for: a little longer than one lasts.
pub const PACKET_LIMIT_MS: u64 = 50;

// ---------------------------------------------------------------------------
// Laws
// ---------------------------------------------------------------------------

/// How many pauses there are before something that is never reached is given up, from a number of
/// pauses on.
pub open spec fn pauses_left(attempt: u32, limit: u32) -> int
    decreases limit - attempt,
{
    if polled(attempt, limit, false) == Wait::Pause {
        1 + pauses_left((attempt + 1) as u32, limit)
    } else {
        0
    }
}

/// Something that is never reached is given up after exactly as many pauses as it was given.
pub proof fn polls_end(attempt: u32, limit: u32)
    requires
        attempt <= limit,
    ensures
        pauses_left(attempt, limit) == limit - attempt,
    decreases limit - attempt,
{
    if attempt < limit {
        polls_end((attempt + 1) as u32, limit);
    }
}

/// What is there is never waited for, and what is not is never taken to be.
pub proof fn only_what_is_there_is_ready(attempt: u32, limit: u32, elapsed_ms: u64, limit_ms: u64)
    ensures
        polled(attempt, limit, true) == Wait::Ready,
        awaited(elapsed_ms, limit_ms, true) != Wait::Pause,
        polled(attempt, limit, false) != Wait::Ready,
        awaited(elapsed_ms, limit_ms, false) != Wait::Ready,
{
}

/// What is there is taken; what is not is looked for again after a pause as long as pauses, or time,
/// are left; and what comes when the time is over comes too late.
pub proof fn waits_are_bounded(
    attempt: u32,
    limit: u32,
    reached: bool,
    p: Wait,
    elapsed_ms: u64,
    limit_ms: u64,
    a: Wait,
)
    requires
        call_ensures(poll_step, (attempt, limit, reached), p),
        call_ensures(await_step, (elapsed_ms, limit_ms, reached), a),
    ensures
        p == Wait::Ready <==> reached,
        p == Wait::Pause <==> !reached && attempt < limit,
        p == Wait::GiveUp <==> !reached && attempt >= limit,
        a == Wait::GiveUp <==> elapsed_ms >= limit_ms,
        a == Wait::Ready <==> elapsed_ms < limit_ms && reached,
        a == Wait::Pause <==> elapsed_ms < limit_ms && !reached,
{
}

/// What comes up on its own is given up after its own time: a compositor and a portal after five
/// seconds, a bus after three, a response and a unit's start after ten, a unit's end after fifteen,
/// a process that was asked to end after two, a group of them after half a second, a packet of sound
/// after fifty milliseconds, and what an encoder holds after two. Looking goes on until then.
pub proof fn waits_end_in_time(
    elapsed_ms: u64,
    compositor: Wait,
    bus: Wait,
    portal: Wait,
    response: Wait,
    end: Wait,
    group: Wait,
    spawn: Wait,
    stop: Wait,
    packet: Wait,
    drain: Wait,
)
    requires
        call_ensures(await_step, (elapsed_ms, COMPOSITOR_LIMIT_MS, false), compositor),
        call_ensures(await_step, (elapsed_ms, BUS_LIMIT_MS, false), bus),
        call_ensures(await_step, (elapsed_ms, PORTAL_LIMIT_MS, false), portal),
        call_ensures(await_step, (elapsed_ms, RESPONSE_LIMIT_MS, false), response),
        call_ensures(await_step, (elapsed_ms, TERMINATE_LIMIT_MS, false), end),
        call_ensures(await_step, (elapsed_ms, GROUP_LIMIT_MS, false), group),
        call_ensures(await_step, (elapsed_ms, SPAWN_LIMIT_MS, false), spawn),
        call_ensures(await_step, (elapsed_ms, STOP_LIMIT_MS, false), stop),
        call_ensures(await_step, (elapsed_ms, PACKET_LIMIT_MS, false), packet),
        call_ensures(await_step, (elapsed_ms, DRAIN_LIMIT_MS, false), drain),
    ensures
        compositor == Wait::GiveUp <==> elapsed_ms >= 5_000,
        bus == Wait::GiveUp <==> elapsed_ms >= 3_000,
        portal == Wait::GiveUp <==> elapsed_ms >= 5_000,
        response == Wait::GiveUp <==> elapsed_ms >= 10_000,
        end == Wait::GiveUp <==> elapsed_ms >= 2_000,
        group == Wait::GiveUp <==> elapsed_ms >= 500,
        spawn == Wait::GiveUp <==> elapsed_ms >= 10_000,
        stop == Wait::GiveUp <==> elapsed_ms >= 15_000,
        packet == Wait::GiveUp <==> elapsed_ms >= 50,
        drain == Wait::GiveUp <==> elapsed_ms >= 2,
{
}

/// What is looked for again and again is given up with its last pause: the socket of the sound and
/// the lock of a display after two seconds, and a resize after two hundred milliseconds.
pub proof fn looks_end_in_time(attempt: u32, sound: Wait, lock: Wait, resize: Wait)
    requires
        call_ensures(poll_step, (attempt, SOUND_SOCKET_PAUSES, false), sound),
        call_ensures(poll_step, (attempt, LOCK_PAUSES, false), lock),
        call_ensures(poll_step, (attempt, RESIZE_PAUSES, false), resize),
    ensures
        sound == Wait::Pause <==> attempt * SOUND_SOCKET_PAUSE_MS < 2_000,
        lock == Wait::Pause <==> attempt * LOCK_PAUSE_MS < 2_000,
        resize == Wait::Pause <==> attempt * RESIZE_PAUSE_MS < 200,
        SOUND_SOCKET_PAUSE_MS == 100 && LOCK_PAUSE_MS == 100 && RESIZE_PAUSE_MS == 10,
        COMPOSITOR_PAUSE_MS == 100 && PORTAL_PAUSE_MS == 100 && BUS_PAUSE_MS == 50,
        TERMINATE_PAUSE_MS == 50 && PROBE_PAUSE_MS == 200 && SERVER_PAUSE_MS == 500,
        DESKTOP_PAUSE_MS == 500 && DESKTOP_BUS_PAUSE_MS == 1_000 && CAPTURE_RETRY_MS == 1,
{
}

} // verus!
