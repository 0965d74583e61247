//! The rhythm of the capture: how fast it goes, when it recovers from errors and when it gives up.
use crate::cli::DEFAULT_FRAMERATE;
use crate::ids::hex_char;
use vstd::prelude::*;
use vstd::string::*;

verus! {

// ---------------------------------------------------------------------------
// Rates
// ---------------------------------------------------------------------------

/// The rates of an encoder.
pub struct Rates {
    pub framerate: u32,
    /// In kbit/s.
    pub bitrate: u32,
}

/// Whether `r` are the rates that an encoder runs at which is asked for the given ones.
pub open spec fn is_capped(software: bool, framerate: u32, bitrate: u32, r: Rates) -> bool {
    if software && framerate > 60 {
        r.framerate == 60 && r.bitrate == if bitrate < 20_000 {
            bitrate
        } else {
            20_000
        }
    } else {
        r.framerate == framerate && r.bitrate == bitrate
    }
}

/// The rates that an encoder runs at. One in software keeps up with 60 frames per second only:
/// where more are asked for, it gets 60, and at most 20 Mbit/s.
pub fn cap_rates(software: bool, framerate: u32, bitrate: u32) -> (r: Rates)
    ensures
        is_capped(software, framerate, bitrate, r),
{
    if software && framerate > 60 {
        Rates {
            framerate: 60,
            bitrate: if bitrate < 20_000 {
                bitrate
            } else {
                20_000
            },
        }
    } else {
        Rates { framerate, bitrate }
    }
}

/// After how many milliseconds without input a session is idle.
pub const IDLE_TIMEOUT_MS: u64 = 300_000;

/// The frames per second of an idle session.
pub const IDLE_FRAMERATE: u32 = 5;

/// The frames per second of a session whose tab is out of view.
pub const BACKGROUND_FRAMERATE: u32 = 1;

/// Whether a session is idle: there was input, and none for too long.
pub open spec fn idles(now_ms: u64, last_input_ms: u64) -> bool {
    last_input_ms > 0 && now_ms - last_input_ms > IDLE_TIMEOUT_MS
}

/// Whether a session is idle. A time of 0 means that there was no input yet.
pub fn is_idle(now_ms: u64, last_input_ms: u64) -> (r: bool)
    requires
        last_input_ms <= now_ms,
    ensures
        r == idles(now_ms, last_input_ms),
{
    last_input_ms > 0 && now_ms - last_input_ms > IDLE_TIMEOUT_MS
}

/// How many nanoseconds a frame takes.
pub open spec fn frame_duration(framerate: u32, backgrounded: bool, idle: bool) -> int {
    if backgrounded {
        1_000_000_000int / BACKGROUND_FRAMERATE as int
    } else if idle {
        1_000_000_000int / IDLE_FRAMERATE as int
    } else {
        1_000_000_000int / framerate as int
    }
}

/// How many nanoseconds a frame takes: longer for an idle session, and longest for one whose tab
/// is out of view.
pub fn frame_duration_ns(framerate: u32, backgrounded: bool, idle: bool) -> (r: u64)
    requires
        framerate > 0,
    ensures
        r == frame_duration(framerate, backgrounded, idle),
{
    if backgrounded {
        1_000_000_000 / BACKGROUND_FRAMERATE as u64
    } else if idle {
        1_000_000_000 / IDLE_FRAMERATE as u64
    } else {
        1_000_000_000 / framerate as u64
    }
}

/// A session whose tab is out of view is never captured faster than an idle one, nor an idle one
/// faster than an active one of at least its rate.
pub proof fn resting_sessions_are_slower(framerate: u32)
    requires
        framerate >= IDLE_FRAMERATE,
    ensures
        frame_duration(framerate, true, true) == frame_duration(framerate, true, false),
        frame_duration(framerate, true, false) >= frame_duration(framerate, false, true),
        frame_duration(framerate, false, true) >= frame_duration(framerate, false, false),
{
    assert(1_000_000_000int / (framerate as int) <= 1_000_000_000int / 5) by (nonlinear_arith)
        requires
            framerate >= 5,
    ;
}

/// What is left to do in the time of a frame.
#[derive(Clone, Copy, PartialEq, Eq, Structural)]
pub enum Pace {
    /// Nothing: the time is over.
    Next,
    /// Wait for so many nanoseconds, or until the capture is woken.
    WaitForWake(u64),
    /// Sleep for so many nanoseconds, and watch the clock for the rest.
    SleepThenSpin(u64),
    /// Watch the clock for the rest, which is too short to sleep.
    Spin,
}

/// What is left to do in the time of a frame.
pub open spec fn pace_of(elapsed_ns: u64, target_ns: u64, resting: bool) -> Pace {
    if elapsed_ns >= target_ns {
        Pace::Next
    } else if resting {
        Pace::WaitForWake((target_ns - elapsed_ns) as u64)
    } else if target_ns - elapsed_ns > 2_000_000 {
        Pace::SleepThenSpin((target_ns - elapsed_ns - 1_000_000) as u64)
    } else {
        Pace::Spin
    }
}

/// What is left to do in the time of a frame, of which `elapsed_ns` are over. A session that rests
/// can be woken; an active one sleeps to within a millisecond of the end.
pub fn pace(elapsed_ns: u64, target_ns: u64, resting: bool) -> (r: Pace)
    ensures
        r == pace_of(elapsed_ns, target_ns, resting),
{
    if elapsed_ns >= target_ns {
        return Pace::Next;
    }
    let remaining: u64 = target_ns - elapsed_ns;
    if resting {
        Pace::WaitForWake(remaining)
    } else if remaining > 2_000_000 {
        Pace::SleepThenSpin(remaining - 1_000_000)
    } else {
        Pace::Spin
    }
}

// ---------------------------------------------------------------------------
// Commands to the capture
// ---------------------------------------------------------------------------

/// Something that the capture is asked to do.
#[derive(Clone, Copy, PartialEq, Eq, Structural)]
pub enum CaptureCommand {
    /// Take another size.
    Resize { width: u32, height: u32 },
    /// Make the encoder anew, so that it starts with a key frame.
    ResetEncoder,
}

/// What the capture does about a command.
#[derive(Clone, Copy, PartialEq, Eq, Structural)]
pub enum CommandPlan {
    /// Nothing: the display has that size.
    Skip,
    /// Resize the display, capture it anew, and then make the encoder anew; no other command is
    /// taken before. Where the display cannot be resized, the next command is taken.
    ResizeDisplay,
    /// Ask the encoder for a key frame: it was made anew a short while ago.
    ForceKeyframe,
    /// Make the encoder anew; no other command is taken before.
    ResetEncoder,
}

/// For how many nanoseconds an encoder that was made anew is not made anew again: 5 s.
pub const ENCODER_RESET_COOLDOWN_NS: u64 = 5_000_000_000;

/// What the capture does about a command. The display is `width` by `height`, and the encoder was
/// last made anew `since_reset_ns` ago.
pub fn plan_command(command: CaptureCommand, width: u32, height: u32, since_reset_ns: u64) -> (r:
    CommandPlan)
    ensures
        r == match command {
            CaptureCommand::Resize { width: w, height: h } => if w == width && h == height {
                CommandPlan::Skip
            } else {
                CommandPlan::ResizeDisplay
            },
            CaptureCommand::ResetEncoder => if since_reset_ns < ENCODER_RESET_COOLDOWN_NS {
                CommandPlan::ForceKeyframe
            } else {
                CommandPlan::ResetEncoder
            },
        },
{
    match command {
        CaptureCommand::Resize { width: w, height: h } => if w == width && h == height {
            CommandPlan::Skip
        } else {
            CommandPlan::ResizeDisplay
        },
        CaptureCommand::ResetEncoder => if since_reset_ns < ENCODER_RESET_COOLDOWN_NS {
            CommandPlan::ForceKeyframe
        } else {
            CommandPlan::ResetEncoder
        },
    }
}

/// Why an encoder is made anew.
#[derive(Clone, Copy, PartialEq, Eq, Structural)]
pub enum Remake {
    /// It was asked for.
    Reset,
    /// The display has another size.
    Resize,
    /// Its pipeline failed.
    Recovery,
}

/// The frame rate that an encoder is made anew with.
pub open spec fn remade_framerate(why: Remake, framerate: u32) -> u32 {
    if why == Remake::Resize {
        DEFAULT_FRAMERATE
    } else {
        framerate
    }
}

/// The rates that an encoder is made anew with: those of the session, but for the frame rate of
/// an encoder for another size, which is the default one.
pub fn remade_rates(why: Remake, framerate: u32, bitrate: u32) -> (r: Rates)
    ensures
        r.bitrate == bitrate,
        r.framerate == remade_framerate(why, framerate),
{
    match why {
        Remake::Resize => Rates { framerate: DEFAULT_FRAMERATE, bitrate },
        _ => Rates { framerate, bitrate },
    }
}

// ---------------------------------------------------------------------------
// Errors
// ---------------------------------------------------------------------------

/// How many captures may fail in a row before the capture ends.
pub const MAX_CAPTURE_ERRORS: u64 = 300;

/// What a failed capture leads to.
pub struct CaptureFailure {
    /// How many captures failed in a row.
    pub errors: u64,
    /// Whether to say so: for the first three, and for every hundredth.
    pub log: bool,
    /// Whether to end the capture. Else the next one is tried a millisecond later.
    pub stop: bool,
}

/// What a failed capture leads to, where `errors` failed in a row before it.
pub fn after_capture_error(errors: u64) -> (r: CaptureFailure)
    requires
        errors < u64::MAX,
    ensures
        r.errors == errors + 1,
        r.log == (r.errors <= 3 || r.errors % 100 == 0),
        r.stop == (r.errors >= MAX_CAPTURE_ERRORS),
{
    let n: u64 = errors + 1;
    CaptureFailure { errors: n, log: n <= 3 || n % 100 == 0, stop: n >= MAX_CAPTURE_ERRORS }
}

/// Whether the encoder has been emptied, once it gave no frame: it gave one before, or there was
/// time enough to.
pub fn is_drained(drained_any: bool, deadline_passed: bool) -> (r: bool)
    ensures
        r == (drained_any || deadline_passed),
{
    drained_any || deadline_passed
}

// ---------------------------------------------------------------------------
// Sound
// ---------------------------------------------------------------------------

/// What a failed attempt to record sound leads to.
#[derive(Clone, Copy, PartialEq, Eq, Structural)]
pub enum AudioRetry {
    /// Try again after so many milliseconds; `log` says whether to say so.
    After { delay_ms: u64, log: bool },
    /// Do without sound.
    GiveUp,
}

/// What the failed attempt of a number, counted from 0, to record sound leads to.
pub open spec fn audio_retry(attempt: u32) -> AudioRetry {
    if attempt > 60 {
        AudioRetry::GiveUp
    } else if attempt < 20 {
        AudioRetry::After { delay_ms: 500, log: true }
    } else {
        AudioRetry::After { delay_ms: 2000, log: attempt % 10 == 0 }
    }
}

/// What the failed attempt of a number, counted from 0, to record sound leads to: for the first
/// ten seconds it is repeated twice a second, and then every other second.
pub fn after_audio_failure(attempt: u32) -> (r: AudioRetry)
    ensures
        r == audio_retry(attempt),
{
    if attempt > 60 {
        AudioRetry::GiveUp
    } else if attempt < 20 {
        AudioRetry::After { delay_ms: 500, log: true }
    } else {
        AudioRetry::After { delay_ms: 2000, log: attempt % 10 == 0 }
    }
}

// ---------------------------------------------------------------------------
// Messages to the browser
// ---------------------------------------------------------------------------

/// A character as it stands inside a text in JSON: the quote, the backslash and the controls are
/// escaped, some controls by a letter and the others by their number.
pub open spec fn json_escape(c: char) -> Seq<char> {
    if c == '"' {
        seq!['\\', '"']
    } else if c == '\\' {
        seq!['\\', '\\']
    } else if c == '\u{8}' {
        seq!['\\', 'b']
    } else if c == '\t' {
        seq!['\\', 't']
    } else if c == '\n' {
        seq!['\\', 'n']
    } else if c == '\u{c}' {
        seq!['\\', 'f']
    } else if c == '\r' {
        seq!['\\', 'r']
    } else if c <= '\u{1f}' {
        seq!['\\', 'u', '0', '0', hex_char(c as int / 16), hex_char(c as int % 16)]
    } else {
        seq![c]
    }
}

/// The characters of a text as they stand inside a text in JSON.
pub open spec fn json_escaped(s: Seq<char>) -> Seq<char>
    decreases s.len(),
{
    if s.len() == 0 {
        Seq::empty()
    } else {
        json_escape(s[0]) + json_escaped(s.skip(1))
    }
}

/// A text in JSON.
pub open spec fn json_text(s: Seq<char>) -> Seq<char> {
    seq!['"'] + json_escaped(s) + seq!['"']
}

/// An object of two texts in JSON, given as the name and the text of each.
pub open spec fn json_object(
    name1: Seq<char>,
    text1: Seq<char>,
    name2: Seq<char>,
    text2: Seq<char>,
) -> Seq<char> {
    seq!['{'] + json_text(name1) + seq![':'] + json_text(text1) + seq![','] + json_text(name2)
        + seq![':'] + json_text(text2) + seq!['}']
}

/// Calls `to_string` of `serde_json::Value` on an object of two texts: its JSON without any white
/// space, with the fields in the order of their names. The names are given in that order, told
/// apart by their first characters.
#[verifier::external_body]
fn json_pair(name1: &str, text1: &str, name2: &str, text2: &str) -> (r: String)
    requires
        name1@.len() > 0,
        name2@.len() > 0,
        name1@[0] < name2@[0],
    ensures
        r@ == json_object(name1@, text1@, name2@, text2@),
{
    let mut object = serde_json::Map::new();
    object.insert(name1.to_owned(), serde_json::Value::String(text1.to_owned()));
    object.insert(name2.to_owned(), serde_json::Value::String(text2.to_owned()));
    serde_json::Value::Object(object).to_string()
}

/// The message that tells the browser the shape of the cursor.
pub open spec fn cursor_message_of(css: Seq<char>) -> Seq<char> {
    json_object("css"@, css, "t"@, "cur"@)
}

/// The message that tells the browser the shape of the cursor.
pub fn cursor_message(css: &str) -> (r: String)
    ensures
        r@ == cursor_message_of(css@),
{
    proof {
        reveal_strlit("css");
        reveal_strlit("t");
    }
    json_pair("css", css, "t", "cur")
}

/// Whether a text holds no controls.
pub open spec fn without_controls(s: Seq<char>) -> bool {
    forall|i: int| 0 <= i < s.len() ==> #[trigger] s[i] >= ' '
}

proof fn lemma_escape_without_controls(c: char)
    ensures
        without_controls(json_escape(c)),
{
    if c <= '\u{1f}' {
        assert(0 <= c as int / 16 < 10);
        assert(0 <= c as int % 16 < 16);
    }
}

proof fn lemma_escaped_without_controls(s: Seq<char>)
    ensures
        without_controls(json_escaped(s)),
    decreases s.len(),
{
    if s.len() > 0 {
        lemma_escaped_without_controls(s.skip(1));
        lemma_escape_without_controls(s[0]);
    }
}

/// Whatever the shape, the message holds no controls: it is one line.
pub proof fn cursor_messages_are_one_line(css: Seq<char>)
    ensures
        without_controls(cursor_message_of(css)),
{
    lemma_escaped_without_controls("css"@);
    lemma_escaped_without_controls(css);
    lemma_escaped_without_controls("t"@);
    lemma_escaped_without_controls("cur"@);
}

proof fn lemma_escape_is_distinct(a: char, b: char, x: Seq<char>, y: Seq<char>)
    requires
        json_escape(a) + x == json_escape(b) + y,
    ensures
        a == b,
        x == y,
{
    let p = json_escape(a) + x;
    let q = json_escape(b) + y;
    assert(p[0] == json_escape(a)[0]);
    assert(q[0] == json_escape(b)[0]);
    if p[0] == '\\' {
        assert(json_escape(a).len() >= 2);
        assert(json_escape(b).len() >= 2);
        assert(p[1] == json_escape(a)[1]);
        assert(q[1] == json_escape(b)[1]);
        if p[1] == 'u' {
            assert(p[4] == json_escape(a)[4]);
            assert(q[4] == json_escape(b)[4]);
            assert(p[5] == json_escape(a)[5]);
            assert(q[5] == json_escape(b)[5]);
            assert(a as int / 16 == b as int / 16);
            assert(a as int % 16 == b as int % 16);
        }
    }
    let n = json_escape(a).len() as int;
    assert(p.skip(n) =~= x);
    assert(q.skip(n) =~= y);
}

proof fn lemma_escaped_is_distinct(a: Seq<char>, b: Seq<char>)
    requires
        json_escaped(a) == json_escaped(b),
    ensures
        a == b,
    decreases a.len(),
{
    if a.len() > 0 && b.len() > 0 {
        lemma_escape_is_distinct(a[0], b[0], json_escaped(a.skip(1)), json_escaped(b.skip(1)));
        lemma_escaped_is_distinct(a.skip(1), b.skip(1));
        assert(a =~= seq![a[0]] + a.skip(1));
        assert(b =~= seq![b[0]] + b.skip(1));
    } else if a.len() > 0 {
        assert(json_escape(a[0]).len() > 0);
        assert(json_escaped(a).len() > 0);
    } else if b.len() > 0 {
        assert(json_escape(b[0]).len() > 0);
        assert(json_escaped(b).len() > 0);
    } else {
        assert(a =~= b);
    }
}

/// Different shapes give different messages: the browser loses nothing.
pub proof fn cursor_messages_are_distinct(a: Seq<char>, b: Seq<char>)
    requires
        cursor_message_of(a) == cursor_message_of(b),
    ensures
        a == b,
{
    let head = seq!['{'] + json_text("css"@) + seq![':'] + seq!['"'];
    let tail = seq!['"'] + seq![','] + json_text("t"@) + seq![':'] + json_text("cur"@) + seq!['}'];
    assert(cursor_message_of(a) =~= head + json_escaped(a) + tail);
    assert(cursor_message_of(b) =~= head + json_escaped(b) + tail);
    let n = head.len() as int;
    let m = n + json_escaped(a).len();
    assert(json_escaped(a).len() == json_escaped(b).len());
    assert(cursor_message_of(a).subrange(n, m) =~= json_escaped(a));
    assert(cursor_message_of(b).subrange(n, m) =~= json_escaped(b));
    lemma_escaped_is_distinct(a, b);
}

/// Whatever is asked for, an encoder in software gets at most 60 frames per second, and where it was
/// slowed down, at most 20 Mbit/s. Nothing else is changed, and nothing is ever raised.
pub proof fn software_encoders_are_slowed_down(
    software: bool,
    framerate: u32,
    bitrate: u32,
    r: Rates,
)
    requires
        is_capped(software, framerate, bitrate, r),
    ensures
        r.framerate <= framerate,
        r.bitrate <= bitrate,
        software ==> r.framerate <= 60,
        software && framerate > 60 ==> r.framerate == 60 && r.bitrate <= 20_000 && (r.bitrate
            == bitrate || r.bitrate == 20_000),
        !software || framerate <= 60 ==> r.framerate == framerate && r.bitrate == bitrate,
{
}

/// Sound that cannot be recorded is tried for 61 times: for ten seconds twice a second, and then
/// every other second. All of the first, and every tenth of the others, are reported.
pub proof fn sound_is_retried_61_times(attempt: u32)
    ensures
        audio_retry(attempt) == AudioRetry::GiveUp <==> attempt >= 61,
        audio_retry(attempt) matches AudioRetry::After { delay_ms, log } ==> {
            &&& attempt < 20 <==> delay_ms == 500
            &&& attempt >= 20 <==> delay_ms == 2000
            &&& log <==> attempt < 20 || attempt == 20 || attempt == 30 || attempt == 40 || attempt
                == 50 || attempt == 60
        },
{
}

/// The functions that the loop is made of decide by the numbers that the loop promises.
pub proof fn paces_are_what_they_say(
    now_ms: u64,
    last_input_ms: u64,
    idle: bool,
    framerate: u32,
    backgrounded: bool,
    duration: u64,
    elapsed_ns: u64,
    resting: bool,
    p: Pace,
)
    requires
        last_input_ms <= now_ms,
        framerate > 0,
        call_ensures(is_idle, (now_ms, last_input_ms), idle),
        call_ensures(frame_duration_ns, (framerate, backgrounded, idle), duration),
        call_ensures(pace, (elapsed_ns, duration, resting), p),
    ensures
        idle <==> last_input_ms > 0 && now_ms > last_input_ms + 300_000,
        backgrounded ==> duration == 1_000_000_000,
        !backgrounded && idle ==> duration == 200_000_000,
        !backgrounded && !idle ==> duration == 1_000_000_000int / framerate as int,
        p == Pace::Next <==> elapsed_ns >= duration,
        p matches Pace::WaitForWake(t) ==> resting && t + elapsed_ns == duration,
        p matches Pace::SleepThenSpin(t) ==> !resting && t + elapsed_ns + 1_000_000 == duration && t
            > 1_000_000,
        p == Pace::Spin ==> !resting && 0 < duration - elapsed_ns <= 2_000_000,
{
    if !backgrounded && !idle {
        let f = framerate as int;
        let q = 1_000_000_000int / f;
        assert(0 <= q <= 1_000_000_000) by (nonlinear_arith)
            requires
                f > 0,
                q == 1_000_000_000int / f,
        ;
    }
}

/// An encoder in software that is asked for more than 60 frames per second gets 60, and at most
/// 20000 kbit/s; sound is tried 61 times; the rates of a remade encoder are the session's, but for
/// the 120 frames per second of another size; and captures end with the three hundredth failure.
pub proof fn limits_are_what_they_say(
    software: bool,
    framerate: u32,
    bitrate: u32,
    rates: Rates,
    attempt: u32,
    retry: AudioRetry,
    why: Remake,
    remade: Rates,
    errors: u64,
    failure: CaptureFailure,
    any: bool,
    late: bool,
    drained: bool,
)
    requires
        errors < u64::MAX,
        call_ensures(cap_rates, (software, framerate, bitrate), rates),
        call_ensures(after_audio_failure, (attempt,), retry),
        call_ensures(remade_rates, (why, framerate, bitrate), remade),
        call_ensures(after_capture_error, (errors,), failure),
        call_ensures(is_drained, (any, late), drained),
    ensures
        software && framerate > 60 ==> rates.framerate == 60 && rates.bitrate <= 20_000 && (
        rates.bitrate == 20_000 || rates.bitrate == bitrate),
        rates.framerate <= framerate && rates.bitrate <= bitrate,
        !software || framerate <= 60 ==> rates.framerate == framerate && rates.bitrate == bitrate,
        retry == AudioRetry::GiveUp <==> attempt >= 61,
        attempt < 20 ==> retry == (AudioRetry::After { delay_ms: 500, log: true }),
        20 <= attempt < 61 ==> (retry matches AudioRetry::After { delay_ms, .. } && delay_ms
            == 2000),
        remade.bitrate == bitrate,
        remade.framerate == framerate || why == Remake::Resize,
        why == Remake::Resize ==> remade.framerate == 120,
        failure.errors == errors + 1,
        failure.stop <==> errors >= 299,
        errors < 3 ==> failure.log,
        failure.log && errors >= 3 ==> (errors + 1) % 100 == 0,
        (errors + 1) % 100 == 0 ==> failure.log,
        drained <==> any || late,
{
}

/// A command to the capture is followed by its own numbers: a size that the display has on both
/// sides is passed over, and an encoder is made anew when it is five seconds old.
pub proof fn commands_are_planned_by_their_numbers(
    command: CaptureCommand,
    width: u32,
    height: u32,
    since_ns: u64,
    plan: CommandPlan,
)
    requires
        call_ensures(plan_command, (command, width, height, since_ns), plan),
    ensures
        plan == CommandPlan::Skip <==> command == (CaptureCommand::Resize { width, height }),
        plan == CommandPlan::ResizeDisplay <==> command is Resize && command
            != (CaptureCommand::Resize { width, height }),
        plan == CommandPlan::ForceKeyframe <==> command == CaptureCommand::ResetEncoder && since_ns
            < 5_000_000_000,
        plan == CommandPlan::ResetEncoder <==> command == CaptureCommand::ResetEncoder && since_ns
            >= 5_000_000_000,
{
}

/// The message for a shape whose name needs no escapes has that name between its quotes, and any
/// message has one name for the shape and one for its own kind.
pub proof fn cursors_are_told_by_name(css: &str, r: String)
    requires
        call_ensures(cursor_message, (css,), r),
        forall|i: int|
            0 <= i < css@.len() ==> {
                let n = (#[trigger] css@[i]) as u32;
                n >= 32 && n != 34 && n != 92
            },
    ensures
        r@ == "{\"css\":\""@ + css@ + "\",\"t\":\"cur\"}"@,
{
    lemma_plain_text(css@);
    reveal_strlit("css");
    reveal_strlit("t");
    reveal_strlit("cur");
    reveal_strlit("{\"css\":\"");
    reveal_strlit("\",\"t\":\"cur\"}");
    lemma_plain_text("css"@);
    lemma_plain_text("t"@);
    lemma_plain_text("cur"@);
    assert(r@ =~= "{\"css\":\""@ + css@ + "\",\"t\":\"cur\"}"@);
}

proof fn lemma_plain_char(c: char)
    requires
        c as u32 >= 32,
        c as u32 != 34,
        c as u32 != 92,
    ensures
        json_escape(c) == seq![c],
{
}

proof fn lemma_plain_text(s: Seq<char>)
    requires
        forall|i: int|
            0 <= i < s.len() ==> {
                let n = (#[trigger] s[i]) as u32;
                n >= 32 && n != 34 && n != 92
            },
    ensures
        json_escaped(s) == s,
    decreases s.len(),
{
    if s.len() > 0 {
        let t = s.skip(1);
        assert forall|i: int| 0 <= i < t.len() implies {
            let n = (#[trigger] t[i]) as u32;
            n >= 32 && n != 34 && n != 92
        } by {
            assert(t[i] == s[i + 1]);
        }
        lemma_plain_text(t);
        lemma_plain_char(s[0]);
        assert(seq![s[0]] + t =~= s);
    }
}

} // verus!
