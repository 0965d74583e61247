//! The loop that captures the screen and encodes it, as a state machine: what the loop does next,
//! and where what came of it leads.
use crate::pacing::{
    CaptureCommand, CommandPlan, ENCODER_RESET_COOLDOWN_NS, MAX_CAPTURE_ERRORS, Pace, Remake,
    after_capture_error, frame_duration, frame_duration_ns, idles, is_drained, is_idle, pace,
    pace_of, plan_command, remade_framerate, remade_rates,
};
use vstd::prelude::*;

verus! {

/// Where a turn of the loop is.
#[derive(Clone, Copy, PartialEq, Eq, Structural)]
pub enum Step {
    /// A turn begins.
    Turn,
    /// The commands that have come are taken one by one.
    Commands,
    /// The display is to take a size.
    Resize { width: u32, height: u32 },
    /// The display of another size is to be captured.
    Recapture,
    /// The encoder is to give a key frame, as a command asks for.
    ForceKeyframe,
    /// The encoder is to be made anew.
    Remake(Remake),
    /// The pointer is to be told the size, and the encoder is to give a key frame.
    Announce,
    /// Someone may have asked for a key frame.
    AskKeyframe,
    /// The encoder is to give a key frame, and the tab counts as in view.
    Show,
    /// It is to be seen whether the session rests.
    Measure,
    /// The encoder may have failed.
    Check,
    /// A frame is to be captured.
    Capture,
    /// The capture has failed.
    Retry { log: bool },
    /// The frame is to be encoded.
    Encode,
    /// What is encoded is to be taken from the encoder; `any` says whether some was.
    Drain { any: bool },
    /// What was taken is to be sent.
    Send,
    /// The frame is done.
    Clock,
    /// The rest of the frame's time is to be spent.
    Rest(Pace),
    /// The loop has ended.
    Over,
}

/// The state of the loop.
#[derive(Clone, Copy)]
pub struct LoopState {
    pub step: Step,
    /// The size of the display that is captured.
    pub width: u32,
    pub height: u32,
    /// The rates of the session.
    pub framerate: u32,
    pub bitrate: u32,
    /// When the encoder was made anew on demand, in nanoseconds of a clock that never goes back.
    pub reset_ns: Option<u64>,
    /// How many captures have failed in a row.
    pub errors: u64,
    /// Whether the session is idle, or its tab out of view.
    pub resting: bool,
    /// The time of a frame.
    pub target_ns: u64,
}

/// What the loop is to do.
#[derive(Clone, Copy, PartialEq, Eq, Structural)]
pub enum LoopAction {
    /// See whether the agent shuts down.
    CheckShutdown,
    /// Take the next command that has come.
    TakeCommand,
    /// Give the display a size.
    ResizeDisplay { width: u32, height: u32 },
    /// Let the display settle, and capture it anew.
    Recapture,
    /// Have the encoder give a key frame.
    ForceKeyframe,
    /// Drop the encoder, and make another one.
    MakeEncoder { width: u32, height: u32, framerate: u32, bitrate: u32 },
    /// Have the encoder give a key frame, and tell the pointer the size.
    Announce { width: u32, height: u32 },
    /// See whether someone has asked for a key frame, and take note of it.
    TakeKeyframeFlag,
    /// Have the encoder give a key frame, and take the tab as in view.
    Show,
    /// See whether the tab is in view, and when the last input was.
    Measure,
    /// See whether the encoder has failed.
    CheckEncoder,
    /// Capture a frame.
    Capture,
    /// Wait a millisecond.
    WaitBriefly { log: bool },
    /// Encode the frame.
    Encode,
    /// Take what is encoded.
    Pull,
    /// Send what was taken; it is dropped where the sender is behind.
    Send,
    /// See how long the frame has taken.
    ReadClock,
    /// Spend the rest of the frame's time.
    Rest(Pace),
    /// End the loop.
    Stop,
}

/// What came of an action.
#[derive(Clone, Copy)]
pub enum LoopEvent {
    Done,
    Failed,
    /// Whether the agent shuts down.
    Shutdown(bool),
    /// The next command, where there is one, and the time.
    Command { command: Option<CaptureCommand>, now_ns: u64 },
    /// The size of the display that is captured now.
    Recaptured { width: u32, height: u32 },
    /// The encoder was made, and when.
    Made { now_ns: u64 },
    /// Whether someone has asked for a key frame.
    KeyframeWanted(bool),
    /// Whether the tab is out of view, the time, and the time of the last input.
    Measured { backgrounded: bool, now_ms: u64, last_input_ms: u64 },
    /// Whether the encoder has failed.
    EncoderFailed(bool),
    /// Something was taken from the encoder.
    Pulled,
    /// Nothing is encoded, and whether there was time enough.
    Empty { deadline_passed: bool },
    /// How long the frame has taken.
    Elapsed(u64),
}

/// The loop at another step.
pub open spec fn at_step(s: LoopState, step: Step) -> LoopState {
    LoopState { step, ..s }
}

/// Whether the encoder was made anew on demand a short while ago.
pub open spec fn cooling(reset_ns: Option<u64>, now_ns: u64) -> bool {
    reset_ns matches Some(t) && now_ns - t < ENCODER_RESET_COOLDOWN_NS
}

/// Where a command leads.
pub open spec fn after_command(s: LoopState, command: CaptureCommand, now_ns: u64) -> Step {
    match command {
        CaptureCommand::Resize { width, height } => if width == s.width && height == s.height {
            Step::Commands
        } else {
            Step::Resize { width, height }
        },
        CaptureCommand::ResetEncoder => if cooling(s.reset_ns, now_ns) {
            Step::ForceKeyframe
        } else {
            Step::Remake(Remake::Reset)
        },
    }
}

/// The state after an event. One that does not belong to the step changes nothing.
pub open spec fn after_event(s: LoopState, e: LoopEvent) -> LoopState {
    match (s.step, e) {
        (Step::Turn, LoopEvent::Shutdown(down)) => at_step(
            s,
            if down {
                Step::Over
            } else {
                Step::Commands
            },
        ),
        (Step::Commands, LoopEvent::Command { command, now_ns }) => at_step(
            s,
            match command {
                Some(c) => after_command(s, c, now_ns),
                None => Step::AskKeyframe,
            },
        ),
        (Step::Resize { .. }, LoopEvent::Done) => at_step(s, Step::Recapture),
        (Step::Resize { .. }, LoopEvent::Failed) => at_step(s, Step::Commands),
        (Step::Recapture, LoopEvent::Recaptured { width, height }) => LoopState {
            step: Step::Remake(Remake::Resize),
            width,
            height,
            ..s
        },
        (Step::Recapture, LoopEvent::Failed) => at_step(s, Step::Over),
        (Step::ForceKeyframe, LoopEvent::Done) => at_step(s, Step::Commands),
        (Step::Remake(why), LoopEvent::Made { now_ns }) => match why {
            Remake::Reset => LoopState { step: Step::AskKeyframe, reset_ns: Some(now_ns), ..s },
            Remake::Resize => at_step(s, Step::Announce),
            Remake::Recovery => at_step(s, Step::Capture),
        },
        (Step::Remake(_), LoopEvent::Failed) => at_step(s, Step::Over),
        (Step::Announce, LoopEvent::Done) => at_step(s, Step::AskKeyframe),
        (Step::AskKeyframe, LoopEvent::KeyframeWanted(wanted)) => at_step(
            s,
            if wanted {
                Step::Show
            } else {
                Step::Measure
            },
        ),
        (Step::Show, LoopEvent::Done) => at_step(s, Step::Measure),
        (Step::Measure, LoopEvent::Measured { backgrounded, now_ms, last_input_ms }) => LoopState {
            step: Step::Check,
            resting: backgrounded || idles(now_ms, last_input_ms),
            target_ns: frame_duration(s.framerate, backgrounded, idles(now_ms, last_input_ms)) as u64,
            ..s
        },
        (Step::Check, LoopEvent::EncoderFailed(failed)) => at_step(
            s,
            if failed {
                Step::Remake(Remake::Recovery)
            } else {
                Step::Capture
            },
        ),
        (Step::Capture, LoopEvent::Done) => LoopState { step: Step::Encode, errors: 0, ..s },
        (Step::Capture, LoopEvent::Failed) => if s.errors + 1 >= MAX_CAPTURE_ERRORS {
            at_step(s, Step::Over)
        } else {
            LoopState {
                step: Step::Retry { log: s.errors + 1 <= 3 || (s.errors + 1) % 100 == 0 },
                errors: (s.errors + 1) as u64,
                ..s
            }
        },
        (Step::Retry { .. }, LoopEvent::Done) => at_step(s, Step::Turn),
        (Step::Encode, LoopEvent::Done) => at_step(s, Step::Drain { any: false }),
        (Step::Encode, LoopEvent::Failed) => at_step(s, Step::Over),
        (Step::Drain { .. }, LoopEvent::Pulled) => at_step(s, Step::Send),
        (Step::Drain { any }, LoopEvent::Empty { deadline_passed }) => if any || deadline_passed {
            at_step(s, Step::Clock)
        } else {
            s
        },
        (Step::Drain { .. }, LoopEvent::Failed) => at_step(s, Step::Over),
        (Step::Send, LoopEvent::Done) => at_step(s, Step::Drain { any: true }),
        (Step::Send, LoopEvent::Failed) => at_step(s, Step::Over),
        (Step::Clock, LoopEvent::Elapsed(elapsed_ns)) => at_step(
            s,
            Step::Rest(pace_of(elapsed_ns, s.target_ns, s.resting)),
        ),
        (Step::Rest(_), LoopEvent::Done) => at_step(s, Step::Turn),
        _ => s,
    }
}

/// What a step asks for.
pub open spec fn action_of(s: LoopState) -> LoopAction {
    match s.step {
        Step::Turn => LoopAction::CheckShutdown,
        Step::Commands => LoopAction::TakeCommand,
        Step::Resize { width, height } => LoopAction::ResizeDisplay { width, height },
        Step::Recapture => LoopAction::Recapture,
        Step::ForceKeyframe => LoopAction::ForceKeyframe,
        Step::Remake(why) => LoopAction::MakeEncoder {
            width: s.width,
            height: s.height,
            framerate: remade_framerate(why, s.framerate),
            bitrate: s.bitrate,
        },
        Step::Announce => LoopAction::Announce { width: s.width, height: s.height },
        Step::AskKeyframe => LoopAction::TakeKeyframeFlag,
        Step::Show => LoopAction::Show,
        Step::Measure => LoopAction::Measure,
        Step::Check => LoopAction::CheckEncoder,
        Step::Capture => LoopAction::Capture,
        Step::Retry { log } => LoopAction::WaitBriefly { log },
        Step::Encode => LoopAction::Encode,
        Step::Drain { .. } => LoopAction::Pull,
        Step::Send => LoopAction::Send,
        Step::Clock => LoopAction::ReadClock,
        Step::Rest(pace) => LoopAction::Rest(pace),
        Step::Over => LoopAction::Stop,
    }
}

/// The loop that captures the screen and encodes it.
pub struct CaptureLoop {
    state: LoopState,
}

impl View for CaptureLoop {
    type V = LoopState;

    closed spec fn view(&self) -> LoopState {
        self.state
    }
}

/// Whether a state can be that of a loop: there are frames, and not too many captures have failed.
pub open spec fn is_loop_state(s: LoopState) -> bool {
    s.framerate > 0 && s.errors < MAX_CAPTURE_ERRORS
}

impl CaptureLoop {
    /// A loop before its first turn, for a display of a size and at the rates of a session.
    pub fn new(width: u32, height: u32, framerate: u32, bitrate: u32) -> (r: Self)
        requires
            framerate > 0,
        ensures
            r@ == (LoopState {
                step: Step::Turn,
                width,
                height,
                framerate,
                bitrate,
                reset_ns: None,
                errors: 0,
                resting: false,
                target_ns: 0,
            }),
            is_loop_state(r@),
    {
        CaptureLoop {
            state: LoopState {
                step: Step::Turn,
                width,
                height,
                framerate,
                bitrate,
                reset_ns: None,
                errors: 0,
                resting: false,
                target_ns: 0,
            },
        }
    }

    /// The time of a frame, in nanoseconds.
    pub fn target_ns(&self) -> (r: u64)
        ensures
            r == self@.target_ns,
    {
        self.state.target_ns
    }

    /// What is to be done next.
    pub fn action(&self) -> (r: LoopAction)
        ensures
            r == action_of(self@),
    {
        let s = self.state;
        match s.step {
            Step::Turn => LoopAction::CheckShutdown,
            Step::Commands => LoopAction::TakeCommand,
            Step::Resize { width, height } => LoopAction::ResizeDisplay { width, height },
            Step::Recapture => LoopAction::Recapture,
            Step::ForceKeyframe => LoopAction::ForceKeyframe,
            Step::Remake(why) => {
                let rates = remade_rates(why, s.framerate, s.bitrate);
                LoopAction::MakeEncoder {
                    width: s.width,
                    height: s.height,
                    framerate: rates.framerate,
                    bitrate: rates.bitrate,
                }
            },
            Step::Announce => LoopAction::Announce { width: s.width, height: s.height },
            Step::AskKeyframe => LoopAction::TakeKeyframeFlag,
            Step::Show => LoopAction::Show,
            Step::Measure => LoopAction::Measure,
            Step::Check => LoopAction::CheckEncoder,
            Step::Capture => LoopAction::Capture,
            Step::Retry { log } => LoopAction::WaitBriefly { log },
            Step::Encode => LoopAction::Encode,
            Step::Drain { .. } => LoopAction::Pull,
            Step::Send => LoopAction::Send,
            Step::Clock => LoopAction::ReadClock,
            Step::Rest(pace) => LoopAction::Rest(pace),
            Step::Over => LoopAction::Stop,
        }
    }

    fn take_command(&self, command: CaptureCommand, now_ns: u64) -> (r: Step)
        ensures
            r == after_command(self@, command, now_ns),
    {
        let since: u64 = match self.state.reset_ns {
            Some(t) => if t <= now_ns {
                now_ns - t
            } else {
                0
            },
            None => ENCODER_RESET_COOLDOWN_NS,
        };
        match plan_command(command, self.state.width, self.state.height, since) {
            CommandPlan::Skip => Step::Commands,
            CommandPlan::ResizeDisplay => match command {
                CaptureCommand::Resize { width, height } => Step::Resize { width, height },
                CaptureCommand::ResetEncoder => Step::Commands,
            },
            CommandPlan::ForceKeyframe => Step::ForceKeyframe,
            CommandPlan::ResetEncoder => Step::Remake(Remake::Reset),
        }
    }

    /// Takes in what came of the last action. The last input is not in the future.
    pub fn advance(&mut self, event: LoopEvent)
        requires
            is_loop_state(old(self)@),
            event matches LoopEvent::Measured { now_ms, last_input_ms, .. } ==> last_input_ms
                <= now_ms,
        ensures
            final(self)@ == after_event(old(self)@, event),
            is_loop_state(final(self)@),
    {
        let step = self.state.step;
        match (step, event) {
            (Step::Turn, LoopEvent::Shutdown(down)) => {
                self.state.step = if down {
                    Step::Over
                } else {
                    Step::Commands
                };
            },
            (Step::Commands, LoopEvent::Command { command, now_ns }) => {
                self.state.step = match command {
                    Some(c) => self.take_command(c, now_ns),
                    None => Step::AskKeyframe,
                };
            },
            (Step::Resize { .. }, LoopEvent::Done) => {
                self.state.step = Step::Recapture;
            },
            (Step::Resize { .. }, LoopEvent::Failed) => {
                self.state.step = Step::Commands;
            },
            (Step::Recapture, LoopEvent::Recaptured { width, height }) => {
                self.state.step = Step::Remake(Remake::Resize);
                self.state.width = width;
                self.state.height = height;
            },
            (Step::Recapture, LoopEvent::Failed) => {
                self.state.step = Step::Over;
            },
            (Step::ForceKeyframe, LoopEvent::Done) => {
                self.state.step = Step::Commands;
            },
            (Step::Remake(why), LoopEvent::Made { now_ns }) => match why {
                Remake::Reset => {
                    self.state.step = Step::AskKeyframe;
                    self.state.reset_ns = Some(now_ns);
                },
                Remake::Resize => {
                    self.state.step = Step::Announce;
                },
                Remake::Recovery => {
                    self.state.step = Step::Capture;
                },
            },
            (Step::Remake(_), LoopEvent::Failed) => {
                self.state.step = Step::Over;
            },
            (Step::Announce, LoopEvent::Done) => {
                self.state.step = Step::AskKeyframe;
            },
            (Step::AskKeyframe, LoopEvent::KeyframeWanted(wanted)) => {
                self.state.step = if wanted {
                    Step::Show
                } else {
                    Step::Measure
                };
            },
            (Step::Show, LoopEvent::Done) => {
                self.state.step = Step::Measure;
            },
            (Step::Measure, LoopEvent::Measured { backgrounded, now_ms, last_input_ms }) => {
                let idle = is_idle(now_ms, last_input_ms);
                self.state.target_ns = frame_duration_ns(self.state.framerate, backgrounded, idle);
                self.state.resting = backgrounded || idle;
                self.state.step = Step::Check;
            },
            (Step::Check, LoopEvent::EncoderFailed(failed)) => {
                self.state.step = if failed {
                    Step::Remake(Remake::Recovery)
                } else {
                    Step::Capture
                };
            },
            (Step::Capture, LoopEvent::Done) => {
                self.state.errors = 0;
                self.state.step = Step::Encode;
            },
            (Step::Capture, LoopEvent::Failed) => {
                let failure = after_capture_error(self.state.errors);
                if failure.stop {
                    self.state.step = Step::Over;
                } else {
                    self.state.errors = failure.errors;
                    self.state.step = Step::Retry { log: failure.log };
                }
            },
            (Step::Retry { .. }, LoopEvent::Done) => {
                self.state.step = Step::Turn;
            },
            (Step::Encode, LoopEvent::Done) => {
                self.state.step = Step::Drain { any: false };
            },
            (Step::Encode, LoopEvent::Failed) => {
                self.state.step = Step::Over;
            },
            (Step::Drain { .. }, LoopEvent::Pulled) => {
                self.state.step = Step::Send;
            },
            (Step::Drain { any }, LoopEvent::Empty { deadline_passed }) => {
                if is_drained(any, deadline_passed) {
                    self.state.step = Step::Clock;
                }
            },
            (Step::Drain { .. }, LoopEvent::Failed) => {
                self.state.step = Step::Over;
            },
            (Step::Send, LoopEvent::Done) => {
                self.state.step = Step::Drain { any: true };
            },
            (Step::Send, LoopEvent::Failed) => {
                self.state.step = Step::Over;
            },
            (Step::Clock, LoopEvent::Elapsed(elapsed_ns)) => {
                self.state.step = Step::Rest(
                    pace(elapsed_ns, self.state.target_ns, self.state.resting),
                );
            },
            (Step::Rest(_), LoopEvent::Done) => {
                self.state.step = Step::Turn;
            },
            _ => {},
        }
    }
}

// ---------------------------------------------------------------------------
// Laws
// ---------------------------------------------------------------------------

/// The state after a run of events.
pub open spec fn after_events(s: LoopState, events: Seq<LoopEvent>) -> LoopState
    decreases events.len(),
{
    if events.len() == 0 {
        s
    } else {
        after_event(after_events(s, events.drop_last()), events.last())
    }
}

/// Whatever happens, the rates of the session stay, and no more captures fail in a row than may.
pub proof fn rates_stay(s: LoopState, events: Seq<LoopEvent>)
    requires
        is_loop_state(s),
    ensures
        is_loop_state(after_events(s, events)),
        after_events(s, events).framerate == s.framerate,
        after_events(s, events).bitrate == s.bitrate,
    decreases events.len(),
{
    if events.len() > 0 {
        rates_stay(s, events.drop_last());
    }
}

/// A loop that has ended does nothing more.
pub proof fn ended_loops_stay_ended(s: LoopState, events: Seq<LoopEvent>)
    requires
        s.step == Step::Over,
    ensures
        after_events(s, events) == s,
        action_of(after_events(s, events)) == LoopAction::Stop,
    decreases events.len(),
{
    if events.len() > 0 {
        ended_loops_stay_ended(s, events.drop_last());
    }
}

/// The time of a command or of an encoder.
pub open spec fn time_of(e: LoopEvent) -> Option<u64> {
    match e {
        LoopEvent::Command { now_ns, .. } => Some(now_ns),
        LoopEvent::Made { now_ns } => Some(now_ns),
        _ => None,
    }
}

/// While an encoder that was made anew on demand is young, it is not made anew on demand again:
/// for as long as the times of a run are within the limit, the loop is never about to.
pub proof fn resets_are_throttled(s: LoopState, reset_ns: u64, events: Seq<LoopEvent>)
    requires
        s.reset_ns == Some(reset_ns),
        s.step != Step::Remake(Remake::Reset),
        forall|i: int|
            0 <= i < events.len() && time_of(#[trigger] events[i]) is Some ==> time_of(
                events[i],
            )->0 - reset_ns < ENCODER_RESET_COOLDOWN_NS,
    ensures
        after_events(s, events).reset_ns == Some(reset_ns),
        after_events(s, events).step != Step::Remake(Remake::Reset),
    decreases events.len(),
{
    if events.len() > 0 {
        let before = events.drop_last();
        assert forall|i: int| 0 <= i < before.len() && time_of(#[trigger] before[i]) is Some implies time_of(
            before[i],
        )->0 - reset_ns < ENCODER_RESET_COOLDOWN_NS by {
            assert(before[i] == events[i]);
        }
        resets_are_throttled(s, reset_ns, before);
        assert(events.last() == events[events.len() - 1]);
    }
}

/// Once the limit is over, a command to make the encoder anew is followed, and the encoder that is
/// made is for the display that is captured, at the rates of the session.
pub proof fn old_encoders_are_reset(s: LoopState, now_ns: u64)
    requires
        s.step == Step::Commands,
        !cooling(s.reset_ns, now_ns),
    ensures
        action_of(
            after_event(
                s,
                LoopEvent::Command { command: Some(CaptureCommand::ResetEncoder), now_ns },
            ),
        ) == (LoopAction::MakeEncoder {
            width: s.width,
            height: s.height,
            framerate: s.framerate,
            bitrate: s.bitrate,
        }),
{
}

/// A resize that works ends with an encoder for the display's new size, and the pointer is told
/// that size before the next frame.
pub proof fn resizes_reach_the_encoder(s: LoopState, width: u32, height: u32, now_ns: u64)
    requires
        s.step is Resize,
    ensures
        ({
            let captured = after_events(
                s,
                seq![LoopEvent::Done, LoopEvent::Recaptured { width, height }],
            );
            let made = after_event(captured, LoopEvent::Made { now_ns });
            &&& action_of(captured) matches LoopAction::MakeEncoder { width: w, height: h, .. } && w
                == width && h == height
            &&& action_of(made) == (LoopAction::Announce { width, height })
        }),
{
    reveal_with_fuel(after_events, 3);
    let events = seq![LoopEvent::Done, LoopEvent::Recaptured { width, height }];
    assert(events.drop_last() =~= seq![LoopEvent::Done]);
    assert(seq![LoopEvent::Done].drop_last() =~= Seq::<LoopEvent>::empty());
}

/// A turn in which the capture fails, and nothing else happens.
pub open spec fn failing_turn(now_ms: u64) -> Seq<LoopEvent> {
    seq![
        LoopEvent::Shutdown(false),
        LoopEvent::Command { command: None, now_ns: 0 },
        LoopEvent::KeyframeWanted(false),
        LoopEvent::Measured { backgrounded: false, now_ms, last_input_ms: 0 },
        LoopEvent::EncoderFailed(false),
        LoopEvent::Failed,
        LoopEvent::Done,
    ]
}

/// The state after a number of turns in which the capture fails.
pub open spec fn after_failing_turns(s: LoopState, now_ms: u64, turns: nat) -> LoopState
    decreases turns,
{
    if turns == 0 {
        s
    } else {
        after_events(after_failing_turns(s, now_ms, (turns - 1) as nat), failing_turn(now_ms))
    }
}

proof fn one_failing_turn(s: LoopState, now_ms: u64)
    requires
        s.step == Step::Turn,
    ensures
        ({
            let after = after_events(s, failing_turn(now_ms));
            if s.errors + 1 >= MAX_CAPTURE_ERRORS {
                after.step == Step::Over
            } else {
                after.step == Step::Turn && after.errors == s.errors + 1
            }
        }),
{
    let events = failing_turn(now_ms);
    reveal_with_fuel(after_events, 8);
    assert(events.drop_last() =~= events.take(6));
    assert(events.take(6).drop_last() =~= events.take(5));
    assert(events.take(5).drop_last() =~= events.take(4));
    assert(events.take(4).drop_last() =~= events.take(3));
    assert(events.take(3).drop_last() =~= events.take(2));
    assert(events.take(2).drop_last() =~= events.take(1));
    assert(events.take(1).drop_last() =~= events.take(0));
}

/// A capture that keeps failing is tried again and again, and ends with the three hundredth
/// failure in a row.
pub proof fn failing_captures_end(s: LoopState, now_ms: u64, turns: nat)
    requires
        s.step == Step::Turn,
        s.errors == 0,
    ensures
        turns < MAX_CAPTURE_ERRORS ==> after_failing_turns(s, now_ms, turns).step == Step::Turn
            && after_failing_turns(s, now_ms, turns).errors == turns,
        turns >= MAX_CAPTURE_ERRORS ==> after_failing_turns(s, now_ms, turns).step == Step::Over,
    decreases turns,
{
    if turns > 0 {
        let before = after_failing_turns(s, now_ms, (turns - 1) as nat);
        failing_captures_end(s, now_ms, (turns - 1) as nat);
        if turns <= MAX_CAPTURE_ERRORS {
            one_failing_turn(before, now_ms);
        } else {
            ended_loops_stay_ended(before, failing_turn(now_ms));
        }
    }
}

/// How long a frame takes, by what is seen when it begins: a second for a tab out of view, a fifth
/// of a second for a user who was active and has not been for more than five minutes, and else
/// the largest whole number of nanoseconds of which as many as there are frames fit into a second.
pub proof fn frames_take_their_time(
    s: LoopState,
    backgrounded: bool,
    now_ms: u64,
    last_input_ms: u64,
)
    requires
        s.step == Step::Measure,
        s.framerate > 0,
        last_input_ms <= now_ms,
    ensures
        ({
            let n = after_event(s, LoopEvent::Measured { backgrounded, now_ms, last_input_ms });
            let idle = last_input_ms > 0 && now_ms - last_input_ms > 300_000;
            &&& backgrounded ==> n.target_ns == 1_000_000_000
            &&& !backgrounded && idle ==> n.target_ns == 200_000_000
            &&& !backgrounded && !idle ==> n.target_ns * s.framerate <= 1_000_000_000 < (
            n.target_ns + 1) * s.framerate
            &&& n.resting == (backgrounded || idle)
            &&& n == (LoopState {
                step: Step::Check,
                target_ns: n.target_ns,
                resting: n.resting,
                ..s
            })
        }),
{
    let f = s.framerate as int;
    let q = 1_000_000_000int / f;
    assert(q * f <= 1_000_000_000 < (q + 1) * f && 0 <= q <= 1_000_000_000) by (nonlinear_arith)
        requires
            f > 0,
            q == 1_000_000_000int / f,
    ;
}

/// What is left of a frame's time is spent to the nanosecond: what is waited for or slept, with the
/// millisecond that is watched after a sleep, makes up the time with what has passed. Only a
/// session that rests waits to be woken, and only what is longer than two milliseconds is slept.
pub proof fn frames_are_rounded_off(s: LoopState, elapsed_ns: u64)
    requires
        s.step == Step::Clock,
    ensures
        ({
            let n = after_event(s, LoopEvent::Elapsed(elapsed_ns));
            let left = s.target_ns - elapsed_ns;
            match action_of(n) {
                LoopAction::Rest(Pace::Next) => left <= 0,
                LoopAction::Rest(Pace::WaitForWake(t)) => s.resting && left > 0 && t == left,
                LoopAction::Rest(Pace::SleepThenSpin(t)) => !s.resting && left > 2_000_000 && t
                    + 1_000_000 == left,
                LoopAction::Rest(Pace::Spin) => !s.resting && 0 < left <= 2_000_000,
                _ => false,
            }
        }),
        after_event(after_event(s, LoopEvent::Elapsed(elapsed_ns)), LoopEvent::Done) == at_turn(s),
{
}

/// The loop at the beginning of a turn.
pub open spec fn at_turn(s: LoopState) -> LoopState {
    LoopState { step: Step::Turn, ..s }
}

/// A turn begins unless the agent shuts down, and begins with the commands.
pub proof fn shutdowns_are_heeded(s: LoopState)
    requires
        s.step == Step::Turn,
    ensures
        action_of(s) == LoopAction::CheckShutdown,
        action_of(after_event(s, LoopEvent::Shutdown(true))) == LoopAction::Stop,
        after_event(s, LoopEvent::Shutdown(false)) == (LoopState { step: Step::Commands, ..s }),
        action_of(after_event(s, LoopEvent::Shutdown(false))) == LoopAction::TakeCommand,
{
}

/// A command to take a size is passed over where the display has it, on both sides, and is followed
/// with just that size where it has not. A display that cannot take it is left as it is, and the
/// next command is taken.
pub proof fn sizes_are_compared_by_both_sides(s: LoopState, w: u32, h: u32, now_ns: u64)
    requires
        s.step == Step::Commands,
    ensures
        ({
            let n = after_event(
                s,
                LoopEvent::Command {
                    command: Some(CaptureCommand::Resize { width: w, height: h }),
                    now_ns,
                },
            );
            &&& w == s.width && h == s.height ==> n == s
            &&& w != s.width || h != s.height ==> action_of(n) == (LoopAction::ResizeDisplay {
                width: w,
                height: h,
            }) && after_event(n, LoopEvent::Failed) == s && action_of(
                after_event(n, LoopEvent::Done),
            ) == LoopAction::Recapture && action_of(
                after_event(after_event(n, LoopEvent::Done), LoopEvent::Failed),
            ) == LoopAction::Stop
        }),
{
}

/// When there are no more commands, the frame begins.
pub proof fn frames_follow_the_commands(s: LoopState, now_ns: u64)
    requires
        s.step == Step::Commands,
    ensures
        ({
            let n = after_event(s, LoopEvent::Command { command: None, now_ns });
            &&& action_of(n) == LoopAction::TakeKeyframeFlag
            &&& action_of(after_event(n, LoopEvent::KeyframeWanted(true))) == LoopAction::Show
            &&& after_event(after_event(n, LoopEvent::KeyframeWanted(true)), LoopEvent::Done)
                == after_event(n, LoopEvent::KeyframeWanted(false))
            &&& action_of(after_event(n, LoopEvent::KeyframeWanted(false))) == LoopAction::Measure
        }),
{
}

/// An encoder that was made anew on demand less than five seconds ago is asked for a key frame, and
/// the commands go on; any other one is made anew, for the display that is captured and at the
/// rates of the session, and the time is kept.
pub proof fn encoders_rest_five_seconds(s: LoopState, now_ns: u64, made_ns: u64)
    requires
        s.step == Step::Commands,
    ensures
        ({
            let n = after_event(
                s,
                LoopEvent::Command { command: Some(CaptureCommand::ResetEncoder), now_ns },
            );
            let young = s.reset_ns matches Some(t) && now_ns < t + 5_000_000_000;
            &&& young ==> action_of(n) == LoopAction::ForceKeyframe && after_event(
                n,
                LoopEvent::Done,
            ) == s
            &&& !young ==> action_of(n) == (LoopAction::MakeEncoder {
                width: s.width,
                height: s.height,
                framerate: s.framerate,
                bitrate: s.bitrate,
            }) && after_event(n, LoopEvent::Made { now_ns: made_ns }) == (LoopState {
                step: Step::AskKeyframe,
                reset_ns: Some(made_ns),
                ..s
            }) && action_of(after_event(n, LoopEvent::Failed)) == LoopAction::Stop
        }),
{
}

/// An encoder for a display of another size runs at 120 frames per second and the bit rate of the
/// session. It does not count as one that was made on demand.
pub proof fn resized_encoders_run_at_the_default_rate(
    s: LoopState,
    width: u32,
    height: u32,
    now_ns: u64,
)
    requires
        s.step == Step::Recapture,
    ensures
        ({
            let n = after_event(s, LoopEvent::Recaptured { width, height });
            let made = after_event(n, LoopEvent::Made { now_ns });
            &&& action_of(n) == (LoopAction::MakeEncoder {
                width,
                height,
                framerate: 120,
                bitrate: s.bitrate,
            })
            &&& action_of(made) == (LoopAction::Announce { width, height })
            &&& action_of(after_event(made, LoopEvent::Done)) == LoopAction::TakeKeyframeFlag
            &&& made.reset_ns == s.reset_ns && made.errors == s.errors
            &&& action_of(after_event(n, LoopEvent::Failed)) == LoopAction::Stop
        }),
{
}

/// An encoder that has failed is made anew before the frame is captured, as it was and without
/// counting as made on demand; a loop whose encoder cannot be made ends.
pub proof fn failed_encoders_are_replaced(s: LoopState, now_ns: u64)
    requires
        s.step == Step::Check,
    ensures
        ({
            let broken = after_event(s, LoopEvent::EncoderFailed(true));
            let whole = after_event(s, LoopEvent::EncoderFailed(false));
            &&& action_of(s) == LoopAction::CheckEncoder
            &&& action_of(whole) == LoopAction::Capture
            &&& action_of(broken) == (LoopAction::MakeEncoder {
                width: s.width,
                height: s.height,
                framerate: s.framerate,
                bitrate: s.bitrate,
            })
            &&& after_event(broken, LoopEvent::Made { now_ns }) == whole
            &&& action_of(after_event(broken, LoopEvent::Failed)) == LoopAction::Stop
        }),
{
}

/// A frame that was captured is encoded, and clears the count of failures. One that was not is
/// counted, and the loop ends with the three hundredth in a row; before, it is tried again in the
/// next turn, and the first three and every hundredth are reported.
pub proof fn failures_are_counted(s: LoopState)
    requires
        s.step == Step::Capture,
        s.errors < 300,
    ensures
        ({
            let good = after_event(s, LoopEvent::Done);
            let bad = after_event(s, LoopEvent::Failed);
            let n = s.errors + 1;
            &&& action_of(good) == LoopAction::Encode && good.errors == 0
            &&& n == 300 ==> action_of(bad) == LoopAction::Stop
            &&& n < 300 ==> bad.errors == n && action_of(bad) == (LoopAction::WaitBriefly {
                log: n == 1 || n == 2 || n == 3 || n == 100 || n == 200,
            }) && after_event(bad, LoopEvent::Done) == (LoopState {
                step: Step::Turn,
                errors: bad.errors,
                ..s
            })
        }),
{
}

/// The encoder is emptied after each frame: all that it gives is sent, and the frame is done as
/// soon as it gives nothing more, where it gave something or has had its time. Whatever fails on
/// the way ends the loop.
pub proof fn encoders_are_emptied(s: LoopState, deadline_passed: bool)
    requires
        s.step == Step::Encode,
    ensures
        ({
            let first = after_event(s, LoopEvent::Done);
            let sending = after_event(first, LoopEvent::Pulled);
            let again = after_event(sending, LoopEvent::Done);
            let empty = LoopEvent::Empty { deadline_passed };
            &&& action_of(s) == LoopAction::Encode
            &&& action_of(after_event(s, LoopEvent::Failed)) == LoopAction::Stop
            &&& action_of(first) == LoopAction::Pull
            &&& action_of(after_event(first, LoopEvent::Failed)) == LoopAction::Stop
            &&& action_of(sending) == LoopAction::Send
            &&& action_of(after_event(sending, LoopEvent::Failed)) == LoopAction::Stop
            &&& action_of(again) == LoopAction::Pull
            &&& after_event(again, LoopEvent::Pulled) == sending
            &&& action_of(after_event(again, empty)) == LoopAction::ReadClock
            &&& deadline_passed ==> action_of(after_event(first, empty)) == LoopAction::ReadClock
            &&& !deadline_passed ==> after_event(first, empty) == first
        }),
{
}

/// What was measured sets the pace of the loop itself: one frame per second for a tab out of view,
/// five for an idle user, and else as many as the session has.
pub proof fn loops_keep_their_pace(
    l: &mut CaptureLoop,
    backgrounded: bool,
    now_ms: u64,
    last_input_ms: u64,
)
    requires
        is_loop_state(old(l)@),
        old(l)@.step == Step::Measure,
        last_input_ms <= now_ms,
        call_ensures(
            CaptureLoop::advance,
            (l, LoopEvent::Measured { backgrounded, now_ms, last_input_ms }),
            (),
        ),
    ensures
        backgrounded ==> final(l)@.target_ns == 1_000_000_000,
        !backgrounded && last_input_ms > 0 && now_ms > last_input_ms + 300_000
            ==> final(l)@.target_ns == 200_000_000,
        !backgrounded && (last_input_ms == 0 || now_ms <= last_input_ms + 300_000)
            ==> final(l)@.target_ns == 1_000_000_000int / old(l)@.framerate as int,
        final(l)@.framerate == old(l)@.framerate,
{
    frames_take_their_time(old(l)@, backgrounded, now_ms, last_input_ms);
    let f = old(l)@.framerate as int;
    let q = 1_000_000_000int / f;
    assert(0 <= q <= 1_000_000_000) by (nonlinear_arith)
        requires
            f > 0,
            q == 1_000_000_000int / f,
    ;
}

/// A loop does what its step asks for, goes where the event leads, and begins with a turn at the
/// size and the rates that it was made with.
pub proof fn loops_go_step_by_step(
    l: &mut CaptureLoop,
    e: LoopEvent,
    before: &CaptureLoop,
    action: LoopAction,
    width: u32,
    height: u32,
    framerate: u32,
    bitrate: u32,
    fresh: CaptureLoop,
)
    requires
        call_ensures(CaptureLoop::advance, (l, e), ()),
        call_ensures(CaptureLoop::action, (before,), action),
        call_ensures(CaptureLoop::new, (width, height, framerate, bitrate), fresh),
    ensures
        final(l)@ == after_event(old(l)@, e),
        action == action_of(before@),
        fresh@.step == Step::Turn,
        (fresh@.width, fresh@.height) == (width, height),
        (fresh@.framerate, fresh@.bitrate) == (framerate, bitrate),
        fresh@.errors == 0,
        fresh@.reset_ns is None,
{
}

/// Whether an event can come of what a step asks for.
pub open spec fn comes_of(step: Step, e: LoopEvent) -> bool {
    match e {
        LoopEvent::Done => !(step == Step::Turn || step == Step::Commands || step == Step::Recapture
            || step is Remake || step == Step::AskKeyframe || step == Step::Measure || step
            == Step::Check || step is Drain || step == Step::Clock || step == Step::Over),
        LoopEvent::Failed => step is Resize || step == Step::Recapture || step is Remake || step
            == Step::Capture || step == Step::Encode || step is Drain || step == Step::Send,
        LoopEvent::Shutdown(_) => step == Step::Turn,
        LoopEvent::Command { .. } => step == Step::Commands,
        LoopEvent::Recaptured { .. } => step == Step::Recapture,
        LoopEvent::Made { .. } => step is Remake,
        LoopEvent::KeyframeWanted(_) => step == Step::AskKeyframe,
        LoopEvent::Measured { .. } => step == Step::Measure,
        LoopEvent::EncoderFailed(_) => step == Step::Check,
        LoopEvent::Pulled => step is Drain,
        LoopEvent::Empty { .. } => step is Drain,
        LoopEvent::Elapsed(_) => step == Step::Clock,
    }
}

/// An event changes what it tells of and nothing else: the size with a new capture, the time of the
/// encoder with one that was made on demand, the failures with a capture, and the pace with a
/// measurement. The rates of the session stay, and an event that answers nothing changes nothing.
pub proof fn events_change_what_they_tell_of(l: &mut CaptureLoop, e: LoopEvent)
    requires
        is_loop_state(old(l)@),
        e matches LoopEvent::Measured { now_ms, last_input_ms, .. } ==> last_input_ms <= now_ms,
        call_ensures(CaptureLoop::advance, (l, e), ()),
    ensures
        ({
            let a = old(l)@;
            let b = final(l)@;
            &&& (b.framerate, b.bitrate) == (a.framerate, a.bitrate)
            &&& a.step == Step::Recapture && e is Recaptured ==> (e matches LoopEvent::Recaptured {
                width,
                height,
            } && b.width == width && b.height == height)
            &&& !(a.step == Step::Recapture && e is Recaptured) ==> (b.width, b.height) == (
                a.width,
                a.height,
            )
            &&& a.step == Step::Remake(Remake::Reset) && e is Made ==> (e matches LoopEvent::Made {
                now_ns,
            } && b.reset_ns == Some(now_ns))
            &&& !(a.step == Step::Remake(Remake::Reset) && e is Made) ==> b.reset_ns == a.reset_ns
            &&& a.step == Step::Capture && e is Done ==> b.errors == 0
            &&& a.step == Step::Capture && e is Failed && a.errors < 299 ==> b.errors == a.errors + 1
            &&& a.step != Step::Capture || !(e is Done || e is Failed) ==> b.errors == a.errors
            &&& a.step != Step::Measure || !(e is Measured) ==> (b.resting, b.target_ns) == (
                a.resting,
                a.target_ns,
            )
            &&& a.step == Step::Over ==> b.step == Step::Over
            &&& !comes_of(a.step, e) ==> b == a
        }),
{
}

/// Each step asks for its own: what is to be made has the size and the rates of the loop, or 120
/// frames for a display of another size, and what is to be spent is what was found to be left.
pub proof fn steps_ask_for_their_own(l: &CaptureLoop, r: LoopAction, target: u64)
    requires
        call_ensures(CaptureLoop::action, (l,), r),
        call_ensures(CaptureLoop::target_ns, (l,), target),
    ensures
        ({
            let s = l@;
            &&& target == s.target_ns
            &&& r == LoopAction::CheckShutdown <==> s.step == Step::Turn
            &&& r == LoopAction::TakeCommand <==> s.step == Step::Commands
            &&& r is ResizeDisplay <==> s.step is Resize
            &&& r matches LoopAction::ResizeDisplay { width, height } ==> s.step == Step::Resize {
                width,
                height,
            }
            &&& r == LoopAction::Recapture <==> s.step == Step::Recapture
            &&& r == LoopAction::ForceKeyframe <==> s.step == Step::ForceKeyframe
            &&& r is MakeEncoder <==> s.step is Remake
            &&& r matches LoopAction::MakeEncoder { width, height, framerate, bitrate } ==> {
                &&& width == s.width && height == s.height && bitrate == s.bitrate
                &&& s.step == Step::Remake(Remake::Resize) ==> framerate == 120
                &&& s.step != Step::Remake(Remake::Resize) ==> framerate == s.framerate
            }
            &&& r is Announce <==> s.step == Step::Announce
            &&& r matches LoopAction::Announce { width, height } ==> width == s.width && height
                == s.height
            &&& r == LoopAction::TakeKeyframeFlag <==> s.step == Step::AskKeyframe
            &&& r == LoopAction::Show <==> s.step == Step::Show
            &&& r == LoopAction::Measure <==> s.step == Step::Measure
            &&& r == LoopAction::CheckEncoder <==> s.step == Step::Check
            &&& r == LoopAction::Capture <==> s.step == Step::Capture
            &&& r is WaitBriefly <==> s.step is Retry
            &&& r matches LoopAction::WaitBriefly { log } ==> s.step == Step::Retry { log }
            &&& r == LoopAction::Encode <==> s.step == Step::Encode
            &&& r == LoopAction::Pull <==> s.step is Drain
            &&& r == LoopAction::Send <==> s.step == Step::Send
            &&& r == LoopAction::ReadClock <==> s.step == Step::Clock
            &&& r is Rest <==> s.step is Rest
            &&& r matches LoopAction::Rest(p) ==> s.step == Step::Rest(p)
            &&& r == LoopAction::Stop <==> s.step == Step::Over
        }),
{
}

/// A step leads to the next: to the end where the agent shuts down or something fails that cannot be
/// done without, and else through the commands, the key frame, the measurement, the encoder, the
/// capture and the sending, to the next turn.
pub proof fn steps_lead_to_each_other(l: &mut CaptureLoop, e: LoopEvent)
    requires
        is_loop_state(old(l)@),
        comes_of(old(l)@.step, e),
        e matches LoopEvent::Measured { now_ms, last_input_ms, .. } ==> last_input_ms <= now_ms,
        call_ensures(CaptureLoop::advance, (l, e), ()),
    ensures
        ({
            let a = old(l)@.step;
            let b = final(l)@.step;
            &&& e is Failed && !(a is Resize) && a != Step::Capture ==> b == Step::Over
            &&& e is Failed && a is Resize ==> b == Step::Commands
            &&& e is Failed && a == Step::Capture ==> (b == Step::Over <==> old(l)@.errors >= 299) && (b
                is Retry <==> old(l)@.errors < 299)
            &&& e matches LoopEvent::Shutdown(down) ==> b == (if down {
                Step::Over
            } else {
                Step::Commands
            })
            &&& e matches LoopEvent::Command { command: None, .. } ==> b == Step::AskKeyframe
            &&& e is Recaptured ==> b == Step::Remake(Remake::Resize)
            &&& e is Made && a == Step::Remake(Remake::Reset) ==> b == Step::AskKeyframe
            &&& e is Made && a == Step::Remake(Remake::Resize) ==> b == Step::Announce
            &&& e is Made && a == Step::Remake(Remake::Recovery) ==> b == Step::Capture
            &&& e matches LoopEvent::KeyframeWanted(wanted) ==> b == (if wanted {
                Step::Show
            } else {
                Step::Measure
            })
            &&& e is Measured ==> b == Step::Check
            &&& e matches LoopEvent::EncoderFailed(failed) ==> b == (if failed {
                Step::Remake(Remake::Recovery)
            } else {
                Step::Capture
            })
            &&& e is Pulled ==> b == Step::Send
            &&& e matches LoopEvent::Empty { deadline_passed } ==> b == (if deadline_passed || a
                == (Step::Drain { any: true }) {
                Step::Clock
            } else {
                a
            })
            &&& e is Elapsed ==> b is Rest
            &&& e is Done && a is Resize ==> b == Step::Recapture
            &&& e is Done && a == Step::ForceKeyframe ==> b == Step::Commands
            &&& e is Done && a == Step::Announce ==> b == Step::AskKeyframe
            &&& e is Done && a == Step::Show ==> b == Step::Measure
            &&& e is Done && a == Step::Capture ==> b == Step::Encode
            &&& e is Done && a is Retry ==> b == Step::Turn
            &&& e is Done && a == Step::Encode ==> b == Step::Drain { any: false }
            &&& e is Done && a == Step::Send ==> b == Step::Drain { any: true }
            &&& e is Done && a is Rest ==> b == Step::Turn
        }),
{
}

} // verus!
