use beam::pacing::{CaptureCommand, Pace};
use beam::recorder::{CaptureLoop, LoopAction, LoopEvent};

fn fresh() -> CaptureLoop {
    CaptureLoop::new(1920, 1080, 60, 20_000)
}

fn command(command: Option<CaptureCommand>, now_ns: u64) -> LoopEvent {
    LoopEvent::Command { command, now_ns }
}

/// Goes through the events, and says what is asked for after each.
fn go(l: &mut CaptureLoop, events: &[LoopEvent]) -> Vec<LoopAction> {
    events
        .iter()
        .map(|e| {
            l.advance(*e);
            l.action()
        })
        .collect()
}

fn measured(now_ms: u64, last_input_ms: u64, backgrounded: bool) -> LoopEvent {
    LoopEvent::Measured { backgrounded, now_ms, last_input_ms }
}

#[test]
fn a_turn_captures_a_frame() {
    let mut l = fresh();
    assert!(l.action() == LoopAction::CheckShutdown);
    let actions = go(
        &mut l,
        &[
            LoopEvent::Shutdown(false),
            command(None, 1),
            LoopEvent::KeyframeWanted(true),
            LoopEvent::Done,
            measured(10, 5, false),
            LoopEvent::EncoderFailed(false),
            LoopEvent::Done,
            LoopEvent::Done,
            LoopEvent::Empty { deadline_passed: false },
            LoopEvent::Pulled,
            LoopEvent::Done,
            LoopEvent::Empty { deadline_passed: false },
            LoopEvent::Elapsed(1_000_000),
            LoopEvent::Done,
            LoopEvent::Shutdown(true),
        ],
    );
    assert!(
        actions
            == [
                LoopAction::TakeCommand,
                LoopAction::TakeKeyframeFlag,
                LoopAction::Show,
                LoopAction::Measure,
                LoopAction::CheckEncoder,
                LoopAction::Capture,
                LoopAction::Encode,
                LoopAction::Pull,
                LoopAction::Pull,
                LoopAction::Send,
                LoopAction::Pull,
                LoopAction::ReadClock,
                LoopAction::Rest(Pace::SleepThenSpin(14_666_666)),
                LoopAction::CheckShutdown,
                LoopAction::Stop,
            ]
    );
    assert_eq!(l.target_ns(), 16_666_666);
    l.advance(LoopEvent::Done);
    assert!(l.action() == LoopAction::Stop);
}

#[test]
fn resizes_reach_the_encoder() {
    let mut l = fresh();
    let actions = go(
        &mut l,
        &[
            LoopEvent::Shutdown(false),
            command(Some(CaptureCommand::Resize { width: 1920, height: 1080 }), 0),
            command(Some(CaptureCommand::Resize { width: 800, height: 600 }), 0),
            LoopEvent::Failed,
            command(Some(CaptureCommand::Resize { width: 800, height: 600 }), 0),
            LoopEvent::Done,
            LoopEvent::Recaptured { width: 801, height: 601 },
            LoopEvent::Made { now_ns: 1 },
            LoopEvent::Done,
        ],
    );
    let resize = LoopAction::ResizeDisplay { width: 800, height: 600 };
    assert!(
        actions
            == [
                LoopAction::TakeCommand,
                LoopAction::TakeCommand,
                resize,
                LoopAction::TakeCommand,
                resize,
                LoopAction::Recapture,
                LoopAction::MakeEncoder { width: 801, height: 601, framerate: 120, bitrate: 20_000 },
                LoopAction::Announce { width: 801, height: 601 },
                LoopAction::TakeKeyframeFlag,
            ]
    );
}

#[test]
fn resets_are_throttled() {
    let mut l = fresh();
    let reset = |now: u64| command(Some(CaptureCommand::ResetEncoder), now);
    let make =
        LoopAction::MakeEncoder { width: 1920, height: 1080, framerate: 60, bitrate: 20_000 };
    let actions = go(
        &mut l,
        &[LoopEvent::Shutdown(false), reset(7), LoopEvent::Made { now_ns: 10 }],
    );
    assert!(actions[1..] == [make, LoopAction::TakeKeyframeFlag]);
    // On to the next turn.
    go(
        &mut l,
        &[
            LoopEvent::KeyframeWanted(false),
            measured(1, 0, true),
            LoopEvent::EncoderFailed(false),
            LoopEvent::Failed,
            LoopEvent::Done,
            LoopEvent::Shutdown(false),
        ],
    );
    let actions = go(
        &mut l,
        &[reset(5_000_000_009), LoopEvent::Done, reset(5_000_000_010)],
    );
    assert!(actions == [LoopAction::ForceKeyframe, LoopAction::TakeCommand, make]);
    l.advance(LoopEvent::Failed);
    assert!(l.action() == LoopAction::Stop);
}

#[test]
fn failing_captures_end() {
    let mut l = fresh();
    let mut logged = Vec::new();
    for n in 1..=300 {
        go(
            &mut l,
            &[
                LoopEvent::Shutdown(false),
                command(None, 0),
                LoopEvent::KeyframeWanted(false),
                measured(1, 0, false),
                LoopEvent::EncoderFailed(true),
                LoopEvent::Made { now_ns: 0 },
            ],
        );
        assert!(l.action() == LoopAction::Capture);
        l.advance(LoopEvent::Failed);
        match l.action() {
            LoopAction::WaitBriefly { log } => {
                if log {
                    logged.push(n);
                }
            }
            _ => assert_eq!(n, 300),
        }
        l.advance(LoopEvent::Done);
    }
    assert_eq!(logged, [1, 2, 3, 100, 200]);
    assert!(l.action() == LoopAction::Stop);
}

#[test]
fn resting_sessions_can_be_woken() {
    let mut l = fresh();
    go(
        &mut l,
        &[
            LoopEvent::Shutdown(false),
            command(None, 0),
            LoopEvent::KeyframeWanted(false),
            measured(400_000, 1, false),
            LoopEvent::EncoderFailed(false),
            LoopEvent::Done,
            LoopEvent::Done,
            LoopEvent::Empty { deadline_passed: true },
            LoopEvent::Elapsed(1),
        ],
    );
    assert!(l.action() == LoopAction::Rest(Pace::WaitForWake(199_999_999)));
}

#[test]
fn the_loop_ends_on_errors() {
    let to_capture = [
        LoopEvent::Shutdown(false),
        command(None, 0),
        LoopEvent::KeyframeWanted(false),
        measured(1, 0, false),
        LoopEvent::EncoderFailed(false),
        LoopEvent::Done,
    ];
    for rest in [
        vec![LoopEvent::Failed],
        vec![LoopEvent::Done, LoopEvent::Failed],
        vec![LoopEvent::Done, LoopEvent::Pulled, LoopEvent::Failed],
    ] {
        let mut l = fresh();
        go(&mut l, &to_capture);
        go(&mut l, &rest);
        assert!(l.action() == LoopAction::Stop);
    }
}
