use beam::capture::{frame_bytes, FramePool, POOL_SIZE};
use beam::credentials::{credentials_clear, credentials_load, entry_key, KeyringAnswer, SERVICE};
use beam::input::{Effect, InputEvent, InputState, MAX_CLIPBOARD_BYTES};
use beam::pacing::{
    after_audio_failure, after_capture_error, cap_rates, cursor_message, frame_duration_ns,
    is_drained, is_idle, pace, plan_command, remade_rates, AudioRetry, CaptureCommand, CommandPlan,
    Pace, Remake,
};

use beam::waiting::{await_step, poll_step, Wait, BUS_LIMIT_MS, SOUND_SOCKET_PAUSES};

// --- input ---

fn own(state: &mut InputState, event: InputEvent) -> Vec<Effect> {
    let all = state.handle(&event);
    assert!(all[0] == Effect::NoteInput && all[1] == Effect::WakeCapture);
    all[2..].to_vec()
}

#[test]
fn copying_reads_the_clipboard() {
    let mut s = InputState::new(0, 0);
    let shown = Effect::SetBackgrounded(false);
    let key = |c: u16, d: bool| InputEvent::Key { c, d };
    let inject = |c: u16, d: bool| Effect::InjectKey { c, d };
    assert!(own(&mut s, key(46, false)) == [shown, inject(46, false)]);
    assert!(own(&mut s, key(29, true)) == [shown, inject(29, true)]);
    assert!(own(&mut s, key(46, true)) == [shown, inject(46, true)]);
    assert!(own(&mut s, key(46, false)) == [shown, Effect::ReadClipboard, inject(46, false)]);
    assert!(own(&mut s, key(45, false)) == [shown, Effect::ReadClipboard, inject(45, false)]);
    assert!(own(&mut s, key(47, false)) == [shown, inject(47, false)]);
    assert!(own(&mut s, key(97, false)) == [shown, inject(97, false)]);
    assert!(own(&mut s, key(46, false)) == [shown, inject(46, false)]);
}

#[test]
fn pointers_are_injected() {
    let mut s = InputState::new(0, 0);
    let shown = Effect::SetBackgrounded(false);
    assert!(own(&mut s, InputEvent::MouseMove) == [shown, Effect::InjectMouseMove]);
    assert!(
        own(&mut s, InputEvent::RelativeMouseMove { in_range: true })
            == [shown, Effect::InjectRelativeMove]
    );
    assert!(own(&mut s, InputEvent::RelativeMouseMove { in_range: false }) == [shown]);
    assert!(own(&mut s, InputEvent::Scroll { in_range: true }) == [shown, Effect::InjectScroll]);
    assert!(own(&mut s, InputEvent::Scroll { in_range: false }) == [shown]);
    assert!(
        own(&mut s, InputEvent::Button { b: 1, d: true })
            == [shown, Effect::InjectButton { b: 1, d: true }]
    );
}

#[test]
fn texts_are_bounded() {
    let mut s = InputState::new(0, 0);
    let fits = "a".repeat(MAX_CLIPBOARD_BYTES);
    let wide = "é".repeat(MAX_CLIPBOARD_BYTES / 2 + 1);
    assert!(
        own(&mut s, InputEvent::Clipboard { text: fits.clone() }) == [Effect::SetClipboard]
    );
    assert!(own(&mut s, InputEvent::ClipboardPrimary { text: fits }) == [Effect::SetPrimary]);
    assert!(own(&mut s, InputEvent::Clipboard { text: wide.clone() }) == [Effect::Warn]);
    assert!(own(&mut s, InputEvent::ClipboardPrimary { text: wide }) == [Effect::Warn]);
}

#[test]
fn layouts_are_set_once() {
    let mut s = InputState::new(0, 0);
    let layout = |l: &str| InputEvent::Layout { layout: l.to_string() };
    assert!(own(&mut s, layout("de")) == [Effect::SetLayout]);
    assert!(own(&mut s, layout("de")).is_empty());
    assert!(own(&mut s, layout("no good")) == [Effect::Warn]);
    assert!(own(&mut s, layout("")) == [Effect::Warn]);
    assert!(own(&mut s, layout("abcdefghijklmnopqrstu")) == [Effect::Warn]);
    assert!(own(&mut s, layout("dé")) == [Effect::Warn]);
    assert!(own(&mut s, layout("de")).is_empty());
    assert!(own(&mut s, layout("us-intl_1")) == [Effect::SetLayout]);
    assert!(own(&mut s, layout("de")) == [Effect::SetLayout]);
}

#[test]
fn resizes_and_tabs() {
    let mut s = InputState::new(1920, 1080);
    assert!(
        own(&mut s, InputEvent::Resize { w: 2561, h: 1441 })
            == [Effect::Resize { w: 1920, h: 1080 }]
    );
    assert!(own(&mut s, InputEvent::Resize { w: 10, h: 10 }) == [Effect::Warn]);
    assert!(
        own(&mut s, InputEvent::VisibilityState { visible: false })
            == [Effect::SetBackgrounded(true)]
    );
    assert!(
        own(&mut s, InputEvent::VisibilityState { visible: true })
            == [
                Effect::SetBackgrounded(false),
                Effect::AwaitKeyframe,
                Effect::ResetEncoder,
                Effect::WakeCapture
            ]
    );
    assert!(own(&mut s, InputEvent::Quality).is_empty());
    assert!(own(&mut s, InputEvent::FileStart) == [Effect::FileTransfer]);
    assert!(own(&mut s, InputEvent::FileChunk) == [Effect::FileTransfer]);
    assert!(own(&mut s, InputEvent::FileDone) == [Effect::FileTransfer]);
    assert!(own(&mut s, InputEvent::FileDownloadRequest) == [Effect::SendFile]);
}

// --- frames ---

#[test]
fn frames_are_opaque_and_pooled() {
    assert_eq!(frame_bytes(1920, 1080), 8_294_400);
    let mut pool = FramePool::new(8);
    let screen = [1u8, 2, 3, 4, 5, 6, 7, 8, 9];
    let mut frames = Vec::new();
    for _ in 0..POOL_SIZE + 2 {
        let f = pool.fill_frame(&screen);
        assert_eq!(f.len(), 9);
        assert_eq!(f.as_bytes(), [1, 2, 3, 255, 5, 6, 7, 255, 9]);
        frames.push(f);
    }
    for f in frames {
        pool.give_back(f);
    }
    assert_eq!(pool.fill_frame(&[0, 0, 0, 0]).as_bytes(), [0, 0, 0, 255]);
    assert_eq!(pool.fill_frame(&[]).len(), 0);
}

// --- pacing ---

#[test]
fn rates_are_capped() {
    let r = cap_rates(true, 120, 50_000);
    assert_eq!((r.framerate, r.bitrate), (60, 20_000));
    let r = cap_rates(true, 120, 5_000);
    assert_eq!((r.framerate, r.bitrate), (60, 5_000));
    let r = cap_rates(true, 60, 50_000);
    assert_eq!((r.framerate, r.bitrate), (60, 50_000));
    let r = cap_rates(false, 120, 50_000);
    assert_eq!((r.framerate, r.bitrate), (120, 50_000));
    let r = remade_rates(Remake::Resize, 60, 9);
    assert_eq!((r.framerate, r.bitrate), (120, 9));
    assert_eq!(remade_rates(Remake::Reset, 60, 9).framerate, 60);
    assert_eq!(remade_rates(Remake::Recovery, 60, 9).framerate, 60);
}

#[test]
fn frames_are_paced() {
    assert_eq!(frame_duration_ns(120, false, false), 8_333_333);
    assert_eq!(frame_duration_ns(120, false, true), 200_000_000);
    assert_eq!(frame_duration_ns(120, true, true), 1_000_000_000);
    assert!(!is_idle(300_001, 0));
    assert!(!is_idle(300_001, 1));
    assert!(is_idle(300_002, 1));
    assert!(pace(10, 10, false) == Pace::Next);
    assert!(pace(4, 10, true) == Pace::WaitForWake(6));
    assert!(pace(0, 2_000_001, false) == Pace::SleepThenSpin(1_000_001));
    assert!(pace(0, 2_000_000, false) == Pace::Spin);
}

#[test]
fn commands_are_planned() {
    let resize = CaptureCommand::Resize { width: 8, height: 6 };
    assert!(plan_command(resize, 8, 6, 0) == CommandPlan::Skip);
    assert!(plan_command(resize, 8, 7, 0) == CommandPlan::ResizeDisplay);
    let reset = CaptureCommand::ResetEncoder;
    assert!(plan_command(reset, 8, 6, 4_999_999_999) == CommandPlan::ForceKeyframe);
    assert!(plan_command(reset, 8, 6, 5_000_000_000) == CommandPlan::ResetEncoder);
}

#[test]
fn errors_end_the_capture() {
    let mut errors = 0;
    let mut logged = Vec::new();
    loop {
        let f = after_capture_error(errors);
        errors = f.errors;
        if f.log {
            logged.push(errors);
        }
        if f.stop {
            break;
        }
    }
    assert_eq!(errors, 300);
    assert_eq!(logged, [1, 2, 3, 100, 200, 300]);
    assert!(is_drained(true, false) && is_drained(false, true) && !is_drained(false, false));
}

#[test]
fn sound_is_retried() {
    assert!(after_audio_failure(0) == AudioRetry::After { delay_ms: 500, log: true });
    assert!(after_audio_failure(19) == AudioRetry::After { delay_ms: 500, log: true });
    assert!(after_audio_failure(20) == AudioRetry::After { delay_ms: 2000, log: true });
    assert!(after_audio_failure(21) == AudioRetry::After { delay_ms: 2000, log: false });
    assert!(after_audio_failure(60) == AudioRetry::After { delay_ms: 2000, log: true });
    assert!(after_audio_failure(61) == AudioRetry::GiveUp);
}

#[test]
fn cursor_messages_are_json() {
    let text = cursor_message("url(\"x\") 1 2, auto");
    let value: serde_json::Value = serde_json::from_str(&text).unwrap();
    assert_eq!(value["t"], "cur");
    assert_eq!(value["css"], "url(\"x\") 1 2, auto");
    assert_eq!(value.as_object().unwrap().len(), 2);
    assert_eq!(cursor_message("auto"), r#"{"css":"auto","t":"cur"}"#);
    assert_eq!(cursor_message(""), r#"{"css":"","t":"cur"}"#);
    assert_eq!(
        cursor_message("\"\\/\u{8}\t\n\u{c}\r\0\u{b}\u{1f}\u{7f}é€"),
        "{\"css\":\"\\\"\\\\/\\b\\t\\n\\f\\r\\u0000\\u000b\\u001f\u{7f}é€\",\"t\":\"cur\"}"
    );
}

#[test]
fn cursor_messages_are_one_line_and_distinct() {
    let shapes = ["a\nb", "a\\nb", "a\u{1}b", "a\\u0001b", "\"", "\\\""];
    for (i, a) in shapes.iter().enumerate() {
        assert!(cursor_message(a).chars().all(|c| c >= ' '));
        for b in &shapes[..i] {
            assert_ne!(cursor_message(a), cursor_message(b));
        }
    }
}

// --- waiting ---

#[test]
fn polls_end() {
    assert!(poll_step(0, 0, true) == Wait::Ready);
    assert!(poll_step(0, 0, false) == Wait::GiveUp);
    let pauses =
        (0..100).take_while(|n| poll_step(*n, SOUND_SOCKET_PAUSES, false) == Wait::Pause).count();
    assert_eq!(pauses, 20);
    assert!(poll_step(20, SOUND_SOCKET_PAUSES, true) == Wait::Ready);
    assert!(await_step(2_999, BUS_LIMIT_MS, false) == Wait::Pause);
    assert!(await_step(2_999, BUS_LIMIT_MS, true) == Wait::Ready);
    assert!(await_step(3_000, BUS_LIMIT_MS, true) == Wait::GiveUp);
}

// --- credentials ---

#[test]
fn credentials_are_kept() {
    assert_eq!(SERVICE, "com.beam.desktop");
    assert_eq!(entry_key("host", "ann"), "host|ann");
    assert_eq!(
        credentials_load(KeyringAnswer::Done("t".to_string())),
        Ok(Some("t".to_string()))
    );
    assert_eq!(credentials_load(KeyringAnswer::NoEntry), Ok(None));
    assert_eq!(
        credentials_load(KeyringAnswer::Failed("locked".to_string())),
        Err("locked".to_string())
    );
    assert_eq!(credentials_clear(KeyringAnswer::Done(String::new())), Ok(()));
    assert_eq!(credentials_clear(KeyringAnswer::NoEntry), Ok(()));
    assert_eq!(
        credentials_clear(KeyringAnswer::Failed("locked".to_string())),
        Err("locked".to_string())
    );
}
