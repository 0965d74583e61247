use beam::clipboard::{read_outcome, write_outcome, ClipboardBridge};

// --- sanitize: control character stripping ---

#[test]
fn sanitize_strips_escape() {
    assert_eq!(ClipboardBridge::sanitize("hello\x1bworld"), "helloworld");
}

#[test]
fn sanitize_strips_bell() {
    assert_eq!(ClipboardBridge::sanitize("ding\x07dong"), "dingdong");
}

#[test]
fn sanitize_strips_null() {
    assert_eq!(ClipboardBridge::sanitize("a\x00b"), "ab");
}

#[test]
fn sanitize_strips_delete() {
    assert_eq!(ClipboardBridge::sanitize("rm\x7fme"), "rmme");
}

#[test]
fn sanitize_strips_mixed_control_chars() {
    // ESC[31m is a typical ANSI color sequence
    let input = "\x1b[31mred text\x1b[0m";
    assert_eq!(ClipboardBridge::sanitize(input), "[31mred text[0m");
}

#[test]
fn sanitize_strips_all_c0_controls_except_whitespace() {
    // C0 control range is 0x00..=0x1F. Tab (0x09), LF (0x0A), CR (0x0D) are kept.
    let mut input = String::new();
    for c in 0x00u8..=0x1F {
        input.push(c as char);
    }
    let result = ClipboardBridge::sanitize(&input);
    assert_eq!(result, "\t\n\r");
}

// --- sanitize: preserves normal text ---

#[test]
fn sanitize_preserves_ascii_text() {
    let text = "Hello, World! 123 @#$%^&*()";
    assert_eq!(ClipboardBridge::sanitize(text), text);
}

#[test]
fn sanitize_preserves_unicode() {
    let text = "Hei verden! \u{1F600} \u{00E6}\u{00F8}\u{00E5}";
    assert_eq!(ClipboardBridge::sanitize(text), text);
}

#[test]
fn sanitize_preserves_empty_string() {
    assert_eq!(ClipboardBridge::sanitize(""), "");
}

#[test]
fn sanitize_preserves_spaces_and_punctuation() {
    let text = "line one.  line two!  (parens) [brackets] {braces}";
    assert_eq!(ClipboardBridge::sanitize(text), text);
}

// --- sanitize: preserves whitespace ---

#[test]
fn sanitize_preserves_newlines() {
    let text = "line one\nline two\nline three";
    assert_eq!(ClipboardBridge::sanitize(text), text);
}

#[test]
fn sanitize_preserves_carriage_returns() {
    let text = "line one\r\nline two\r\n";
    assert_eq!(ClipboardBridge::sanitize(text), text);
}

#[test]
fn sanitize_preserves_tabs() {
    let text = "col1\tcol2\tcol3";
    assert_eq!(ClipboardBridge::sanitize(text), text);
}

#[test]
fn sanitize_preserves_mixed_whitespace() {
    let text = "header\n\tcol1\tcol2\r\ndata\n";
    assert_eq!(ClipboardBridge::sanitize(text), text);
}

// --- sanitize: realistic clipboard payloads ---

#[test]
fn sanitize_handles_terminal_escape_injection() {
    // Simulates a malicious clipboard payload that could run commands
    // if pasted into a terminal: ESC ]0; sets title, BEL terminates
    let malicious = "\x1b]0;pwned\x07\necho hacked";
    assert_eq!(
        ClipboardBridge::sanitize(malicious),
        "]0;pwned\necho hacked"
    );
}

#[test]
fn sanitize_handles_multiline_code_snippet() {
    let code = "fn main() {\n    println!(\"hello\");\n}\n";
    assert_eq!(ClipboardBridge::sanitize(code), code);
}

// --- the bridge ---

#[test]
fn noop_bridge_does_nothing() {
    let bridge = ClipboardBridge::noop();
    assert!(bridge.set_text("hello").is_none());
    assert!(bridge.set_primary_text("hello").is_none());
    assert!(bridge.get_text().is_none());
}

#[test]
fn bridge_writes_sanitized_text() {
    let bridge = ClipboardBridge::new(":10", true).ok().unwrap();
    let write = bridge.set_text("a\x1bb\n").unwrap();
    assert_eq!(write.input, "ab\n");
    assert_eq!(write.command.program, "xclip");
    assert_eq!(write.command.args, ["-selection", "clipboard"]);
    assert_eq!(write.command.env, [("DISPLAY".to_string(), ":10".to_string())]);
    let primary = bridge.set_primary_text("x").unwrap();
    assert_eq!(primary.command.args, ["-selection", "primary"]);
    let read = bridge.get_text().unwrap();
    assert_eq!(read.args, ["-selection", "clipboard", "-o"]);
}

#[test]
fn bridge_needs_xclip() {
    let e = ClipboardBridge::new(":10", false).err().unwrap();
    assert_eq!(e, "xclip not found; install it for clipboard support");
}

#[test]
fn clipboard_outcomes() {
    assert_eq!(write_outcome(true, ""), Ok(()));
    assert_eq!(
        write_outcome(false, "exit status: 1"),
        Err("xclip exited with status exit status: 1".to_string())
    );
    assert_eq!(read_outcome(false, vec![0xff]), Ok(None));
    assert_eq!(read_outcome(true, "æ".as_bytes().to_vec()), Ok(Some("æ".to_string())));
    assert_eq!(
        read_outcome(true, vec![b'a', 0xff]),
        Err("Clipboard content is not valid UTF-8".to_string())
    );
}

#[test]
fn sanitizing_twice_is_sanitizing_once() {
    let once = ClipboardBridge::sanitize("\x1b[1m\tx\x7f\r\n");
    assert_eq!(once, "[1m\tx\r\n");
    assert_eq!(ClipboardBridge::sanitize(&once), once);
}
