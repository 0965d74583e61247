//! What the events of a remote user lead to.
//!
//! Positions and distances are floating-point numbers, which the events here do not carry: an
//! effect that injects one refers to the event that it answers.
use crate::config::is_ascii_alnum;
use crate::display::{clamp_resize_dimensions, clamped_size, clamped_sizes_fit};
use crate::text::{chars_of, text_eq};
use vstd::prelude::*;
use vstd::string::*;

verus! {

/// An event of a remote user.
pub enum InputEvent {
    /// A key goes down or up.
    Key { c: u16, d: bool },
    /// The pointer moves to a place.
    MouseMove,
    /// The pointer moves by a distance. `in_range` says whether both parts are finite and from
    /// -10000 to 10000.
    RelativeMouseMove { in_range: bool },
    /// A button goes down or up.
    Button { b: u8, d: bool },
    /// The wheel turns. `in_range` is as for a move.
    Scroll { in_range: bool },
    /// The user's clipboard has a text.
    Clipboard { text: String },
    /// The user has selected a text.
    ClipboardPrimary { text: String },
    /// The user's window has a size.
    Resize { w: u32, h: u32 },
    /// The user's keyboard has a layout.
    Layout { layout: String },
    /// A quality was chosen, which is fixed by the configuration.
    Quality,
    /// The user's tab comes into view or goes out of it.
    VisibilityState { visible: bool },
    /// A file is to come.
    FileStart,
    /// A part of a file.
    FileChunk,
    /// A file is complete.
    FileDone,
    /// The user asks for a file.
    FileDownloadRequest,
}

/// Something that an event leads to.
#[derive(Clone, Copy, PartialEq, Eq, Structural)]
pub enum Effect {
    /// Take the time as that of the last input.
    NoteInput,
    /// Wake the capture, which sleeps between frames while nothing happens.
    WakeCapture,
    /// Take the tab as in view or out of it.
    SetBackgrounded(bool),
    /// Read the clipboard of the display and send it to the user.
    ReadClipboard,
    /// Inject the key.
    InjectKey { c: u16, d: bool },
    /// Inject the event's move.
    InjectMouseMove,
    /// Inject the event's relative move.
    InjectRelativeMove,
    /// Inject the button.
    InjectButton { b: u8, d: bool },
    /// Inject the event's turn of the wheel.
    InjectScroll,
    /// Put the event's text into the clipboard.
    SetClipboard,
    /// Put the event's text into the primary selection.
    SetPrimary,
    /// Resize the display.
    Resize { w: u32, h: u32 },
    /// Give the keyboard the event's layout.
    SetLayout,
    /// Send no frame until a key frame comes.
    AwaitKeyframe,
    /// Make the encoder anew, so that it starts with a key frame.
    ResetEncoder,
    /// Hand the event to the file transfer.
    FileTransfer,
    /// Send the file that the event asks for.
    SendFile,
    /// Say that the event was ignored.
    Warn,
}

/// What is kept from one event to the next.
pub struct InputState {
    ctrl_down: bool,
    last_layout: String,
    max_width: u32,
    max_height: u32,
}

/// The state in mathematical terms.
pub struct InputStateView {
    /// Whether the last event of a control key was a press.
    pub ctrl_down: bool,
    /// The layout that was set last; empty before the first.
    pub last_layout: Seq<char>,
    /// The limits to the size of the display; 0 for none.
    pub max_width: u32,
    pub max_height: u32,
}

impl View for InputState {
    type V = InputStateView;

    closed spec fn view(&self) -> InputStateView {
        InputStateView {
            ctrl_down: self.ctrl_down,
            last_layout: self.last_layout@,
            max_width: self.max_width,
            max_height: self.max_height,
        }
    }
}

/// How many bytes a text may have that goes into the clipboard.
pub const MAX_CLIPBOARD_BYTES: usize = 1_048_576;

/// The key code of the left control key.
pub const KEY_LEFT_CTRL: u16 = 29;

/// The key code of the right control key.
pub const KEY_RIGHT_CTRL: u16 = 97;

/// The key code of C, which copies.
pub const KEY_C: u16 = 46;

/// The key code of X, which cuts.
pub const KEY_X: u16 = 45;

/// Whether a key is a control key.
pub open spec fn is_ctrl(c: u16) -> bool {
    c == KEY_LEFT_CTRL || c == KEY_RIGHT_CTRL
}

/// Whether a name can be that of a keyboard layout: 1 to 20 letters, digits, hyphens and
/// underscores.
pub open spec fn is_layout_name(s: Seq<char>) -> bool {
    &&& 0 < s.len() <= 20
    &&& forall|i: int|
        0 <= i < s.len() ==> {
            let c = #[trigger] s[i];
            is_ascii_alnum(c) || c == '-' || c == '_'
        }
}

/// How many bytes a text has in UTF-8.
pub open spec fn byte_len(s: Seq<char>) -> nat {
    vstd::utf8::encode_utf8(s).len()
}

/// Whether an event comes from the user's hands, so that the tab must be in view.
pub open spec fn is_interactive(e: InputEvent) -> bool {
    e is Key || e is MouseMove || e is RelativeMouseMove || e is Button || e is Scroll
}

/// The state after an event.
pub open spec fn next_state(s: InputStateView, e: InputEvent) -> InputStateView {
    match e {
        InputEvent::Key { c, d } => if is_ctrl(c) {
            InputStateView { ctrl_down: d, ..s }
        } else {
            s
        },
        InputEvent::Layout { layout } => if is_layout_name(layout@) {
            InputStateView { last_layout: layout@, ..s }
        } else {
            s
        },
        _ => s,
    }
}

/// What an event leads to, besides what every event does.
pub open spec fn own_effects(s: InputStateView, e: InputEvent) -> Seq<Effect> {
    match e {
        InputEvent::Key { c, d } => if !d && (c == KEY_C || c == KEY_X) && s.ctrl_down {
            seq![Effect::ReadClipboard, Effect::InjectKey { c, d }]
        } else {
            seq![Effect::InjectKey { c, d }]
        },
        InputEvent::MouseMove => seq![Effect::InjectMouseMove],
        InputEvent::RelativeMouseMove { in_range } => if in_range {
            seq![Effect::InjectRelativeMove]
        } else {
            seq![]
        },
        InputEvent::Button { b, d } => seq![Effect::InjectButton { b, d }],
        InputEvent::Scroll { in_range } => if in_range {
            seq![Effect::InjectScroll]
        } else {
            seq![]
        },
        InputEvent::Clipboard { text } => if byte_len(text@) <= MAX_CLIPBOARD_BYTES {
            seq![Effect::SetClipboard]
        } else {
            seq![Effect::Warn]
        },
        InputEvent::ClipboardPrimary { text } => if byte_len(text@) <= MAX_CLIPBOARD_BYTES {
            seq![Effect::SetPrimary]
        } else {
            seq![Effect::Warn]
        },
        InputEvent::Resize { w, h } => match clamped_size(w, h, s.max_width, s.max_height) {
            Some((cw, ch)) => seq![Effect::Resize { w: cw, h: ch }],
            None => seq![Effect::Warn],
        },
        InputEvent::Layout { layout } => if !is_layout_name(layout@) {
            seq![Effect::Warn]
        } else if layout@ == s.last_layout {
            seq![]
        } else {
            seq![Effect::SetLayout]
        },
        InputEvent::Quality => seq![],
        InputEvent::VisibilityState { visible } => if visible {
            seq![
                Effect::SetBackgrounded(false),
                Effect::AwaitKeyframe,
                Effect::ResetEncoder,
                Effect::WakeCapture,
            ]
        } else {
            seq![Effect::SetBackgrounded(true)]
        },
        InputEvent::FileStart => seq![Effect::FileTransfer],
        InputEvent::FileChunk => seq![Effect::FileTransfer],
        InputEvent::FileDone => seq![Effect::FileTransfer],
        InputEvent::FileDownloadRequest => seq![Effect::SendFile],
    }
}

/// All that an event leads to, in order. Every event counts as input and wakes the capture, and
/// one from the user's hands brings the tab back into view.
pub open spec fn effects_of(s: InputStateView, e: InputEvent) -> Seq<Effect> {
    let always = seq![Effect::NoteInput, Effect::WakeCapture];
    let shown = if is_interactive(e) {
        always.push(Effect::SetBackgrounded(false))
    } else {
        always
    };
    shown + own_effects(s, e)
}

fn check_layout(layout: &str) -> (r: bool)
    ensures
        r == is_layout_name(layout@),
{
    let v = chars_of(layout);
    if v.len() == 0 || v.len() > 20 {
        return false;
    }
    for i in 0..v.len()
        invariant
            v@ == layout@,
            0 < v@.len() <= 20,
            forall|k: int|
                0 <= k < i ==> {
                    let c = #[trigger] v@[k];
                    is_ascii_alnum(c) || c == '-' || c == '_'
                },
    {
        let c = v[i];
        if !(('0' <= c && c <= '9') || ('a' <= c && c <= 'z') || ('A' <= c && c <= 'Z') || c == '-'
            || c == '_') {
            assert(layout@[i as int] == c);
            return false;
        }
    }
    true
}

/// A name whose bytes, and not only its characters, are at most 20 in number is no different:
/// the characters of a layout name take one byte each.
pub proof fn layout_names_are_ascii(s: Seq<char>)
    requires
        is_layout_name(s),
    ensures
        byte_len(s) == s.len(),
{
    assert(vstd::utf8::is_ascii_chars(s)) by {
        assert forall|i: int| 0 <= i < s.len() implies '\0' <= #[trigger] s[i] <= '\u{7f}' by {
            assert(is_ascii_alnum(s[i]) || s[i] == '-' || s[i] == '_');
        }
    }
    vstd::utf8::is_ascii_chars_encode_utf8(s);
}

impl InputState {
    /// The state before the first event.
    pub fn new(max_width: u32, max_height: u32) -> (r: Self)
        ensures
            r@ == (InputStateView {
                ctrl_down: false,
                last_layout: Seq::empty(),
                max_width,
                max_height,
            }),
    {
        InputState { ctrl_down: false, last_layout: String::new(), max_width, max_height }
    }

    /// Takes an event in, and says what it leads to.
    pub fn handle(&mut self, event: &InputEvent) -> (r: Vec<Effect>)
        ensures
            final(self)@ == next_state(old(self)@, *event),
            r@ == effects_of(old(self)@, *event),
    {
        let ghost before = self@;
        let mut out: Vec<Effect> = Vec::new();
        out.push(Effect::NoteInput);
        out.push(Effect::WakeCapture);
        match event {
            InputEvent::Key { c, d } => {
                out.push(Effect::SetBackgrounded(false));
                if *c == KEY_LEFT_CTRL || *c == KEY_RIGHT_CTRL {
                    self.ctrl_down = *d;
                }
                if !*d && (*c == KEY_C || *c == KEY_X) && self.ctrl_down {
                    out.push(Effect::ReadClipboard);
                }
                out.push(Effect::InjectKey { c: *c, d: *d });
            },
            InputEvent::MouseMove => {
                out.push(Effect::SetBackgrounded(false));
                out.push(Effect::InjectMouseMove);
            },
            InputEvent::RelativeMouseMove { in_range } => {
                out.push(Effect::SetBackgrounded(false));
                if *in_range {
                    out.push(Effect::InjectRelativeMove);
                }
            },
            InputEvent::Button { b, d } => {
                out.push(Effect::SetBackgrounded(false));
                out.push(Effect::InjectButton { b: *b, d: *d });
            },
            InputEvent::Scroll { in_range } => {
                out.push(Effect::SetBackgrounded(false));
                if *in_range {
                    out.push(Effect::InjectScroll);
                }
            },
            InputEvent::Clipboard { text } => {
                if fits_clipboard(text.as_str()) {
                    out.push(Effect::SetClipboard);
                } else {
                    out.push(Effect::Warn);
                }
            },
            InputEvent::ClipboardPrimary { text } => {
                if fits_clipboard(text.as_str()) {
                    out.push(Effect::SetPrimary);
                } else {
                    out.push(Effect::Warn);
                }
            },
            InputEvent::Resize { w, h } => {
                match clamp_resize_dimensions(*w, *h, self.max_width, self.max_height) {
                    Some((cw, ch)) => out.push(Effect::Resize { w: cw, h: ch }),
                    None => out.push(Effect::Warn),
                }
            },
            InputEvent::Layout { layout } => {
                if !check_layout(layout.as_str()) {
                    out.push(Effect::Warn);
                } else if !text_eq(layout.as_str(), self.last_layout.as_str()) {
                    self.last_layout = layout.clone();
                    out.push(Effect::SetLayout);
                }
            },
            InputEvent::Quality => {},
            InputEvent::VisibilityState { visible } => {
                if *visible {
                    out.push(Effect::SetBackgrounded(false));
                    out.push(Effect::AwaitKeyframe);
                    out.push(Effect::ResetEncoder);
                    out.push(Effect::WakeCapture);
                } else {
                    out.push(Effect::SetBackgrounded(true));
                }
            },
            InputEvent::FileStart | InputEvent::FileChunk | InputEvent::FileDone => {
                out.push(Effect::FileTransfer);
            },
            InputEvent::FileDownloadRequest => {
                out.push(Effect::SendFile);
            },
        }
        assert(out@ =~= effects_of(before, *event));
        out
    }
}

fn fits_clipboard(text: &str) -> (r: bool)
    ensures
        r == (byte_len(text@) <= MAX_CLIPBOARD_BYTES),
{
    text.as_bytes().len() <= MAX_CLIPBOARD_BYTES
}

// ---------------------------------------------------------------------------
// Laws
// ---------------------------------------------------------------------------

/// Every event counts as input, and wakes the capture, before anything else happens.
pub proof fn every_event_wakes_the_capture(s: InputStateView, e: InputEvent)
    ensures
        effects_of(s, e).len() >= 2,
        effects_of(s, e)[0] == Effect::NoteInput,
        effects_of(s, e)[1] == Effect::WakeCapture,
{
}

/// The clipboard is read only when C or X goes up, and the last event of a control key was a
/// press.
pub proof fn only_copying_reads_the_clipboard(s: InputStateView, e: InputEvent)
    ensures
        effects_of(s, e).contains(Effect::ReadClipboard) <==> s.ctrl_down && (e matches InputEvent::Key {
            c,
            d,
        } && !d && (c == KEY_C || c == KEY_X)),
{
    let es = effects_of(s, e);
    if s.ctrl_down {
        if let InputEvent::Key { c, d } = e {
            if !d && (c == KEY_C || c == KEY_X) {
                assert(es[3] == Effect::ReadClipboard);
            }
        }
    }
}

/// A layout that was set is not set again by the next event, and a name that is none changes
/// nothing.
pub proof fn layouts_are_set_once(s: InputStateView, layout: String)
    ensures
        ({
            let e = InputEvent::Layout { layout };
            &&& is_layout_name(layout@) ==> own_effects(next_state(s, e), e).len() == 0
            &&& !is_layout_name(layout@) ==> next_state(s, e) == s && !effects_of(s, e).contains(
                Effect::SetLayout,
            )
        }),
{
}

/// A display is only ever asked to take a size that is even, at least 640 by 480, and at most 7680
/// by 4320.
pub proof fn resizes_fit(s: InputStateView, e: InputEvent, w: u32, h: u32)
    requires
        effects_of(s, e).contains(Effect::Resize { w, h }),
    ensures
        w % 2 == 0,
        h % 2 == 0,
        640 <= w <= 7680,
        480 <= h <= 4320,
{
    if let InputEvent::Resize { w: a, h: b } = e {
        clamped_sizes_fit(a, b, s.max_width, s.max_height);
    }
}

/// Whatever the events, the limits to the size of the display stay.
pub proof fn limits_stay(s: InputStateView, e: InputEvent)
    ensures
        next_state(s, e).max_width == s.max_width,
        next_state(s, e).max_height == s.max_height,
{
}

/// A button goes the way that it goes: its event injects just that button in just that direction,
/// and a key's event just that key. No other event injects either.
pub proof fn buttons_and_keys_keep_their_direction(
    s: &mut InputState,
    e: &InputEvent,
    r: Vec<Effect>,
    b: u8,
    c: u16,
    d: bool,
)
    requires
        call_ensures(InputState::handle, (s, e), r),
    ensures
        r@.contains(Effect::InjectButton { b, d }) <==> *e == (InputEvent::Button { b, d }),
        r@.contains(Effect::InjectKey { c, d }) <==> *e == (InputEvent::Key { c, d }),
{
    let es = r@;
    match *e {
        InputEvent::Button { b: x, d: y } => {
            assert(es[3] == Effect::InjectButton { b: x, d: y });
        },
        InputEvent::Key { c: x, d: y } => {
            assert(es.last() == Effect::InjectKey { c: x, d: y });
        },
        _ => {},
    }
}

/// A move goes where it goes: every absolute one is injected, and a relative one or a turn of the
/// wheel just where it is in range. Nothing else moves the pointer or the wheel.
pub proof fn moves_are_injected(s: &mut InputState, e: &InputEvent, r: Vec<Effect>)
    requires
        call_ensures(InputState::handle, (s, e), r),
    ensures
        r@.contains(Effect::InjectMouseMove) <==> *e == InputEvent::MouseMove,
        r@.contains(Effect::InjectRelativeMove) <==> *e == (InputEvent::RelativeMouseMove {
            in_range: true,
        }),
        r@.contains(Effect::InjectScroll) <==> *e == (InputEvent::Scroll { in_range: true }),
{
    match *e {
        InputEvent::MouseMove => {
            assert(r@[3] == Effect::InjectMouseMove);
        },
        InputEvent::RelativeMouseMove { in_range } => {
            if in_range {
                assert(r@[3] == Effect::InjectRelativeMove);
            }
        },
        InputEvent::Scroll { in_range } => {
            if in_range {
                assert(r@[3] == Effect::InjectScroll);
            }
        },
        _ => {},
    }
}

/// A text goes into the selection that it is for where it has at most 1048576 bytes in UTF-8, and a
/// longer one into none.
pub proof fn texts_of_a_mebibyte_are_taken(s: &mut InputState, e: &InputEvent, r: Vec<Effect>)
    requires
        call_ensures(InputState::handle, (s, e), r),
    ensures
        r@.contains(Effect::SetClipboard) <==> (*e matches InputEvent::Clipboard { text }
            && vstd::utf8::encode_utf8(text@).len() <= 1_048_576),
        r@.contains(Effect::SetPrimary) <==> (*e matches InputEvent::ClipboardPrimary { text }
            && vstd::utf8::encode_utf8(text@).len() <= 1_048_576),
{
    match *e {
        InputEvent::Clipboard { text } => {
            if byte_len(text@) <= MAX_CLIPBOARD_BYTES {
                assert(r@[2] == Effect::SetClipboard);
            }
        },
        InputEvent::ClipboardPrimary { text } => {
            if byte_len(text@) <= MAX_CLIPBOARD_BYTES {
                assert(r@[2] == Effect::SetPrimary);
            }
        },
        _ => {},
    }
}

/// A window's size becomes the display's just as clamping says, within the limits that the state
/// was made with; a size that clamping refuses is reported.
pub proof fn windows_resize_the_display(
    s: &mut InputState,
    e: &InputEvent,
    r: Vec<Effect>,
    w: u32,
    h: u32,
    size: Option<(u32, u32)>,
    cw: u32,
    ch: u32,
)
    requires
        call_ensures(InputState::handle, (s, e), r),
        *e == (InputEvent::Resize { w, h }),
        call_ensures(
            clamp_resize_dimensions,
            (w, h, old(s)@.max_width, old(s)@.max_height),
            size,
        ),
    ensures
        r@.contains(Effect::Resize { w: cw, h: ch }) <==> size == Some((cw, ch)),
        r@.contains(Effect::Warn) <==> size is None,
{
    match size {
        Some((x, y)) => {
            assert(r@[2] == Effect::Resize { w: x, h: y });
        },
        None => {
            assert(r@[2] == Effect::Warn);
        },
    }
}

/// Whether a text is one to twenty letters, digits, hyphens and underscores of ASCII.
pub open spec fn has_layout_codes(s: Seq<char>) -> bool {
    1 <= s.len() <= 20 && forall|i: int|
        0 <= i < s.len() ==> {
            let n = (#[trigger] s[i]) as u32;
            (48 <= n <= 57) || (65 <= n <= 90) || (97 <= n <= 122) || n == 45 || n == 95
        }
}

/// A keyboard gets a layout just where its name is one to twenty letters, digits, hyphens and
/// underscores, and another one than the last that it got; then it is the last one. Any other
/// name is reported, and changes nothing.
pub proof fn layouts_are_checked(
    s: &mut InputState,
    e: &InputEvent,
    r: Vec<Effect>,
    layout: String,
)
    requires
        call_ensures(InputState::handle, (s, e), r),
        *e == (InputEvent::Layout { layout }),
    ensures
        r@.contains(Effect::SetLayout) <==> has_layout_codes(layout@) && layout@
            != old(s)@.last_layout,
        r@.contains(Effect::Warn) <==> !has_layout_codes(layout@),
        final(s)@.last_layout == if has_layout_codes(layout@) {
            layout@
        } else {
            old(s)@.last_layout
        },
{
    assert(is_layout_name(layout@) == has_layout_codes(layout@)) by {
        if is_layout_name(layout@) {
            assert forall|i: int| 0 <= i < layout@.len() implies {
                let n = (#[trigger] layout@[i]) as u32;
                (48 <= n <= 57) || (65 <= n <= 90) || (97 <= n <= 122) || n == 45 || n == 95
            } by {
                let c = layout@[i];
                assert(is_ascii_alnum(c) || c == '-' || c == '_');
            }
        }
        if has_layout_codes(layout@) {
            assert forall|i: int| 0 <= i < layout@.len() implies {
                let c = #[trigger] layout@[i];
                is_ascii_alnum(c) || c == '-' || c == '_'
            } by {
                lemma_layout_code(layout@[i]);
            }
        }
    }
    if r@.len() > 2 {
        assert(r@.contains(r@[2]));
    }
}

proof fn lemma_layout_code(c: char)
    requires
        ({
            let n = c as u32;
            (48 <= n <= 57) || (65 <= n <= 90) || (97 <= n <= 122) || n == 45 || n == 95
        }),
    ensures
        is_ascii_alnum(c) || c == '-' || c == '_',
{
}

/// A control key that is held is known by the last event of either, and C or X that goes up while
/// one is held has the clipboard read: keys 29 and 97, and 46 and 45.
pub proof fn copying_is_noticed(s: &mut InputState, e: &InputEvent, r: Vec<Effect>)
    requires
        call_ensures(InputState::handle, (s, e), r),
    ensures
        final(s)@.ctrl_down == (if *e matches InputEvent::Key { c, d } && (c == 29 || c == 97) {
            *e matches InputEvent::Key { c, d } && d
        } else {
            old(s)@.ctrl_down
        }),
        r@.contains(Effect::ReadClipboard) <==> old(s)@.ctrl_down && (*e matches InputEvent::Key {
            c,
            d,
        } && !d && (c == 45 || c == 46)),
{
    only_copying_reads_the_clipboard(old(s)@, *e);
}

/// The tab is in view from the user's hands on, and as its own events say. When it comes into view,
/// the encoder is made anew, no frame is sent before a key frame, and the capture is woken.
pub proof fn tabs_come_and_go(s: &mut InputState, e: &InputEvent, r: Vec<Effect>)
    requires
        call_ensures(InputState::handle, (s, e), r),
    ensures
        r@.contains(Effect::SetBackgrounded(true)) <==> *e == (InputEvent::VisibilityState {
            visible: false,
        }),
        r@.contains(Effect::SetBackgrounded(false)) <==> *e == (InputEvent::VisibilityState {
            visible: true,
        }) || *e is Key || *e is MouseMove || *e is RelativeMouseMove || *e is Button || *e is Scroll,
        r@.contains(Effect::ResetEncoder) <==> *e == (InputEvent::VisibilityState { visible: true }),
        r@.contains(Effect::AwaitKeyframe) <==> *e == (InputEvent::VisibilityState {
            visible: true,
        }),
        *e == (InputEvent::VisibilityState { visible: true }) ==> r@.last() == Effect::WakeCapture,
        r@[0] == Effect::NoteInput && r@[1] == Effect::WakeCapture,
{
    if is_interactive(*e) {
        assert(r@[2] == Effect::SetBackgrounded(false));
    }
    if let InputEvent::VisibilityState { visible } = *e {
        assert(r@[2] == Effect::SetBackgrounded(!visible));
        if visible {
            assert(r@[3] == Effect::AwaitKeyframe);
            assert(r@[4] == Effect::ResetEncoder);
        }
    }
}

/// Files go to the file transfer, and requests for files to the sender; nothing else does.
pub proof fn files_are_routed(s: &mut InputState, e: &InputEvent, r: Vec<Effect>)
    requires
        call_ensures(InputState::handle, (s, e), r),
    ensures
        r@.contains(Effect::FileTransfer) <==> *e is FileStart || *e is FileChunk || *e is FileDone,
        r@.contains(Effect::SendFile) <==> *e is FileDownloadRequest,
        *e is Quality ==> r@.len() == 2,
{
    if *e is FileStart || *e is FileChunk || *e is FileDone {
        assert(r@[2] == Effect::FileTransfer);
    }
    if *e is FileDownloadRequest {
        assert(r@[2] == Effect::SendFile);
    }
}

/// Each effect comes once, in its place: input is noted, the capture is woken, the tab comes into
/// view, and then the event's own follow, of which a copy is read before its key goes on. Only texts,
/// sizes and layouts are ever reported, and nothing but a window's size resizes the display.
pub proof fn effects_come_once(
    s: &mut InputState,
    e: &InputEvent,
    r: Vec<Effect>,
    w: u32,
    h: u32,
    max_width: u32,
    max_height: u32,
    fresh: InputState,
)
    requires
        call_ensures(InputState::handle, (s, e), r),
        call_ensures(InputState::new, (max_width, max_height), fresh),
    ensures
        !fresh@.ctrl_down && fresh@.last_layout.len() == 0,
        fresh@.max_width == max_width && fresh@.max_height == max_height,
        final(s)@.max_width == old(s)@.max_width && final(s)@.max_height == old(s)@.max_height,
        !(*e is Layout) ==> final(s)@.last_layout == old(s)@.last_layout,
        !(*e is Key) ==> final(s)@.ctrl_down == old(s)@.ctrl_down,
        *e matches InputEvent::Key { c, d } ==> {
            let copies = old(s)@.ctrl_down && !d && (c == 45 || c == 46);
            &&& r@.len() == (if copies { 5int } else { 4 })
            &&& copies ==> r@[3] == Effect::ReadClipboard
            &&& r@[2] == Effect::SetBackgrounded(false)
        },
        *e is MouseMove || *e is Button ==> r@.len() == 4 && r@[2] == Effect::SetBackgrounded(false),
        *e matches InputEvent::RelativeMouseMove { in_range } ==> r@.len() == (if in_range {
            4int
        } else {
            3
        }),
        *e matches InputEvent::Scroll { in_range } ==> r@.len() == (if in_range { 4int } else { 3 }),
        *e is Clipboard || *e is ClipboardPrimary || *e is Resize ==> r@.len() == 3,
        *e matches InputEvent::Layout { layout } ==> r@.len() <= 3 && (layout@ != old(s)@.last_layout
            ==> r@.len() == 3),
        *e matches InputEvent::VisibilityState { visible } ==> r@.len() == (if visible {
            6int
        } else {
            3
        }),
        *e is FileStart || *e is FileChunk || *e is FileDone || *e is FileDownloadRequest ==> r@.len()
            == 3,
        r@.contains(Effect::Warn) ==> *e is Clipboard || *e is ClipboardPrimary || *e is Resize
            || *e is Layout,
        *e matches InputEvent::Clipboard { text } ==> (r@.contains(Effect::Warn)
            <==> vstd::utf8::encode_utf8(text@).len() > 1_048_576),
        *e matches InputEvent::ClipboardPrimary { text } ==> (r@.contains(Effect::Warn)
            <==> vstd::utf8::encode_utf8(text@).len() > 1_048_576),
        r@.contains(Effect::Resize { w, h }) ==> *e is Resize,
{
    if r@.len() > 2 {
        assert(r@.contains(r@[2]));
    }
}

} // verus!
