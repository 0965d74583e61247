//! The clipboard of a display, reached through `xclip`.
use crate::command::{CommandLine, CommandView};
use crate::text::{chars_of, from_utf8, opt_text};
use vstd::prelude::*;
use vstd::string::*;

verus! {

/// The clipboard of an X display, or one that does nothing.
pub struct ClipboardBridge {
    /// The display; none where there is no clipboard to be reached.
    x_display: Option<String>,
}

impl View for ClipboardBridge {
    type V = Option<Seq<char>>;

    closed spec fn view(&self) -> Option<Seq<char>> {
        opt_text(self.x_display)
    }
}

/// Whether a character may stand in the clipboard: all but the controls, of which tab, line feed
/// and carriage return may.
pub open spec fn is_allowed(c: char) -> bool {
    c == '\t' || c == '\n' || c == '\r' || (c >= ' ' && c != '\x7f')
}

/// `s` without the characters that may not stand in the clipboard.
pub open spec fn sanitized(s: Seq<char>) -> Seq<char> {
    s.filter(|c: char| is_allowed(c))
}

/// A text to be handed to `xclip`, which makes it the content of a selection.
pub struct SelectionWrite {
    pub command: CommandLine,
    /// What `xclip` is to read from its input.
    pub input: String,
}

/// The command that makes the input of `xclip` the content of a selection.
pub open spec fn write_command(x_display: Seq<char>, selection: Seq<char>) -> CommandView {
    CommandView {
        program: "xclip"@,
        args: seq!["-selection"@, selection],
        env: seq![("DISPLAY"@, x_display)],
        removed_env: seq![],
    }
}

/// Whether `r` is the write of a text to a selection of the clipboard: nothing where there is no
/// clipboard, and else the text without controls.
pub open spec fn writes_selection(
    r: Option<SelectionWrite>,
    display: Option<Seq<char>>,
    selection: Seq<char>,
    text: Seq<char>,
) -> bool {
    match display {
        Some(d) => r matches Some(w) && w.command@ == write_command(d, selection) && w.input@
            == sanitized(text),
        None => r is None,
    }
}

impl ClipboardBridge {
    /// A clipboard that does nothing: whatever is written to it is accepted and dropped, and it
    /// never has a text.
    pub fn noop() -> (r: Self)
        ensures
            r@ is None,
    {
        ClipboardBridge { x_display: None }
    }

    /// The clipboard of a display. `xclip_found` says whether `xclip` is installed.
    pub fn new(x_display: &str, xclip_found: bool) -> (r: Result<Self, String>)
        ensures
            match r {
                Ok(c) => xclip_found && c@ == Some(x_display@),
                Err(e) => !xclip_found && e@ == "xclip not found; install it for clipboard support"@,
            },
    {
        if xclip_found {
            Ok(ClipboardBridge { x_display: Some(x_display.to_owned()) })
        } else {
            Err("xclip not found; install it for clipboard support".to_owned())
        }
    }

    /// `text` without the controls that a terminal would act on.
    pub fn sanitize(text: &str) -> (r: String)
        ensures
            r@ == sanitized(text@),
    {
        let v = chars_of(text);
        let mut out = String::new();
        assert(v@.take(0).filter(|c: char| is_allowed(c)) =~= Seq::<char>::empty()) by {
            reveal(Seq::filter);
        }
        for i in 0..v.len()
            invariant
                v@ == text@,
                out@ == sanitized(v@.take(i as int)),
        {
            let c = v[i];
            assert(v@.take(i + 1).drop_last() =~= v@.take(i as int));
            proof {
                reveal(Seq::filter);
            }
            if c == '\t' || c == '\n' || c == '\r' || (c >= ' ' && c != '\x7f') {
                out.push(c);
            }
        }
        assert(v@.take(v@.len() as int) =~= v@);
        out
    }

    fn set_selection(&self, selection: &str, text: &str) -> (r: Option<SelectionWrite>)
        ensures
            writes_selection(r, self@, selection@, text@),
    {
        match &self.x_display {
            Some(display) => {
                let command = CommandLine::new("xclip").arg("-selection").arg(selection).env(
                    "DISPLAY",
                    display.as_str(),
                );
                assert(command@ =~= write_command(display@, selection@));
                Some(SelectionWrite { command, input: Self::sanitize(text) })
            },
            None => None,
        }
    }

    /// The write of `text` to the clipboard; none where there is nothing to be done.
    pub fn set_text(&self, text: &str) -> (r: Option<SelectionWrite>)
        ensures
            writes_selection(r, self@, "clipboard"@, text@),
    {
        self.set_selection("clipboard", text)
    }

    /// The write of `text` to the selection that the middle button pastes; none where there is
    /// nothing to be done.
    pub fn set_primary_text(&self, text: &str) -> (r: Option<SelectionWrite>)
        ensures
            writes_selection(r, self@, "primary"@, text@),
    {
        self.set_selection("primary", text)
    }

    /// The command that prints the clipboard; none where there is none, and the clipboard has no
    /// text.
    pub fn get_text(&self) -> (r: Option<CommandLine>)
        ensures
            match self@ {
                Some(d) => r matches Some(c) && c@ == (CommandView {
                    program: "xclip"@,
                    args: seq!["-selection"@, "clipboard"@, "-o"@],
                    env: seq![("DISPLAY"@, d)],
                    removed_env: seq![],
                }),
                None => r is None,
            },
    {
        match &self.x_display {
            Some(display) => Some(
                CommandLine::new("xclip").arg("-selection").arg("clipboard").arg("-o").env(
                    "DISPLAY",
                    display.as_str(),
                ),
            ),
            None => None,
        }
    }
}

/// What the exit of `xclip` says of a write.
pub fn write_outcome(success: bool, status: &str) -> (r: Result<(), String>)
    ensures
        match r {
            Ok(()) => success,
            Err(e) => !success && e@ == "xclip exited with status "@ + status@,
        },
{
    if success {
        Ok(())
    } else {
        Err("xclip exited with status ".to_owned().concat(status))
    }
}

/// The text of the clipboard by what `xclip` printed. That it fails is no error: there is no text
/// then.
pub fn read_outcome(success: bool, stdout: Vec<u8>) -> (r: Result<Option<String>, String>)
    ensures
        match r {
            Ok(Some(text)) => success && vstd::utf8::valid_utf8(stdout@) && text@
                == vstd::utf8::decode_utf8(stdout@),
            Ok(None) => !success,
            Err(e) => success && !vstd::utf8::valid_utf8(stdout@) && e@
                == "Clipboard content is not valid UTF-8"@,
        },
{
    if !success {
        return Ok(None);
    }
    match from_utf8(stdout) {
        Some(text) => Ok(Some(text)),
        None => Err("Clipboard content is not valid UTF-8".to_owned()),
    }
}

// ---------------------------------------------------------------------------
// Laws
// ---------------------------------------------------------------------------

/// A sanitized text holds no control but tab, line feed and carriage return.
pub proof fn sanitized_texts_are_clean(s: Seq<char>)
    ensures
        forall|i: int| 0 <= i < sanitized(s).len() ==> is_allowed(#[trigger] sanitized(s)[i]),
    decreases s.len(),
{
    reveal(Seq::filter);
    if s.len() > 0 {
        sanitized_texts_are_clean(s.drop_last());
    }
}

/// A text without such controls is left as it is.
pub proof fn clean_texts_are_kept(s: Seq<char>)
    requires
        forall|i: int| 0 <= i < s.len() ==> is_allowed(#[trigger] s[i]),
    ensures
        sanitized(s) == s,
    decreases s.len(),
{
    reveal(Seq::filter);
    if s.len() > 0 {
        assert forall|i: int| 0 <= i < s.drop_last().len() implies is_allowed(
            #[trigger] s.drop_last()[i],
        ) by {
            assert(is_allowed(s[i]));
        }
        clean_texts_are_kept(s.drop_last());
        assert(is_allowed(s[s.len() - 1]));
        assert(s =~= s.drop_last().push(s.last()));
    } else {
        assert(s =~= sanitized(s));
    }
}

/// Sanitizing twice is sanitizing once.
pub proof fn sanitizing_is_final(s: Seq<char>)
    ensures
        sanitized(sanitized(s)) == sanitized(s),
{
    sanitized_texts_are_clean(s);
    clean_texts_are_kept(sanitized(s));
}

/// Sanitizing two texts one by one and together comes to the same.
pub proof fn sanitizing_goes_piece_by_piece(a: Seq<char>, b: Seq<char>)
    ensures
        sanitized(a + b) == sanitized(a) + sanitized(b),
    decreases b.len(),
{
    reveal(Seq::filter);
    if b.len() == 0 {
        assert(a + b =~= a);
        assert(sanitized(a) + sanitized(b) =~= sanitized(a));
    } else {
        sanitizing_goes_piece_by_piece(a, b.drop_last());
        assert((a + b).drop_last() =~= a + b.drop_last());
        assert(sanitized(a) + sanitized(b) =~= if is_allowed(b.last()) {
            (sanitized(a) + sanitized(b.drop_last())).push(b.last())
        } else {
            sanitized(a) + sanitized(b.drop_last())
        });
    }
}

/// Every character from the space on but the delete character, and each of tab, line feed and
/// carriage return, is kept wherever it stands, and every other one is dropped wherever it stands.
pub proof fn characters_are_kept_by_their_codes(a: Seq<char>, c: char, b: Seq<char>)
    ensures
        ({
            let n = c as u32;
            let kept = n == 9 || n == 10 || n == 13 || (32 <= n <= 126) || (128 <= n <= 0x10ffff);
            sanitized(a + seq![c] + b) == if kept {
                sanitized(a) + seq![c] + sanitized(b)
            } else {
                sanitized(a) + sanitized(b)
            }
        }),
{
    sanitizing_goes_piece_by_piece(a + seq![c], b);
    sanitizing_goes_piece_by_piece(a, seq![c]);
    assert(seq![c].drop_last() =~= Seq::<char>::empty());
    reveal(Seq::filter);
    assert(sanitized(Seq::<char>::empty()) =~= Seq::<char>::empty());
    assert(sanitized(seq![c]) =~= if is_allowed(c) {
        seq![c]
    } else {
        Seq::<char>::empty()
    });
    assert(sanitized(a) + Seq::<char>::empty() =~= sanitized(a));
}

/// Whether the code of a character is that of no control, or of one that may stand in a text.
pub open spec fn has_text_code(c: char) -> bool {
    let n = c as u32;
    n == 9 || n == 10 || n == 13 || (n >= 32 && n != 127)
}

/// A text of characters with codes from 32 on but 127, and of those with the codes 9, 10 and 13, is
/// left as it is, and nothing else ever comes out.
pub proof fn codes_decide_what_is_left(s: Seq<char>)
    ensures
        (forall|i: int| 0 <= i < s.len() ==> has_text_code(#[trigger] s[i])) <==> sanitized(s) == s,
        forall|i: int| 0 <= i < sanitized(s).len() ==> has_text_code(#[trigger] sanitized(s)[i]),
        sanitized(s).len() <= s.len(),
    decreases s.len(),
{
    reveal(Seq::filter);
    if s.len() > 0 {
        let front = s.drop_last();
        codes_decide_what_is_left(front);
        assert(s =~= front.push(s.last()));
        lemma_allowed_by_code(s.last());
        if sanitized(s) == s {
            assert(is_allowed(s.last()));
            assert(sanitized(front) =~= front) by {
                assert(sanitized(s).drop_last() =~= sanitized(front));
            }
            assert forall|i: int| 0 <= i < s.len() implies has_text_code(#[trigger] s[i]) by {
                if i < front.len() {
                    assert(front[i] == s[i]);
                }
            }
        }
        if forall|i: int| 0 <= i < s.len() ==> has_text_code(#[trigger] s[i]) {
            assert forall|i: int| 0 <= i < front.len() implies has_text_code(#[trigger] front[i]) by {
                assert(has_text_code(s[i]));
            }
            assert(has_text_code(s[s.len() - 1]));
        }
    } else {
        assert(sanitized(s) =~= s);
    }
}

proof fn lemma_allowed_by_code(c: char)
    ensures
        is_allowed(c) == has_text_code(c),
{
}

/// What is written to the clipboard is the text as it is where each of its characters has a code
/// from 32 on but 127, or one of 9, 10 and 13. Whatever the text, only such characters are written,
/// in their order, and none is lost.
pub proof fn texts_are_left_as_they_are(text: &str, r: String)
    requires
        call_ensures(ClipboardBridge::sanitize, (text,), r),
    ensures
        (forall|i: int|
            0 <= i < text@.len() ==> {
                let n = (#[trigger] text@[i]) as u32;
                n == 9 || n == 10 || n == 13 || (n >= 32 && n != 127)
            }) ==> r@ == text@,
        forall|i: int|
            0 <= i < r@.len() ==> {
                let n = (#[trigger] r@[i]) as u32;
                n == 9 || n == 10 || n == 13 || (n >= 32 && n != 127)
            },
        r@ == text@.filter(|c: char| has_text_code(c)),
{
    codes_decide_what_is_left(text@);
    if forall|i: int|
        0 <= i < text@.len() ==> {
            let n = (#[trigger] text@[i]) as u32;
            n == 9 || n == 10 || n == 13 || (n >= 32 && n != 127)
        } {
        assert forall|i: int| 0 <= i < text@.len() implies has_text_code(#[trigger] text@[i]) by {}
    }
    assert forall|i: int| 0 <= i < r@.len() implies {
        let n = (#[trigger] r@[i]) as u32;
        n == 9 || n == 10 || n == 13 || (n >= 32 && n != 127)
    } by {
        assert(has_text_code(sanitized(text@)[i]));
    }
    assert((|c: char| is_allowed(c)) =~= (|c: char| has_text_code(c))) by {
        assert forall|c: char| is_allowed(c) == has_text_code(c) by {
            lemma_allowed_by_code(c);
        }
    }
}

/// A write goes to the selection that it is for, on the clipboard's display; a clipboard that does
/// nothing writes nothing.
pub proof fn writes_reach_their_selection(
    c: &ClipboardBridge,
    text: &str,
    set: Option<SelectionWrite>,
    primary: Option<SelectionWrite>,
    clean: String,
)
    requires
        call_ensures(ClipboardBridge::set_text, (c, text), set),
        call_ensures(ClipboardBridge::set_primary_text, (c, text), primary),
        call_ensures(ClipboardBridge::sanitize, (text,), clean),
    ensures
        set is Some <==> c@ is Some,
        primary is Some <==> c@ is Some,
        set matches Some(w) ==> w.input@ == clean@ && w.command@.program == "xclip"@
            && w.command@.args == seq!["-selection"@, "clipboard"@] && w.command@.env == seq![
            ("DISPLAY"@, c@->0),
        ],
        primary matches Some(w) ==> w.input@ == clean@ && w.command@.program == "xclip"@
            && w.command@.args == seq!["-selection"@, "primary"@] && w.command@.env == seq![
            ("DISPLAY"@, c@->0),
        ],
{
}

/// What `xclip` says is believed: a write has failed exactly where `xclip` has, and a read gives a
/// text exactly where `xclip` succeeded with one, and none where it failed.
pub proof fn xclip_is_believed(
    success: bool,
    status: &str,
    stdout: Vec<u8>,
    w: Result<(), String>,
    t: Result<Option<String>, String>,
)
    requires
        call_ensures(write_outcome, (success, status), w),
        call_ensures(read_outcome, (success, stdout), t),
    ensures
        w is Ok <==> success,
        !success ==> t == Ok::<Option<String>, String>(None),
        success && vstd::utf8::valid_utf8(stdout@) ==> (t matches Ok(Some(text))
            && vstd::utf8::encode_utf8(text@) == stdout@),
        success && !vstd::utf8::valid_utf8(stdout@) ==> t is Err,
{
    if success && vstd::utf8::valid_utf8(stdout@) {
        vstd::utf8::decode_utf8_encode_utf8(stdout@);
    }
}

/// A clipboard of a display is printed on that display, from the selection that is copied to; one
/// that does nothing has nothing to print.
pub proof fn clipboards_are_printed(c: &ClipboardBridge, r: Option<CommandLine>, none: ClipboardBridge)
    requires
        call_ensures(ClipboardBridge::get_text, (c,), r),
        call_ensures(ClipboardBridge::noop, (), none),
    ensures
        none@ is None,
        r is Some <==> c@ is Some,
        r matches Some(l) ==> {
            &&& l@.program == "xclip"@
            &&& l@.args == seq!["-selection"@, "clipboard"@, "-o"@]
            &&& l@.env == seq![("DISPLAY"@, c@->0)]
            &&& l@.removed_env.len() == 0
        },
{
}

/// A clipboard is one of its display where `xclip` is found, and is refused where it is not. What
/// `xclip` could not write, and what it printed that is no text, is told.
pub proof fn clipboards_need_xclip(
    x_display: &str,
    found: bool,
    r: Result<ClipboardBridge, String>,
    success: bool,
    status: &str,
    stdout: Vec<u8>,
    w: Result<(), String>,
    t: Result<Option<String>, String>,
)
    requires
        call_ensures(ClipboardBridge::new, (x_display, found), r),
        call_ensures(write_outcome, (success, status), w),
        call_ensures(read_outcome, (success, stdout), t),
    ensures
        found ==> (r matches Ok(c) && c@ == Some(x_display@)),
        !found ==> (r matches Err(e) && e@ == "xclip not found; install it for clipboard support"@),
        w matches Err(e) ==> e@ == "xclip exited with status "@ + status@,
        t matches Err(e) ==> e@ == "Clipboard content is not valid UTF-8"@,
{
}

} // verus!
