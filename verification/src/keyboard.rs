//! Virtual input devices on a Wayland compositor: which protocol objects are bound, how keys and
//! buttons are numbered, and where the keymap comes from.
use crate::command::{CommandLine, CommandView};
use crate::text::{decimal, decimal_u32, from_utf8, opt_text, text_eq, trim, trimmed};
use vstd::prelude::*;
use vstd::string::*;

verus! {

/// The left button.
pub const BTN_LEFT: u32 = 0x110;

/// The right button.
pub const BTN_RIGHT: u32 = 0x111;

/// The middle button.
pub const BTN_MIDDLE: u32 = 0x112;

/// How many pixels a unit of scrolling is.
pub const SCROLL_PX_PER_UNIT: u32 = 15;

/// The tag of a keymap that is XKB text.
pub const KEYMAP_FORMAT_XKB_V1: u32 = 1;

/// The button that a browser's button is: 0 for the left, 1 for the middle, 2 for the right.
pub fn map_button(button: u8) -> (r: Result<u32, String>)
    ensures
        match r {
            Ok(b) => (button == 0 && b == BTN_LEFT) || (button == 1 && b == BTN_MIDDLE) || (button
                == 2 && b == BTN_RIGHT),
            Err(e) => button > 2 && e@ == "unknown mouse button index: "@ + decimal(button as nat),
        },
{
    if button == 0 {
        Ok(BTN_LEFT)
    } else if button == 1 {
        Ok(BTN_MIDDLE)
    } else if button == 2 {
        Ok(BTN_RIGHT)
    } else {
        Err("unknown mouse button index: ".to_owned().concat(decimal_u32(button as u32).as_str()))
    }
}

/// The kernel's number of a key by the X server's, which is 8 more; 0 for those below.
pub fn x11_to_evdev(code: u32) -> (r: u32)
    ensures
        r == if code >= 8 {
            code - 8
        } else {
            0
        },
{
    if code >= 8 {
        code - 8
    } else {
        0
    }
}

/// The state of a key or a button in the protocols.
pub fn key_state(pressed: bool) -> (r: u32)
    ensures
        r == if pressed {
            1int
        } else {
            0int
        },
{
    if pressed {
        1
    } else {
        0
    }
}

/// A protocol object that is bound.
#[derive(Clone, Copy, PartialEq, Eq, Structural)]
pub enum Global {
    Seat,
    PointerManager,
    KeyboardManager,
}

/// The least of two versions.
pub open spec fn least(a: u32, b: u32) -> u32 {
    if a < b {
        a
    } else {
        b
    }
}

/// Which object an advertised interface is bound as, and in which version: the compositor's, and
/// at most the one that is known.
pub fn bind_global(interface: &str, version: u32) -> (r: Option<(Global, u32)>)
    ensures
        r == if interface@ == "wl_seat"@ {
            Some((Global::Seat, least(version, 7)))
        } else if interface@ == "zwlr_virtual_pointer_manager_v1"@ {
            Some((Global::PointerManager, least(version, 2)))
        } else if interface@ == "zwp_virtual_keyboard_manager_v1"@ {
            Some((Global::KeyboardManager, least(version, 1)))
        } else {
            None
        },
{
    if text_eq(interface, "wl_seat") {
        Some(
            (
                Global::Seat,
                if version < 7 {
                    version
                } else {
                    7
                },
            ),
        )
    } else if text_eq(interface, "zwlr_virtual_pointer_manager_v1") {
        Some(
            (
                Global::PointerManager,
                if version < 2 {
                    version
                } else {
                    2
                },
            ),
        )
    } else if text_eq(interface, "zwp_virtual_keyboard_manager_v1") {
        Some(
            (
                Global::KeyboardManager,
                if version < 1 {
                    version
                } else {
                    1
                },
            ),
        )
    } else {
        None
    }
}

/// Whether all objects were advertised that virtual input needs.
pub fn check_globals(seat: bool, pointer_manager: bool, keyboard_manager: bool) -> (r: Result<
    (),
    String,
>)
    ensures
        match r {
            Ok(()) => seat && pointer_manager && keyboard_manager,
            Err(e) => e@ == if !seat {
                "compositor did not advertise wl_seat"@
            } else if !pointer_manager {
                "compositor did not advertise zwlr_virtual_pointer_manager_v1; ensure wlroots compositor is running"@
            } else {
                "compositor did not advertise zwp_virtual_keyboard_manager_v1; ensure wlroots compositor is running"@
            } && !(seat && pointer_manager && keyboard_manager),
        },
{
    if !seat {
        Err("compositor did not advertise wl_seat".to_owned())
    } else if !pointer_manager {
        Err(
            "compositor did not advertise zwlr_virtual_pointer_manager_v1; ensure wlroots compositor is running".to_owned(),
        )
    } else if !keyboard_manager {
        Err(
            "compositor did not advertise zwp_virtual_keyboard_manager_v1; ensure wlroots compositor is running".to_owned(),
        )
    } else {
        Ok(())
    }
}

// ---------------------------------------------------------------------------
// The keymap
// ---------------------------------------------------------------------------

/// A part of a keymap that is taken from the system's rules.
pub open spec fn component(kind: Seq<char>, source: Seq<char>) -> Seq<char> {
    "    "@ + kind + "{ inclu"@ + "de \""@ + source + "\" };\n"@
}

/// The keymap of a US keyboard.
pub open spec fn us_keymap() -> Seq<char> {
    "xkb_keymap {\n"@ + component("xkb_keycodes  "@, "evdev+aliases(qwerty)"@) + component(
        "xkb_types     "@,
        "complete"@,
    ) + component("xkb_compat    "@, "complete"@) + component(
        "xkb_symbols   "@,
        "pc+us+inet(evdev)"@,
    ) + component("xkb_geometry  "@, "pc(pc105)"@) + "};"@
}

fn component_text(kind: &str, source: &str) -> (r: String)
    ensures
        r@ == component(kind@, source@),
{
    "    ".to_owned().concat(kind).concat("{ inclu").concat("de \"").concat(source).concat("\" };\n")
}

/// The keymap of a US keyboard, for want of a better one.
pub fn minimal_us_keymap() -> (r: String)
    ensures
        r@ == us_keymap(),
{
    "xkb_keymap {\n".to_owned().concat(
        component_text("xkb_keycodes  ", "evdev+aliases(qwerty)").as_str(),
    ).concat(component_text("xkb_types     ", "complete").as_str()).concat(
        component_text("xkb_compat    ", "complete").as_str(),
    ).concat(component_text("xkb_symbols   ", "pc+us+inet(evdev)").as_str()).concat(
        component_text("xkb_geometry  ", "pc(pc105)").as_str(),
    ).concat("};")
}

/// The keymap that a running X server printed through `xkbcomp`, where it is one: the command
/// succeeded, and printed a text that is not blank.
pub fn keymap_from_server(success: bool, stdout: Vec<u8>) -> (r: Option<String>)
    ensures
        ({
            let text = vstd::utf8::decode_utf8(stdout@);
            let usable = success && vstd::utf8::valid_utf8(stdout@) && trimmed(text).len() > 0;
            opt_text(r) == if usable {
                Some(text)
            } else {
                None
            }
        }),
{
    if !success {
        return None;
    }
    match from_utf8(stdout) {
        Some(text) => if trim(text.as_str()).is_empty() {
            None
        } else {
            Some(text)
        },
        None => None,
    }
}

/// The arguments with which `xkbcomp` prints the keymap of a running X server.
pub fn xkbcomp_command(display: &str) -> (r: CommandLine)
    ensures
        r@ == (CommandView {
            program: "xkbcomp"@,
            args: seq!["-xkb"@, display@, "-"@],
            env: seq![],
            removed_env: seq![],
        }),
{
    CommandLine::new("xkbcomp").arg("-xkb").arg(display).arg("-")
}

/// The arguments with which `xkbcli` compiles a keymap.
pub open spec fn compile_args(layout: Seq<char>, variant: Seq<char>, options: Seq<char>) -> Seq<
    Seq<char>,
> {
    let a = seq!["compile-keymap"@, "--layout"@, layout];
    let b = if variant.len() > 0 {
        a.push("--variant"@).push(variant)
    } else {
        a
    };
    if options.len() > 0 {
        b.push("--options"@).push(options)
    } else {
        b
    }
}

/// The command that compiles a keymap for the layout that the environment sets, `us` where it
/// sets none, with the variant and the options that are not empty.
pub fn xkbcli_command(layout: Option<&str>, variant: &str, options: &str) -> (r: CommandLine)
    ensures
        r@ == (CommandView {
            program: "xkbcli"@,
            args: compile_args(
                match layout {
                    Some(l) => l@,
                    None => "us"@,
                },
                variant@,
                options@,
            ),
            env: seq![],
            removed_env: seq![],
        }),
{
    let name: &str = match layout {
        Some(l) => l,
        None => "us",
    };
    let mut cmd = CommandLine::new("xkbcli").arg("compile-keymap").arg("--layout").arg(name);
    if !variant.is_empty() {
        cmd = cmd.arg("--variant").arg(variant);
    }
    if !options.is_empty() {
        cmd = cmd.arg("--options").arg(options);
    }
    assert(cmd@.args =~= compile_args(name@, variant@, options@));
    cmd
}

/// The keymap by what `xkbcli` printed, or that of a US keyboard where it did not run or failed.
pub fn keymap_from_compiler(success: bool, stdout: Vec<u8>) -> (r: Result<String, String>)
    ensures
        match r {
            Ok(text) => if success {
                vstd::utf8::valid_utf8(stdout@) && text@ == vstd::utf8::decode_utf8(stdout@)
            } else {
                text@ == us_keymap()
            },
            Err(e) => success && !vstd::utf8::valid_utf8(stdout@) && e@
                == "xkbcli output not UTF-8"@,
        },
{
    if !success {
        return Ok(minimal_us_keymap());
    }
    match from_utf8(stdout) {
        Some(text) => Ok(text),
        None => Err("xkbcli output not UTF-8".to_owned()),
    }
}

// ---------------------------------------------------------------------------
// Laws
// ---------------------------------------------------------------------------

/// Buttons 0, 1 and 2 are the left, the middle and the right one, by the kernel's numbers, and no
/// others are known; a key has 8 less than the X server's number; and a press is a 1.
pub proof fn buttons_and_keys_have_the_numbers_of_the_kernel(
    button: u8,
    b: Result<u32, String>,
    code: u32,
    k: u32,
    pressed: bool,
    s: u32,
)
    requires
        call_ensures(map_button, (button,), b),
        call_ensures(x11_to_evdev, (code,), k),
        call_ensures(key_state, (pressed,), s),
    ensures
        button == 0 ==> b == Ok::<u32, String>(0x110),
        button == 1 ==> b == Ok::<u32, String>(0x112),
        button == 2 ==> b == Ok::<u32, String>(0x111),
        button > 2 ==> b is Err,
        code >= 8 ==> k + 8 == code,
        code < 8 ==> k == 0,
        s == 1 <==> pressed,
        s == 0 <==> !pressed,
{
}

/// An object is bound in the compositor's version and at most in the one that is known: 7 of a seat,
/// 2 of the pointers, 1 of the keyboards. Nothing else is bound, and all three are needed.
pub proof fn objects_are_bound_in_known_versions(
    interface: &str,
    version: u32,
    r: Option<(Global, u32)>,
    seat: bool,
    pointer: bool,
    keyboard: bool,
    c: Result<(), String>,
)
    requires
        call_ensures(bind_global, (interface, version), r),
        call_ensures(check_globals, (seat, pointer, keyboard), c),
    ensures
        r matches Some((g, v)) ==> {
            &&& v <= version
            &&& g == Global::Seat ==> interface@ == "wl_seat"@ && v <= 7 && (v == version || v == 7)
            &&& g == Global::PointerManager ==> interface@ == "zwlr_virtual_pointer_manager_v1"@ && v
                <= 2 && (v == version || v == 2)
            &&& g == Global::KeyboardManager ==> interface@ == "zwp_virtual_keyboard_manager_v1"@ && v
                <= 1 && (v == version || v == 1)
        },
        r is None <==> interface@ != "wl_seat"@ && interface@ != "zwlr_virtual_pointer_manager_v1"@
            && interface@ != "zwp_virtual_keyboard_manager_v1"@,
        c is Ok <==> seat && pointer && keyboard,
{
}

/// A keymap is asked for by the layout that is set, or `us`, and by what else is set, each behind
/// its own flag; what is empty is left out.
pub proof fn keymaps_are_asked_for_by_name(
    layout: Option<&str>,
    variant: &str,
    options: &str,
    r: CommandLine,
)
    requires
        call_ensures(xkbcli_command, (layout, variant, options), r),
    ensures
        r@.args[0] == "compile-keymap"@ && r@.args[1] == "--layout"@,
        layout matches Some(l) ==> r@.args[2] == l@,
        layout is None ==> r@.args[2] == "us"@,
        r@.args.len() == 3 + (if variant@.len() > 0 { 2int } else { 0 }) + (if options@.len() > 0 {
            2int
        } else {
            0
        }),
        variant@.len() > 0 ==> r@.args[3] == "--variant"@ && r@.args[4] == variant@,
        options@.len() > 0 ==> r@.args[r@.args.len() - 2] == "--options"@ && r@.args.last() == options@,
{
}

/// A keymap that a program printed is taken as it is where the program succeeded and printed a text;
/// one of the X server must not be blank, and where the compiler fails there is always another.
pub proof fn printed_keymaps_are_taken(
    success: bool,
    stdout: Vec<u8>,
    s: Option<String>,
    c: Result<String, String>,
    us: String,
)
    requires
        call_ensures(keymap_from_server, (success, stdout), s),
        call_ensures(keymap_from_compiler, (success, stdout), c),
        call_ensures(minimal_us_keymap, (), us),
    ensures
        s matches Some(t) ==> success && vstd::utf8::encode_utf8(t@) == stdout@,
        s is None && success && vstd::utf8::valid_utf8(stdout@) ==> trimmed(
            vstd::utf8::decode_utf8(stdout@),
        ).len() == 0,
        !success ==> s is None && (c matches Ok(t) && t@ == us@),
        success && vstd::utf8::valid_utf8(stdout@) ==> (c matches Ok(t) && vstd::utf8::encode_utf8(t@)
            == stdout@),
        success && !vstd::utf8::valid_utf8(stdout@) ==> c is Err && s is None,
{
    if vstd::utf8::valid_utf8(stdout@) {
        vstd::utf8::decode_utf8_encode_utf8(stdout@);
    }
}

/// The keymap of a display is printed by the display's name, to the standard output.
pub proof fn keymaps_are_printed_by_display(display: &str, r: CommandLine)
    requires
        call_ensures(xkbcomp_command, (display,), r),
    ensures
        r@.program == "xkbcomp"@,
        r@.args == seq!["-xkb"@, display@, "-"@],
        r@.env.len() == 0 && r@.removed_env.len() == 0,
{
}

/// What is missing is told by its name, the seat before the pointers and these before the keyboards,
/// and so is a button that is not known. A keymap of the X server has something in it, and the one
/// without any program is that of an American keyboard.
pub proof fn what_is_missing_is_told(
    button: u8,
    b: Result<u32, String>,
    seat: bool,
    pointer: bool,
    keyboard: bool,
    c: Result<(), String>,
    success: bool,
    stdout: Vec<u8>,
    s: Option<String>,
    text: &str,
    rest: &str,
    us: String,
    layout: Option<&str>,
    variant: &str,
    options: &str,
    cmd: CommandLine,
)
    requires
        call_ensures(map_button, (button,), b),
        call_ensures(check_globals, (seat, pointer, keyboard), c),
        call_ensures(keymap_from_server, (success, stdout), s),
        text@ == vstd::utf8::decode_utf8(stdout@),
        call_ensures(trim, (text,), rest),
        call_ensures(minimal_us_keymap, (), us),
        call_ensures(xkbcli_command, (layout, variant, options), cmd),
    ensures
        b matches Err(e) ==> e@ == "unknown mouse button index: "@ + decimal(button as nat),
        !seat ==> (c matches Err(e) && e@ == "compositor did not advertise wl_seat"@),
        seat && !pointer ==> (c matches Err(e) && e@
            == "compositor did not advertise zwlr_virtual_pointer_manager_v1; ensure wlroots compositor is running"@),
        seat && pointer && !keyboard ==> (c matches Err(e) && e@
            == "compositor did not advertise zwp_virtual_keyboard_manager_v1; ensure wlroots compositor is running"@),
        s is Some <==> success && vstd::utf8::valid_utf8(stdout@) && rest@.len() > 0,
        us@ == "xkb_keymap {\n"@ + ("    "@ + "xkb_keycodes  "@ + "{ inclu"@ + "de \""@
            + "evdev+aliases(qwerty)"@ + "\" };\n"@) + ("    "@ + "xkb_types     "@ + "{ inclu"@
            + "de \""@ + "complete"@ + "\" };\n"@) + ("    "@ + "xkb_compat    "@ + "{ inclu"@
            + "de \""@ + "complete"@ + "\" };\n"@) + ("    "@ + "xkb_symbols   "@ + "{ inclu"@
            + "de \""@ + "pc+us+inet(evdev)"@ + "\" };\n"@) + ("    "@ + "xkb_geometry  "@
            + "{ inclu"@ + "de \""@ + "pc(pc105)"@ + "\" };\n"@) + "};"@,
        cmd@.program == "xkbcli"@ && cmd@.env.len() == 0 && cmd@.removed_env.len() == 0,
{
}

} // verus!
