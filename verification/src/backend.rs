//! Which display backend a session runs on.
use crate::text::{
    begins, decimal, decimal_reads_back, is_digit, lines, lines_of, only, padding_is_trimmed_away,
    parse_u32, pieces, pieces_go_on, split, strip_prefix, text_eq, trim_matches, trimmed_of,
    unsigned, views,
};
use vstd::prelude::*;
use vstd::string::*;

verus! {

/// What the last line that begins with `prefix` gives behind it, without quotes around it;
/// nothing where no line begins so.
pub open spec fn last_field(lines: Seq<Seq<char>>, prefix: Seq<char>) -> Seq<char>
    decreases lines.len(),
{
    if lines.len() == 0 {
        Seq::empty()
    } else if begins(lines.last(), prefix) {
        trimmed_of(lines.last().skip(prefix.len() as int), '"')
    } else {
        last_field(lines.drop_last(), prefix)
    }
}

/// The number in the `k`-th of the pieces of a version between its dots.
pub open spec fn version_part(version: Seq<char>, k: int) -> Option<nat> {
    let parts = pieces(version, '.');
    if k < parts.len() {
        unsigned(parts[k], 0xffff_ffff)
    } else {
        None
    }
}

/// Whether a version is at least 26.04, by its first two numbers.
pub open spec fn from_26_04(version: Seq<char>) -> bool {
    match (version_part(version, 0), version_part(version, 1)) {
        (Some(major), Some(minor)) => major > 26 || (major == 26 && minor >= 4),
        _ => false,
    }
}

/// Whether a variant of a distribution is a desktop that starts its sessions on Wayland: the
/// editions of Fedora with GNOME, KDE or Sway.
pub open spec fn wayland_variant(v: Seq<char>) -> bool {
    ||| v == "workstation"@
    ||| v == "silverblue"@
    ||| v == "kde"@
    ||| v == "kinoite"@
    ||| v == "sway"@
    ||| v == "sericea"@
}

/// Whether a distribution is one that those built on it have their Wayland sessions from.
pub open spec fn wayland_family(w: Seq<char>) -> bool {
    w == "fedora"@
}

/// Whether one of the words of a field of families names a family with Wayland sessions.
pub open spec fn has_wayland_family(families: Seq<Seq<char>>) -> bool {
    exists|k: int| 0 <= k < families.len() && wayland_family(#[trigger] families[k])
}

/// Whether an `os-release` text names a system that starts its sessions on Wayland: Ubuntu from
/// version 26.04, and any system whose variant, or one of the families that it is like, does so.
pub open spec fn wayland_default(os_release: Seq<char>) -> bool {
    let lines = lines_of(os_release);
    ||| last_field(lines, "ID="@) == "ubuntu"@ && from_26_04(last_field(lines, "VERSION_ID="@))
    ||| wayland_variant(last_field(lines, "VARIANT_ID="@))
    ||| has_wayland_family(pieces(last_field(lines, "ID_LIKE="@), ' '))
}

/// The backend that the setting `value` stands for on the system that `os_release` describes.
pub open spec fn resolved(value: Seq<char>, os_release: Seq<char>) -> Seq<char> {
    if value != "auto"@ {
        value
    } else if wayland_default(os_release) {
        "wayland"@
    } else {
        "xorg"@
    }
}

fn field<'a>(lines: &Vec<&'a str>, prefix: &str) -> (r: &'a str)
    ensures
        r@ == last_field(views(lines@), prefix@),
{
    let mut n: usize = lines.len();
    assert(views(lines@).take(n as int) =~= views(lines@));
    while n > 0
        invariant
            n <= lines@.len(),
            last_field(views(lines@).take(n as int), prefix@) == last_field(views(lines@), prefix@),
        decreases n,
    {
        let line: &'a str = lines[n - 1];
        let ghost seen = views(lines@).take(n as int);
        assert(seen.last() == line@);
        assert(seen.drop_last() =~= views(lines@).take(n - 1));
        match strip_prefix(line, prefix) {
            Some(v) => {
                return trim_matches(v, '"');
            },
            None => {},
        }
        n = n - 1;
    }
    let none: &'static str = "";
    proof {
        reveal_strlit("");
        assert(none@ =~= Seq::<char>::empty());
    }
    none
}

fn part(pieces_of_version: &Vec<&str>, k: usize) -> (r: Option<u32>)
    ensures
        match r {
            Some(n) => k < pieces_of_version@.len() && unsigned(
                views(pieces_of_version@)[k as int],
                0xffff_ffff,
            ) == Some(n as nat),
            None => k >= pieces_of_version@.len() || unsigned(
                views(pieces_of_version@)[k as int],
                0xffff_ffff,
            ) is None,
        },
{
    if k < pieces_of_version.len() {
        parse_u32(pieces_of_version[k])
    } else {
        None
    }
}

fn is_from_26_04(version: &str) -> (r: bool)
    ensures
        r == from_26_04(version@),
{
    let parts = split(version, '.');
    match (part(&parts, 0), part(&parts, 1)) {
        (Some(m), Some(n)) => m > 26 || (m == 26 && n >= 4),
        _ => false,
    }
}

fn is_wayland_variant(v: &str) -> (r: bool)
    ensures
        r == wayland_variant(v@),
{
    text_eq(v, "workstation") || text_eq(v, "silverblue") || text_eq(v, "kde") || text_eq(
        v,
        "kinoite",
    ) || text_eq(v, "sway") || text_eq(v, "sericea")
}

fn names_wayland_family(like: &str) -> (r: bool)
    ensures
        r == has_wayland_family(pieces(like@, ' ')),
{
    let families = split(like, ' ');
    let ghost seen = views(families@);
    for i in 0..families.len()
        invariant
            seen == views(families@),
            seen == pieces(like@, ' '),
            forall|k: int| 0 <= k < i ==> !wayland_family(#[trigger] seen[k]),
    {
        let family: &str = families[i];
        assert(seen[i as int] == family@);
        if text_eq(family, "fedora") {
            return true;
        }
    }
    false
}

/// The backend that the setting `value` stands for on the system that `os_release` describes:
/// `auto` becomes `wayland` or `xorg`, and any other value stays as it is.
pub fn resolve_backend(value: &str, os_release: &str) -> (r: String)
    ensures
        r@ == resolved(value@, os_release@),
{
    if !text_eq(value, "auto") {
        return value.to_owned();
    }
    let all = lines(os_release);
    if (text_eq(field(&all, "ID="), "ubuntu") && is_from_26_04(field(&all, "VERSION_ID=")))
        || is_wayland_variant(field(&all, "VARIANT_ID=")) || names_wayland_family(
        field(&all, "ID_LIKE="),
    ) {
        "wayland".to_owned()
    } else {
        "xorg".to_owned()
    }
}

/// On a system that starts its sessions on Wayland, whichever of its fields says so, `auto` is
/// `wayland`.
pub proof fn wayland_systems_are_found(os_release: Seq<char>, k: int)
    ensures
        ({
            let lines = lines_of(os_release);
            let families = pieces(last_field(lines, "ID_LIKE="@), ' ');
            &&& last_field(lines, "ID="@) == "ubuntu"@ && from_26_04(
                last_field(lines, "VERSION_ID="@),
            ) ==> resolved("auto"@, os_release) == "wayland"@
            &&& wayland_variant(last_field(lines, "VARIANT_ID="@)) ==> resolved(
                "auto"@,
                os_release,
            ) == "wayland"@
            &&& 0 <= k < families.len() && wayland_family(families[k]) ==> resolved(
                "auto"@,
                os_release,
            ) == "wayland"@
        }),
{
}

/// A setting of `auto` always comes out as one of the two backends, and no other setting is
/// changed.
pub proof fn auto_is_resolved(value: Seq<char>, os_release: Seq<char>)
    ensures
        value == "auto"@ ==> resolved(value, os_release) == "xorg"@ || resolved(value, os_release)
            == "wayland"@,
        value != "auto"@ ==> resolved(value, os_release) == value,
{
}

/// Resolving once is enough: what was resolved, on whatever system, resolves to itself.
pub proof fn resolving_is_final(value: Seq<char>, first: Seq<char>, second: Seq<char>)
    ensures
        resolved(resolved(value, first), second) == resolved(value, first),
{
    reveal_strlit("auto");
    reveal_strlit("xorg");
    reveal_strlit("wayland");
    assert("xorg"@[0] == 'x');
    assert("wayland"@[0] == 'w');
    assert("auto"@[0] == 'a');
}

/// What an agent does with the backend that it was given.
#[derive(Clone, Copy, PartialEq, Eq, Structural)]
pub enum Dispatch {
    /// Run on Xorg.
    Xorg,
    /// Run on the headless Wayland compositor.
    Wayland,
    /// Refuse: the value names no backend.
    Unknown,
}

/// What the value of the backend option leads to.
pub open spec fn dispatched(backend: Seq<char>) -> Dispatch {
    if backend == "xorg"@ {
        Dispatch::Xorg
    } else if backend == "wayland"@ {
        Dispatch::Wayland
    } else {
        Dispatch::Unknown
    }
}

/// What the value of the backend option leads to.
pub fn dispatch(backend: &str) -> (r: Dispatch)
    ensures
        r == dispatched(backend@),
{
    if text_eq(backend, "xorg") {
        Dispatch::Xorg
    } else if text_eq(backend, "wayland") {
        Dispatch::Wayland
    } else {
        Dispatch::Unknown
    }
}

/// The error for a backend that is not known.
pub fn unknown_backend(backend: &str) -> (r: String)
    ensures
        r@ == "Unknown backend '"@ + backend@ + "'. Expected one of: xorg, wayland, auto."@,
{
    "Unknown backend '".to_owned().concat(backend).concat(
        "'. Expected one of: xorg, wayland, auto.",
    )
}

/// Ubuntu has Wayland from version 26.04 on, by its first two numbers, whatever follows them.
pub proof fn versions_are_compared_by_two_numbers(a: u32, b: u32, rest: Seq<char>)
    requires
        !rest.contains('.'),
    ensures
        ({
            let v = decimal(a as nat) + seq!['.'] + decimal(b as nat);
            let longer = v + seq!['.'] + rest;
            let newer = a > 26 || (a == 26 && b >= 4);
            &&& from_26_04(v) == newer
            &&& from_26_04(longer) == newer
            &&& !from_26_04(decimal(a as nat))
        }),
{
    let x = decimal(a as nat);
    let y = decimal(b as nat);
    decimal_reads_back(a as nat);
    decimal_reads_back(b as nat);
    assert(!x.contains('.')) by {
        if x.contains('.') {
            let k = choose|k: int| 0 <= k < x.len() && x[k] == '.';
            assert(is_digit(x[k]));
        }
    }
    assert(!y.contains('.')) by {
        if y.contains('.') {
            let k = choose|k: int| 0 <= k < y.len() && y[k] == '.';
            assert(is_digit(y[k]));
        }
    }
    pieces_go_on(x, '.', y);
    pieces_go_on(y, '.', x);
    assert(pieces(x, '.') == seq![x]);
    let v = x + seq!['.'] + y;
    pieces_go_on(v, '.', rest);
    assert(pieces(v, '.')[0] == x && pieces(v, '.')[1] == y);
    assert(pieces(v + seq!['.'] + rest, '.')[0] == x && pieces(v + seq!['.'] + rest, '.')[1] == y);
}

/// A field of `os-release` is what its last line gives, without the quotes around it.
pub proof fn last_lines_count(lines: Seq<Seq<char>>, name: Seq<char>, value: Seq<char>, other: Seq<char>)
    requires
        !begins(other, name),
    ensures
        last_field(lines.push(other), name) == last_field(lines, name),
        value.len() > 0 && value[0] != '"' && value.last() != '"' ==> last_field(
            lines.push(name + value),
            name,
        ) == value && last_field(lines.push(name + (seq!['"'] + value + seq!['"'])), name) == value,
        last_field(Seq::empty(), name) == Seq::<char>::empty(),
{
    assert(lines.push(other).drop_last() =~= lines);
    if value.len() > 0 && value[0] != '"' && value.last() != '"' {
        let quoted = seq!['"'] + value + seq!['"'];
        assert((name + value).subrange(0, name.len() as int) =~= name);
        assert((name + value).skip(name.len() as int) =~= value);
        assert((name + quoted).subrange(0, name.len() as int) =~= name);
        assert((name + quoted).skip(name.len() as int) =~= quoted);
        lemma_unquoted(value);
    }
}

proof fn lemma_unquoted(value: Seq<char>)
    requires
        value.len() > 0,
        value[0] != '"',
        value.last() != '"',
    ensures
        trimmed_of(value, '"') == value,
        trimmed_of(seq!['"'] + value + seq!['"'], '"') == value,
{
    let none = Seq::<char>::empty();
    let quote = seq!['"'];
    assert(none + value + none =~= value);
    padding_is_trimmed_away(none, value, none, only('"'));
    padding_is_trimmed_away(quote, value, quote, only('"'));
}

/// Where the backend is left open it is `wayland` on Ubuntu from 26.04 on, on the desktop variants
/// of Fedora and on what is like Fedora, and `xorg` everywhere else; any other setting is kept.
pub proof fn backends_follow_the_system(value: &str, os_release: &str, r: String)
    requires
        call_ensures(resolve_backend, (value, os_release), r),
    ensures
        value@ != "auto"@ ==> r@ == value@,
        value@ == "auto"@ ==> ({
            let lines = lines_of(os_release@);
            let variant = last_field(lines, "VARIANT_ID="@);
            let like = pieces(last_field(lines, "ID_LIKE="@), ' ');
            let wayland = {
                ||| last_field(lines, "ID="@) == "ubuntu"@ && from_26_04(
                    last_field(lines, "VERSION_ID="@),
                )
                ||| variant == "workstation"@ || variant == "silverblue"@ || variant == "kde"@
                    || variant == "kinoite"@ || variant == "sway"@ || variant == "sericea"@
                ||| like.contains("fedora"@)
            };
            &&& wayland ==> r@ == "wayland"@
            &&& !wayland ==> r@ == "xorg"@
        }),
{
    let like = pieces(last_field(lines_of(os_release@), "ID_LIKE="@), ' ');
    if like.contains("fedora"@) {
        let k = choose|k: int| 0 <= k < like.len() && like[k] == "fedora"@;
        assert(wayland_family(like[k]));
    }
}

/// An agent runs on what it is told to: exactly the two backends that there are are known.
pub proof fn backends_are_told_apart(backend: &str, r: Dispatch)
    requires
        call_ensures(dispatch, (backend,), r),
    ensures
        backend@ == "xorg"@ ==> r == Dispatch::Xorg,
        backend@ == "wayland"@ ==> r == Dispatch::Wayland,
        r == Dispatch::Xorg ==> backend@ == "xorg"@,
        r == Dispatch::Wayland ==> backend@ == "wayland"@,
{
    reveal_strlit("xorg");
    reveal_strlit("wayland");
    assert("xorg"@.len() != "wayland"@.len());
}

/// A version is from 26.04 on by what its first two parts are read as; one with a part that is no
/// number, or without a second part, is not.
pub proof fn versions_are_compared_by_their_parts(
    x: &str,
    y: &str,
    rx: Option<u32>,
    ry: Option<u32>,
    rest: Seq<char>,
)
    requires
        !x@.contains('.'),
        !y@.contains('.'),
        !rest.contains('.'),
        call_ensures(parse_u32, (x,), rx),
        call_ensures(parse_u32, (y,), ry),
    ensures
        ({
            let v = x@ + seq!['.'] + y@;
            let newer = rx is Some && ry is Some && (rx->0 > 26 || (rx->0 == 26 && ry->0 >= 4));
            &&& from_26_04(v) == newer
            &&& from_26_04(v + seq!['.'] + rest) == newer
            &&& !from_26_04(x@)
        }),
{
    pieces_go_on(x@, '.', y@);
    pieces_go_on(y@, '.', x@);
    let v = x@ + seq!['.'] + y@;
    pieces_go_on(v, '.', rest);
    assert(pieces(v, '.')[0] == x@ && pieces(v, '.')[1] == y@);
    let longer = pieces(v + seq!['.'] + rest, '.');
    assert(longer[0] == x@ && longer[1] == y@);
}

/// A backend that is not known is told by its name, with those that are, and is none of them.
pub proof fn unknown_backends_are_told(backend: &str, r: Dispatch, e: String)
    requires
        call_ensures(dispatch, (backend,), r),
        call_ensures(unknown_backend, (backend,), e),
    ensures
        r == Dispatch::Unknown <==> backend@ != "xorg"@ && backend@ != "wayland"@,
        e@ == "Unknown backend '"@ + backend@ + "'. Expected one of: xorg, wayland, auto."@,
{
}

} // verus!
