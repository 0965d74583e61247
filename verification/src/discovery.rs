//! What a session finds on the machine: programs that can run in it, and its message bus.
use crate::text::{
    after_prefix, begins, contains, decimal, decimal_u32, from_utf8, from_utf8_lossy, holds, lines,
    lines_of, lossy_text, matches_at, opt_text, opt_view, starts_with, strip_prefix, text_eq, texts,
    trim, trimmed, views,
};
use vstd::prelude::*;
use vstd::string::*;

verus! {

// ---------------------------------------------------------------------------
// Programs
// ---------------------------------------------------------------------------

/// The path that `which` printed, where it is UTF-8.
pub fn program_path(stdout: Vec<u8>) -> (r: Option<String>)
    ensures
        opt_text(r) == if vstd::utf8::valid_utf8(stdout@) {
            Some(trimmed(vstd::utf8::decode_utf8(stdout@)))
        } else {
            None
        },
{
    match from_utf8(stdout) {
        Some(text) => Some(trim(text.as_str()).to_owned()),
        None => None,
    }
}

/// Whether a program is a snap, which cannot run in a session: it lies below `/snap`, or is a
/// script that hands over to one.
pub open spec fn is_snap(path: Option<Seq<char>>, contents: Option<Seq<char>>) -> bool {
    match path {
        Some(p) => begins(p, "/snap/"@) || match contents {
            Some(c) => holds(c, "/snap/bin/"@) || holds(c, "exec snap"@),
            None => false,
        },
        None => false,
    }
}

/// Whether a program is a snap. `path` is where it lies, and `contents` what is in that file,
/// where it is text.
pub fn is_snap_binary(path: Option<&str>, contents: Option<&str>) -> (r: bool)
    ensures
        r == is_snap(opt_view(path), opt_view(contents)),
{
    match path {
        Some(p) => starts_with(p, "/snap/") || match contents {
            Some(c) => contains(c, "/snap/bin/") || contains(c, "exec snap"),
            None => false,
        },
        None => false,
    }
}

/// The first of the candidates that is usable. None behind it is looked at.
pub fn find_non_snap_app<F: Fn(&'static str) -> bool>(
    candidates: &Vec<&'static str>,
    usable: F,
) -> (r: Option<&'static str>)
    requires
        forall|c: &'static str| call_requires(usable, (c,)),
    ensures
        match r {
            Some(name) => exists|i: int|
                #![trigger candidates@[i]]
                0 <= i < candidates@.len() && candidates@[i] == name && call_ensures(
                    usable,
                    (name,),
                    true,
                ) && forall|j: int|
                    0 <= j < i ==> call_ensures(usable, (#[trigger] candidates@[j],), false),
            None => forall|j: int|
                0 <= j < candidates@.len() ==> call_ensures(
                    usable,
                    (#[trigger] candidates@[j],),
                    false,
                ),
        },
{
    for i in 0..candidates.len()
        invariant
            forall|c: &'static str| call_requires(usable, (c,)),
            forall|j: int|
                0 <= j < i ==> call_ensures(usable, (#[trigger] candidates@[j],), false),
    {
        let name: &'static str = candidates[i];
        if usable(name) {
            assert(candidates@[i as int] == name);
            return Some(name);
        }
    }
    None
}

/// The browsers that a session looks for, the best first.
pub fn browsers() -> (r: Vec<&'static str>)
    ensures
        views(r@) == seq![
            "firefox-esr"@,
            "google-chrome-stable"@,
            "google-chrome"@,
            "chromium-browser"@,
            "firefox"@,
            "chromium"@,
            "epiphany-browser"@,
        ],
{
    let r = vec![
        "firefox-esr",
        "google-chrome-stable",
        "google-chrome",
        "chromium-browser",
        "firefox",
        "chromium",
        "epiphany-browser",
    ];
    assert(views(r@) =~= seq![
        "firefox-esr"@,
        "google-chrome-stable"@,
        "google-chrome"@,
        "chromium-browser"@,
        "firefox"@,
        "chromium"@,
        "epiphany-browser"@,
    ]);
    r
}

/// The terminals that a session looks for, the best first.
pub fn terminals() -> (r: Vec<&'static str>)
    ensures
        views(r@) == seq!["xfce4-terminal"@, "gnome-terminal"@, "xterm"@],
{
    let r = vec!["xfce4-terminal", "gnome-terminal", "xterm"];
    assert(views(r@) =~= seq!["xfce4-terminal"@, "gnome-terminal"@, "xterm"@]);
    r
}

// ---------------------------------------------------------------------------
// The message bus
// ---------------------------------------------------------------------------

/// Where the message bus of a user lies.
pub open spec fn user_bus_path_of(uid: u32) -> Seq<char> {
    "/run/user/"@ + decimal(uid as nat) + "/bus"@
}

/// Where the message bus of a user lies.
pub fn user_bus_path(uid: u32) -> (r: String)
    ensures
        r@ == user_bus_path_of(uid),
{
    "/run/user/".to_owned().concat(decimal_u32(uid).as_str()).concat("/bus")
}

/// The process numbers that `pgrep` printed: its lines, without white space around, that are not
/// empty.
pub open spec fn pids_of(lines: Seq<Seq<char>>) -> Seq<Seq<char>>
    decreases lines.len(),
{
    if lines.len() == 0 {
        Seq::empty()
    } else if trimmed(lines.last()).len() == 0 {
        pids_of(lines.drop_last())
    } else {
        pids_of(lines.drop_last()).push(trimmed(lines.last()))
    }
}

/// The process numbers that `pgrep` printed.
pub fn panel_pids(stdout: &[u8]) -> (r: Vec<String>)
    ensures
        texts(r@) == pids_of(lines_of(lossy_text(stdout@))),
{
    let text = from_utf8_lossy(stdout);
    let all = lines(text.as_str());
    let ghost seen = views(all@);
    let mut out: Vec<String> = Vec::new();
    assert(seen.take(0) =~= Seq::<Seq<char>>::empty());
    assert(texts(out@) =~= Seq::<Seq<char>>::empty());
    for i in 0..all.len()
        invariant
            seen == views(all@),
            texts(out@) == pids_of(seen.take(i as int)),
    {
        let ghost before = out@;
        let pid = trim(all[i]);
        assert(seen.take(i + 1).drop_last() =~= seen.take(i as int));
        assert(seen.take(i + 1).last() == all@[i as int]@);
        if !pid.is_empty() {
            out.push(pid.to_owned());
            assert(texts(out@) =~= texts(before).push(pid@));
        }
    }
    assert(seen.take(all@.len() as int) =~= seen);
    out
}

/// Byte strings as sequences.
pub open spec fn blocks(v: Seq<Vec<u8>>) -> Seq<Seq<u8>> {
    v.map_values(|b: Vec<u8>| b@)
}

/// The entries of an environment block, which end in a zero byte each.
pub open spec fn entries_of(block: Seq<u8>) -> Seq<Seq<u8>>
    decreases block.len(),
{
    if block.len() == 0 {
        seq![block]
    } else if block.last() == 0 {
        entries_of(block.drop_last()).push(Seq::empty())
    } else {
        let before = entries_of(block.drop_last());
        before.drop_last().push(before.last().push(block.last()))
    }
}

/// Whether an environment has a display, and the address of the message bus in it.
pub struct BusOfProcess {
    pub has_display: bool,
    pub address: Option<String>,
}

/// Whether one of the entries sets `DISPLAY` to the display.
pub open spec fn sets_display(entries: Seq<Seq<u8>>, x_display: Seq<char>) -> bool {
    exists|i: int|
        0 <= i < entries.len() && lossy_text(#[trigger] entries[i]) == "DISPLAY="@ + x_display
}

/// The address of the message bus that the last of the entries that set one sets.
pub open spec fn bus_address(entries: Seq<Seq<u8>>) -> Option<Seq<char>>
    decreases entries.len(),
{
    if entries.len() == 0 {
        None
    } else {
        match after_prefix(lossy_text(entries.last()), "DBUS_SESSION_BUS_ADDRESS="@) {
            Some(address) => Some(address),
            None => bus_address(entries.drop_last()),
        }
    }
}

fn sub_bytes(bytes: &[u8], from: usize, to: usize) -> (r: Vec<u8>)
    requires
        from <= to <= bytes@.len(),
    ensures
        r@ == bytes@.subrange(from as int, to as int),
{
    let mut r: Vec<u8> = Vec::new();
    for i in from..to
        invariant
            from <= i <= to <= bytes@.len(),
            r@ == bytes@.subrange(from as int, i as int),
    {
        r.push(bytes[i]);
        assert(bytes@.subrange(from as int, i + 1) =~= bytes@.subrange(from as int, i as int).push(
            bytes@[i as int],
        ));
    }
    r
}

fn split_entries(block: &[u8]) -> (r: Vec<Vec<u8>>)
    ensures
        blocks(r@) == entries_of(block@),
{
    let mut out: Vec<Vec<u8>> = Vec::new();
    let mut from: usize = 0;
    let mut i: usize = 0;
    assert(block@.take(0) =~= Seq::<u8>::empty());
    assert(blocks(out@).push(block@.subrange(0, 0)) =~= seq![block@.take(0)]);
    while i < block.len()
        invariant
            from <= i <= block@.len(),
            entries_of(block@.take(i as int)) == blocks(out@).push(
                block@.subrange(from as int, i as int),
            ),
        decreases block@.len() - i,
    {
        let ghost before = out@;
        assert(block@.take(i + 1).drop_last() =~= block@.take(i as int));
        assert(blocks(before).push(block@.subrange(from as int, i as int)).drop_last()
            =~= blocks(before));
        if block[i] == 0 {
            let entry = sub_bytes(block, from, i);
            out.push(entry);
            assert(blocks(out@) =~= blocks(before).push(entry@));
            from = i + 1;
            assert(block@.subrange(from as int, i + 1) =~= Seq::<u8>::empty());
        } else {
            assert(block@.subrange(from as int, i + 1) =~= block@.subrange(
                from as int,
                i as int,
            ).push(block@[i as int]));
        }
        i = i + 1;
    }
    let ghost before = out@;
    let entry = sub_bytes(block, from, block.len());
    out.push(entry);
    assert(blocks(out@) =~= blocks(before).push(entry@));
    assert(block@.take(block@.len() as int) =~= block@);
    out
}

/// What the environment block of a process says of a display and of the message bus.
pub fn bus_of_process(environ: &[u8], x_display: &str) -> (r: BusOfProcess)
    ensures
        r.has_display == sets_display(entries_of(environ@), x_display@),
        opt_text(r.address) == bus_address(entries_of(environ@)),
{
    let entries = split_entries(environ);
    let ghost all = blocks(entries@);
    let wanted = "DISPLAY=".to_owned().concat(x_display);
    let mut has_display = false;
    let mut address: Option<String> = None;
    assert(all.take(0) =~= Seq::<Seq<u8>>::empty());
    for i in 0..entries.len()
        invariant
            all == blocks(entries@),
            wanted@ == "DISPLAY="@ + x_display@,
            has_display <==> exists|k: int|
                0 <= k < i && lossy_text(#[trigger] all[k]) == wanted@,
            opt_text(address) == bus_address(all.take(i as int)),
    {
        assert(all[i as int] == entries@[i as int]@);
        assert(all.take(i + 1).drop_last() =~= all.take(i as int));
        let entry = from_utf8_lossy(entries[i].as_slice());
        if text_eq(entry.as_str(), wanted.as_str()) {
            has_display = true;
        }
        match strip_prefix(entry.as_str(), "DBUS_SESSION_BUS_ADDRESS=") {
            Some(a) => {
                address = Some(a.to_owned());
            },
            None => {},
        }
    }
    assert(all.take(entries@.len() as int) =~= all);
    BusOfProcess { has_display, address }
}

/// The bus in the first of the environments that has the display.
pub open spec fn bus_in(environs: Seq<Seq<u8>>, x_display: Seq<char>) -> Option<Seq<char>>
    decreases environs.len(),
{
    if environs.len() == 0 {
        None
    } else if sets_display(entries_of(environs[0]), x_display) {
        bus_address(entries_of(environs[0]))
    } else {
        bus_in(environs.skip(1), x_display)
    }
}

/// The address of the message bus of the session on a display: the user's own bus, where it
/// exists, and else the one that the desktop's panel on the display uses. `environs` holds the
/// environment blocks of the panels that run.
pub fn find_dbus_address_for_display(
    x_display: &str,
    uid: u32,
    user_bus_exists: bool,
    environs: &Vec<Vec<u8>>,
) -> (r: Option<String>)
    ensures
        opt_text(r) == if user_bus_exists {
            Some("unix:path="@ + user_bus_path_of(uid))
        } else {
            bus_in(blocks(environs@), x_display@)
        },
{
    if user_bus_exists {
        return Some("unix:path=".to_owned().concat(user_bus_path(uid).as_str()));
    }
    let ghost all = blocks(environs@);
    assert(all.skip(0) =~= all);
    for i in 0..environs.len()
        invariant
            all == blocks(environs@),
            bus_in(all.skip(i as int), x_display@) == bus_in(all, x_display@),
            !user_bus_exists,
    {
        assert(all.skip(i as int)[0] == environs@[i as int]@);
        assert(all.skip(i as int).skip(1) =~= all.skip(i + 1));
        let found = bus_of_process(environs[i].as_slice(), x_display);
        if found.has_display {
            return found.address;
        }
    }
    assert(all.skip(environs@.len() as int).len() == 0);
    None
}

// ---------------------------------------------------------------------------
// Laws
// ---------------------------------------------------------------------------

/// A program is a snap exactly where it lies below `/snap/`, or its file hands over to one by the
/// path of the snaps or by `exec snap`; one that is not found is none.
pub proof fn snaps_are_told_by_path_or_contents(
    path: &str,
    contents: &str,
    whole: bool,
    bare: bool,
    lost: bool,
    rest: Seq<char>,
    a: Seq<char>,
    b: Seq<char>,
)
    requires
        call_ensures(is_snap_binary, (Some(path), Some(contents)), whole),
        call_ensures(is_snap_binary, (Some(path), None::<&str>), bare),
        call_ensures(is_snap_binary, (None::<&str>, Some(contents)), lost),
    ensures
        path@ == "/snap/"@ + rest ==> whole && bare,
        contents@ == a + "/snap/bin/"@ + b ==> whole,
        contents@ == a + "exec snap"@ + b ==> whole,
        whole ==> begins(path@, "/snap/"@) || holds(contents@, "/snap/bin/"@) || holds(
            contents@,
            "exec snap"@,
        ),
        bare <==> begins(path@, "/snap/"@),
        !lost,
{
    if path@ == "/snap/"@ + rest {
        assert(path@.subrange(0, "/snap/"@.len() as int) =~= "/snap/"@);
    }
    if contents@ == a + "/snap/bin/"@ + b {
        let n = a.len() as int;
        assert(contents@.subrange(n, n + "/snap/bin/"@.len()) =~= "/snap/bin/"@);
        assert(matches_at(contents@, "/snap/bin/"@, n));
    }
    if contents@ == a + "exec snap"@ + b {
        let n = a.len() as int;
        assert(contents@.subrange(n, n + "exec snap"@.len()) =~= "exec snap"@);
        assert(matches_at(contents@, "exec snap"@, n));
    }
}

/// The entries of a block with one more entry behind are its own and that one: the zero bytes
/// separate, and are part of none.
pub proof fn entries_go_on(a: Seq<u8>, b: Seq<u8>)
    requires
        !b.contains(0u8),
    ensures
        entries_of(a + seq![0u8] + b) == entries_of(a).push(b),
        entries_of(b) == seq![b],
    decreases b.len(),
{
    if b.len() == 0 {
        let s = a + seq![0u8] + b;
        assert(s.drop_last() =~= a);
        assert(s.last() == 0);
        assert(b =~= Seq::<u8>::empty());
    } else {
        let c = b.drop_last();
        assert(b[b.len() - 1] == b.last());
        assert(!c.contains(0u8)) by {
            if c.contains(0u8) {
                let k = choose|k: int| 0 <= k < c.len() && c[k] == 0;
                assert(b[k] == 0);
            }
        }
        entries_go_on(a, c);
        let s = a + seq![0u8] + b;
        assert(s.drop_last() =~= a + seq![0u8] + c);
        assert(entries_of(a).push(c).drop_last() =~= entries_of(a));
        assert(c.push(b.last()) =~= b);
        assert(seq![c].drop_last().push(b) =~= seq![b]);
    }
}

/// An entry that is behind all others decides: one that sets the bus gives its address, one that
/// sets the display is noted, and any other changes nothing.
pub proof fn last_entries_count(
    environ: &[u8],
    x_display: &str,
    r: BusOfProcess,
    a: Seq<u8>,
    b: Seq<u8>,
    address: Seq<char>,
)
    requires
        call_ensures(bus_of_process, (environ, x_display), r),
        !b.contains(0u8),
        environ@ == a + seq![0u8] + b,
    ensures
        lossy_text(b) == "DBUS_SESSION_BUS_ADDRESS="@ + address ==> opt_text(r.address) == Some(address),
        !begins(lossy_text(b), "DBUS_SESSION_BUS_ADDRESS="@) ==> opt_text(r.address) == bus_address(
            entries_of(a),
        ),
        lossy_text(b) == "DISPLAY="@ + x_display@ ==> r.has_display,
        lossy_text(b) != "DISPLAY="@ + x_display@ ==> (r.has_display <==> sets_display(
            entries_of(a),
            x_display@,
        )),
{
    entries_go_on(a, b);
    let all = entries_of(environ@);
    let before = entries_of(a);
    assert(all.drop_last() =~= before);
    assert(all.last() == b);
    let name = "DBUS_SESSION_BUS_ADDRESS="@;
    if lossy_text(b) == name + address {
        assert(lossy_text(b).subrange(0, name.len() as int) =~= name);
        assert(lossy_text(b).skip(name.len() as int) =~= address);
    }
    if lossy_text(b) == "DISPLAY="@ + x_display@ {
        assert(all[before.len() as int] == b);
    } else {
        if sets_display(before, x_display@) {
            let i = choose|i: int|
                0 <= i < before.len() && lossy_text(#[trigger] before[i]) == "DISPLAY="@ + x_display@;
            assert(all[i] == before[i]);
        }
        if r.has_display {
            let i = choose|i: int|
                0 <= i < all.len() && lossy_text(#[trigger] all[i]) == "DISPLAY="@ + x_display@;
            assert(i < before.len());
            assert(all[i] == before[i]);
        }
    }
}

/// The user's own bus counts before all others, and else the first panel on the display decides,
/// whatever those before it, on other displays, have.
pub proof fn the_first_panel_decides(
    x_display: &str,
    uid: u32,
    user_bus: bool,
    environs: &Vec<Vec<u8>>,
    r: Option<String>,
    k: int,
    found: BusOfProcess,
    environ: &[u8],
)
    requires
        call_ensures(find_dbus_address_for_display, (x_display, uid, user_bus, environs), r),
        0 <= k < environs@.len(),
        environ@ == environs@[k]@,
        call_ensures(bus_of_process, (environ, x_display), found),
        found.has_display,
        forall|i: int|
            0 <= i < k ==> !sets_display(entries_of((#[trigger] environs@[i])@), x_display@),
    ensures
        user_bus ==> opt_text(r) == Some("unix:path=/run/user/"@ + decimal(uid as nat) + "/bus"@),
        !user_bus ==> opt_text(r) == opt_text(found.address),
{
    reveal_strlit("unix:path=");
    reveal_strlit("/run/user/");
    reveal_strlit("unix:path=/run/user/");
    assert("unix:path="@ + "/run/user/"@ =~= "unix:path=/run/user/"@);
    let all = blocks(environs@);
    assert(all[k] == environs@[k]@);
    assert forall|i: int| 0 <= i < k implies !sets_display(entries_of(#[trigger] all[i]), x_display@) by {
        assert(all[i] == environs@[i]@);
    }
    lemma_first_panel(all, x_display@, k);
    assert("unix:path="@ + ("/run/user/"@ + decimal(uid as nat) + "/bus"@) =~= "unix:path=/run/user/"@
        + decimal(uid as nat) + "/bus"@);
}

proof fn lemma_first_panel(environs: Seq<Seq<u8>>, x_display: Seq<char>, k: int)
    requires
        0 <= k < environs.len(),
        sets_display(entries_of(environs[k]), x_display),
        forall|i: int| 0 <= i < k ==> !sets_display(entries_of(#[trigger] environs[i]), x_display),
    ensures
        bus_in(environs, x_display) == bus_address(entries_of(environs[k])),
    decreases k,
{
    if k > 0 {
        assert(!sets_display(entries_of(environs[0]), x_display));
        let rest = environs.skip(1);
        assert forall|i: int| 0 <= i < k - 1 implies !sets_display(
            entries_of(#[trigger] rest[i]),
            x_display,
        ) by {
            assert(rest[i] == environs[i + 1]);
        }
        lemma_first_panel(rest, x_display, k - 1);
    }
}

/// Of the lines that `pgrep` prints, each that is not blank gives a process number, in their order.
pub proof fn blank_lines_give_no_process(lines: Seq<Seq<char>>, line: Seq<char>)
    ensures
        trimmed(line).len() == 0 ==> pids_of(lines.push(line)) == pids_of(lines),
        trimmed(line).len() > 0 ==> pids_of(lines.push(line)) == pids_of(lines).push(trimmed(line)),
        pids_of(Seq::empty()).len() == 0,
{
    assert(lines.push(line).drop_last() =~= lines);
}

/// A block of one entry tells what that entry tells. A block with one more entry behind another block
/// tells what that one tells but where the entry sets the same again.
pub proof fn blocks_tell_what_their_entries_tell(
    single: &[u8],
    before: &[u8],
    whole: &[u8],
    x_display: &str,
    rs: BusOfProcess,
    rb: BusOfProcess,
    rw: BusOfProcess,
    address: Seq<char>,
)
    requires
        !single@.contains(0u8),
        whole@ == before@ + seq![0u8] + single@,
        call_ensures(bus_of_process, (single, x_display), rs),
        call_ensures(bus_of_process, (before, x_display), rb),
        call_ensures(bus_of_process, (whole, x_display), rw),
    ensures
        rs.has_display <==> lossy_text(single@) == "DISPLAY="@ + x_display@,
        lossy_text(single@) == "DBUS_SESSION_BUS_ADDRESS="@ + address ==> opt_text(rs.address) == Some(
            address,
        ),
        !begins(lossy_text(single@), "DBUS_SESSION_BUS_ADDRESS="@) ==> rs.address is None,
        rw.has_display <==> rb.has_display || rs.has_display,
        rs.address is Some ==> opt_text(rw.address) == opt_text(rs.address),
        rs.address is None ==> opt_text(rw.address) == opt_text(rb.address),
{
    entries_go_on(before@, single@);
    let one = entries_of(single@);
    let all = entries_of(whole@);
    let front = entries_of(before@);
    assert(one.drop_last() =~= Seq::<Seq<u8>>::empty());
    assert(one.last() == single@);
    assert(bus_address(one.drop_last()) is None);
    assert(all.drop_last() =~= front);
    assert(all.last() == single@);
    let name = "DBUS_SESSION_BUS_ADDRESS="@;
    if lossy_text(single@) == name + address {
        assert(lossy_text(single@).subrange(0, name.len() as int) =~= name);
        assert(lossy_text(single@).skip(name.len() as int) =~= address);
    }
    if lossy_text(single@) == "DISPLAY="@ + x_display@ {
        assert(one[0] == single@);
        assert(all[front.len() as int] == single@);
    }
    if rb.has_display {
        let i = choose|i: int|
            0 <= i < front.len() && lossy_text(#[trigger] front[i]) == "DISPLAY="@ + x_display@;
        assert(all[i] == front[i]);
    }
    if rw.has_display {
        let i = choose|i: int|
            0 <= i < all.len() && lossy_text(#[trigger] all[i]) == "DISPLAY="@ + x_display@;
        if i < front.len() {
            assert(front[i] == all[i]);
        }
    }
}

/// Each line that `pgrep` prints and that is not blank is a process number, without the white space
/// around it, and goes behind those of the lines before.
pub proof fn printed_numbers_are_taken(
    a: &[u8],
    b: &[u8],
    line: &str,
    t: &str,
    ra: Vec<String>,
    rb: Vec<String>,
)
    requires
        call_ensures(panel_pids, (a,), ra),
        call_ensures(panel_pids, (b,), rb),
        call_ensures(trim, (line,), t),
        lines_of(lossy_text(b@)) == lines_of(lossy_text(a@)).push(line@),
    ensures
        t@.len() == 0 ==> texts(rb@) == texts(ra@),
        t@.len() > 0 ==> texts(rb@) == texts(ra@).push(t@),
        lines_of(lossy_text(a@)).len() == 0 ==> ra@.len() == 0,
{
    blank_lines_give_no_process(lines_of(lossy_text(a@)), line@);
    assert(texts(ra@).len() == ra@.len());
}

/// A session looks for browsers and terminals in this order. A program that is taken is usable, and
/// none before it was.
pub proof fn usable_programs_are_taken<F: Fn(&'static str) -> bool>(
    b: Vec<&'static str>,
    t: Vec<&'static str>,
    candidates: &Vec<&'static str>,
    usable: F,
    r: Option<&'static str>,
)
    requires
        call_ensures(browsers, (), b),
        call_ensures(terminals, (), t),
        forall|c: &'static str| call_requires(usable, (c,)),
        call_ensures(find_non_snap_app::<F>, (candidates, usable), r),
    ensures
        b@.len() == 7,
        b@[0]@ == "firefox-esr"@ && b@[1]@ == "google-chrome-stable"@ && b@[2]@ == "google-chrome"@,
        b@[3]@ == "chromium-browser"@ && b@[4]@ == "firefox"@ && b@[5]@ == "chromium"@,
        b@[6]@ == "epiphany-browser"@,
        t@.len() == 3,
        t@[0]@ == "xfce4-terminal"@ && t@[1]@ == "gnome-terminal"@ && t@[2]@ == "xterm"@,
        r matches Some(name) ==> exists|k: int|
            #![trigger candidates@[k]]
            0 <= k < candidates@.len() && candidates@[k] == name && call_ensures(
                usable,
                (name,),
                true,
            ) && forall|j: int|
                0 <= j < k ==> call_ensures(usable, (#[trigger] candidates@[j],), false),
{
    assert(views(b@).len() == b@.len());
    assert(views(t@).len() == t@.len());
    assert forall|k: int| 0 <= k < b@.len() implies views(b@)[k] == (#[trigger] b@[k])@ by {}
    assert forall|k: int| 0 <= k < t@.len() implies views(t@)[k] == (#[trigger] t@[k])@ by {}
    if let Some(name) = r {
        let k = choose|k: int|
            #![trigger candidates@[k]]
            0 <= k < candidates@.len() && candidates@[k] == name && call_ensures(
                usable,
                (name,),
                true,
            ) && forall|j: int|
                0 <= j < k ==> call_ensures(usable, (#[trigger] candidates@[j],), false);
        assert(candidates@[k] == name);
    }
}

/// The path of a program is what was printed, without the white space around it, where it is a text.
/// The bus of a user lies in the user's runtime directory.
pub proof fn printed_paths_are_taken(
    stdout: Vec<u8>,
    r: Option<String>,
    printed: &str,
    t: &str,
    uid: u32,
    bus: String,
)
    requires
        call_ensures(program_path, (stdout,), r),
        call_ensures(trim, (printed,), t),
        call_ensures(user_bus_path, (uid,), bus),
    ensures
        r is Some <==> vstd::utf8::valid_utf8(stdout@),
        r is Some && printed@ == vstd::utf8::decode_utf8(stdout@) ==> r->0@ == t@,
        bus@ == "/run/user/"@ + decimal(uid as nat) + "/bus"@,
{
}

} // verus!
