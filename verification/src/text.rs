//! Text as a sequence of characters: searching, trimming, splitting, and numbers in text.
//!
//! Every function works on `&str` and is described over the sequence of its characters.
use vstd::prelude::*;
use vstd::string::*;

verus! {

/// `String::push` appends the given character to the end of the string.
pub assume_specification[ String::push ](s: &mut String, c: char)
    ensures
        final(s)@ == old(s)@.push(c),
;

// ---------------------------------------------------------------------------
// Plain pieces
// ---------------------------------------------------------------------------

/// The characters of `s`, in order.
pub fn chars_of(s: &str) -> (r: Vec<char>)
    ensures
        r@ == s@,
{
    let mut out: Vec<char> = Vec::new();
    for c in it: s.chars()
        invariant
            it.seq() == s@,
            out@ == s@.take(it.index() as int),
    {
        out.push(c);
    }
    out
}

/// Whether two texts hold the same characters.
pub fn text_eq(a: &str, b: &str) -> (r: bool)
    ensures
        r == (a@ == b@),
{
    let x = chars_of(a);
    let y = chars_of(b);
    if x.len() != y.len() {
        return false;
    }
    for i in 0..x.len()
        invariant
            x@ == a@,
            y@ == b@,
            x@.len() == y@.len(),
            forall|k: int| 0 <= k < i ==> x@[k] == y@[k],
    {
        if x[i] != y[i] {
            return false;
        }
    }
    assert(x@ =~= y@);
    true
}

/// Whether the pattern `p` stands in `s` at position `i`.
pub open spec fn matches_at(s: Seq<char>, p: Seq<char>, i: int) -> bool {
    0 <= i && i + p.len() <= s.len() && s.subrange(i, i + p.len()) == p
}

/// Whether `s` begins with `p`.
pub open spec fn begins(s: Seq<char>, p: Seq<char>) -> bool {
    matches_at(s, p, 0)
}

/// Whether `s` ends with `p`.
pub open spec fn ends(s: Seq<char>, p: Seq<char>) -> bool {
    matches_at(s, p, s.len() - p.len())
}

/// Whether `p` stands anywhere in `s`.
pub open spec fn holds(s: Seq<char>, p: Seq<char>) -> bool {
    exists|i: int| matches_at(s, p, i)
}

/// `i` is the first position of `p` in `s`.
pub open spec fn first_at(s: Seq<char>, p: Seq<char>, i: int) -> bool {
    &&& matches_at(s, p, i)
    &&& forall|k: int| 0 <= k < i ==> !matches_at(s, p, k)
}

/// Where `p` stands in `s` for the first time.
pub open spec fn position(s: Seq<char>, p: Seq<char>) -> Option<int> {
    if exists|i: int| first_at(s, p, i) {
        Some(choose|i: int| first_at(s, p, i))
    } else {
        None
    }
}

proof fn lemma_position(s: Seq<char>, p: Seq<char>, i: int)
    requires
        first_at(s, p, i),
    ensures
        position(s, p) == Some(i),
{
    let j = choose|j: int| first_at(s, p, j);
    assert(first_at(s, p, j));
    if j < i {
        assert(matches_at(s, p, j));
    } else if i < j {
        assert(matches_at(s, p, i));
    }
}

fn match_here(s: &Vec<char>, p: &Vec<char>, i: usize) -> (r: bool)
    ensures
        r == matches_at(s@, p@, i as int),
{
    if p.len() > s.len() || i > s.len() - p.len() {
        return false;
    }
    for k in 0..p.len()
        invariant
            i + p.len() <= s.len(),
            forall|j: int| 0 <= j < k ==> s@[i + j] == p@[j],
    {
        if s[i + k] != p[k] {
            assert(s@.subrange(i as int, i + p@.len())[k as int] == s@[i + k]);
            return false;
        }
    }
    assert(s@.subrange(i as int, i + p@.len()) =~= p@);
    true
}

/// Whether `s` begins with `p`.
pub fn starts_with(s: &str, p: &str) -> (r: bool)
    ensures
        r == begins(s@, p@),
{
    match_here(&chars_of(s), &chars_of(p), 0)
}

/// Whether `s` ends with `p`.
pub fn ends_with(s: &str, p: &str) -> (r: bool)
    ensures
        r == ends(s@, p@),
{
    let x = chars_of(s);
    let y = chars_of(p);
    if y.len() > x.len() {
        return false;
    }
    let at: usize = x.len() - y.len();
    match_here(&x, &y, at)
}

/// What follows `p` where `s` begins with it.
pub open spec fn after_prefix(s: Seq<char>, p: Seq<char>) -> Option<Seq<char>> {
    if begins(s, p) {
        Some(s.skip(p.len() as int))
    } else {
        None
    }
}

/// An optional text as its characters.
pub open spec fn opt_view(o: Option<&str>) -> Option<Seq<char>> {
    match o {
        Some(t) => Some(t@),
        None => None,
    }
}

/// An optional string as its characters.
pub open spec fn opt_text(o: Option<String>) -> Option<Seq<char>> {
    match o {
        Some(t) => Some(t@),
        None => None,
    }
}

/// What follows `p` where `s` begins with it.
pub fn strip_prefix<'a>(s: &'a str, p: &str) -> (r: Option<&'a str>)
    ensures
        opt_view(r) == after_prefix(s@, p@),
{
    if starts_with(s, p) {
        let n: usize = s.unicode_len();
        let k: usize = p.unicode_len();
        let rest = s.substring_char(k, n);
        assert(rest@ =~= s@.skip(p@.len() as int));
        Some(rest)
    } else {
        None
    }
}

/// Where `p` stands in `s` for the first time.
pub fn find(s: &str, p: &str) -> (r: Option<usize>)
    ensures
        match r {
            Some(i) => position(s@, p@) == Some(i as int) && matches_at(s@, p@, i as int),
            None => position(s@, p@) is None && !holds(s@, p@),
        },
{
    let x = chars_of(s);
    let y = chars_of(p);
    let mut i: usize = 0;
    while i < x.len()
        invariant
            x@ == s@,
            y@ == p@,
            i <= x@.len(),
            forall|k: int| 0 <= k < i ==> !matches_at(s@, p@, k),
        decreases x@.len() - i,
    {
        if match_here(&x, &y, i) {
            proof {
                lemma_position(s@, p@, i as int);
            }
            return Some(i);
        }
        i = i + 1;
    }
    if match_here(&x, &y, i) {
        proof {
            lemma_position(s@, p@, i as int);
        }
        return Some(i);
    }
    None
}

/// Whether `p` stands anywhere in `s`.
pub fn contains(s: &str, p: &str) -> (r: bool)
    ensures
        r == holds(s@, p@),
{
    match find(s, p) {
        Some(_) => true,
        None => false,
    }
}

// ---------------------------------------------------------------------------
// Trimming
// ---------------------------------------------------------------------------

/// The characters that Unicode gives the property White_Space.
pub open spec fn is_white(c: char) -> bool {
    ||| '\u{9}' <= c <= '\u{d}'
    ||| c == ' '
    ||| c == '\u{85}'
    ||| c == '\u{a0}'
    ||| c == '\u{1680}'
    ||| '\u{2000}' <= c <= '\u{200a}'
    ||| c == '\u{2028}'
    ||| c == '\u{2029}'
    ||| c == '\u{202f}'
    ||| c == '\u{205f}'
    ||| c == '\u{3000}'
}

/// Whether `c` is white space.
pub fn is_whitespace(c: char) -> (r: bool)
    ensures
        r == is_white(c),
{
    ('\u{9}' <= c && c <= '\u{d}') || c == ' ' || c == '\u{85}' || c == '\u{a0}' || c == '\u{1680}'
        || ('\u{2000}' <= c && c <= '\u{200a}') || c == '\u{2028}' || c == '\u{2029}' || c
        == '\u{202f}' || c == '\u{205f}' || c == '\u{3000}'
}

/// `s` without the longest run at its front whose characters all meet `p`.
pub open spec fn trim_front(s: Seq<char>, p: spec_fn(char) -> bool) -> Seq<char>
    decreases s.len(),
{
    if s.len() > 0 && p(s[0]) {
        trim_front(s.skip(1), p)
    } else {
        s
    }
}

/// `s` without the longest run at its end whose characters all meet `p`.
pub open spec fn trim_back(s: Seq<char>, p: spec_fn(char) -> bool) -> Seq<char>
    decreases s.len(),
{
    if s.len() > 0 && p(s.last()) {
        trim_back(s.drop_last(), p)
    } else {
        s
    }
}

/// The predicate that holds of white space.
pub open spec fn white() -> spec_fn(char) -> bool {
    |c: char| is_white(c)
}

/// The predicate that holds of `d` alone.
pub open spec fn only(d: char) -> spec_fn(char) -> bool {
    |c: char| c == d
}

/// `s` without white space at both ends.
pub open spec fn trimmed(s: Seq<char>) -> Seq<char> {
    trim_back(trim_front(s, white()), white())
}

/// `s` without `d` at both ends.
pub open spec fn trimmed_of(s: Seq<char>, d: char) -> Seq<char> {
    trim_back(trim_front(s, only(d)), only(d))
}

/// Which characters a trim takes away.
enum Cut {
    White,
    Only(char),
    NotDigit,
}

spec fn cut_pred(c: Cut) -> spec_fn(char) -> bool {
    match c {
        Cut::White => white(),
        Cut::Only(d) => only(d),
        Cut::NotDigit => not_digit(),
    }
}

fn cuts(cut: &Cut, c: char) -> (r: bool)
    ensures
        r == cut_pred(*cut)(c),
{
    match cut {
        Cut::White => is_whitespace(c),
        Cut::Only(d) => c == *d,
        Cut::NotDigit => !('0' <= c && c <= '9'),
    }
}

fn cut_front<'a>(s: &'a str, cut: &Cut) -> (r: &'a str)
    ensures
        r@ == trim_front(s@, cut_pred(*cut)),
{
    let v = chars_of(s);
    let mut i: usize = 0;
    assert(s@.skip(0) =~= s@);
    while i < v.len() && cuts(cut, v[i])
        invariant
            v@ == s@,
            i <= v@.len(),
            trim_front(s@.skip(i as int), cut_pred(*cut)) == trim_front(s@, cut_pred(*cut)),
        decreases v@.len() - i,
    {
        assert(s@.skip(i as int).skip(1) =~= s@.skip(i + 1));
        i = i + 1;
    }
    let r = s.substring_char(i, v.len());
    assert(r@ =~= s@.skip(i as int));
    r
}

fn cut_back<'a>(s: &'a str, cut: &Cut) -> (r: &'a str)
    ensures
        r@ == trim_back(s@, cut_pred(*cut)),
{
    let v = chars_of(s);
    let mut n: usize = v.len();
    assert(s@.take(n as int) =~= s@);
    while n > 0 && cuts(cut, v[n - 1])
        invariant
            v@ == s@,
            n <= v@.len(),
            trim_back(s@.take(n as int), cut_pred(*cut)) == trim_back(s@, cut_pred(*cut)),
        decreases n,
    {
        assert(s@.take(n as int).drop_last() =~= s@.take(n - 1));
        n = n - 1;
    }
    let r = s.substring_char(0, n);
    assert(r@ =~= s@.take(n as int));
    r
}

/// `s` without white space at both ends.
pub fn trim<'a>(s: &'a str) -> (r: &'a str)
    ensures
        r@ == trimmed(s@),
{
    cut_back(cut_front(s, &Cut::White), &Cut::White)
}

/// `s` without `d` at both ends.
pub fn trim_matches<'a>(s: &'a str, d: char) -> (r: &'a str)
    ensures
        r@ == trimmed_of(s@, d),
{
    cut_back(cut_front(s, &Cut::Only(d)), &Cut::Only(d))
}

/// `s` without `d` at its front.
pub fn trim_start_matches<'a>(s: &'a str, d: char) -> (r: &'a str)
    ensures
        r@ == trim_front(s@, only(d)),
{
    cut_front(s, &Cut::Only(d))
}

/// `s` without `d` at its end.
pub fn trim_end_matches<'a>(s: &'a str, d: char) -> (r: &'a str)
    ensures
        r@ == trim_back(s@, only(d)),
{
    cut_back(s, &Cut::Only(d))
}

// ---------------------------------------------------------------------------
// Splitting
// ---------------------------------------------------------------------------

/// The pieces of `s` between the occurrences of `d`: one more than there are of these.
pub open spec fn pieces(s: Seq<char>, d: char) -> Seq<Seq<char>>
    decreases s.len(),
{
    if s.len() == 0 {
        seq![s]
    } else if s.last() == d {
        pieces(s.drop_last(), d).push(Seq::empty())
    } else {
        let before = pieces(s.drop_last(), d);
        before.drop_last().push(before.last().push(s.last()))
    }
}

/// The texts of a list as sequences of characters.
pub open spec fn views(v: Seq<&str>) -> Seq<Seq<char>> {
    v.map_values(|t: &str| t@)
}

/// The texts of a list of strings as sequences of characters.
pub open spec fn texts(v: Seq<String>) -> Seq<Seq<char>> {
    v.map_values(|t: String| t@)
}

proof fn lemma_pieces_not_empty(s: Seq<char>, d: char)
    ensures
        pieces(s, d).len() >= 1,
    decreases s.len(),
{
    if s.len() > 0 {
        lemma_pieces_not_empty(s.drop_last(), d);
    }
}

/// The pieces of `s` between the occurrences of `d`.
pub fn split<'a>(s: &'a str, d: char) -> (r: Vec<&'a str>)
    ensures
        views(r@) == pieces(s@, d),
{
    let v = chars_of(s);
    let mut out: Vec<&'a str> = Vec::new();
    let mut from: usize = 0;
    let mut i: usize = 0;
    assert(s@.take(0) =~= Seq::<char>::empty());
    assert(views(out@).push(s@.subrange(0, 0)) =~= seq![s@.take(0)]);
    while i < v.len()
        invariant
            v@ == s@,
            from <= i <= v@.len(),
            pieces(s@.take(i as int), d) == views(out@).push(s@.subrange(from as int, i as int)),
        decreases v@.len() - i,
    {
        let ghost before = out@;
        assert(s@.take(i + 1).drop_last() =~= s@.take(i as int));
        assert(views(before).push(s@.subrange(from as int, i as int)).drop_last() =~= views(before));
        if v[i] == d {
            let piece = s.substring_char(from, i);
            out.push(piece);
            assert(views(out@) =~= views(before).push(piece@));
            from = i + 1;
            assert(s@.subrange(from as int, i + 1) =~= Seq::<char>::empty());
        } else {
            assert(s@.subrange(from as int, i + 1) =~= s@.subrange(from as int, i as int).push(s@[i as int]));
        }
        i = i + 1;
    }
    let ghost before = out@;
    let piece = s.substring_char(from, v.len());
    out.push(piece);
    assert(views(out@) =~= views(before).push(piece@));
    assert(s@.take(v@.len() as int) =~= s@);
    out
}

/// A piece that ended in a line feed, without the carriage return before the line feed.
pub open spec fn without_cr(s: Seq<char>) -> Seq<char> {
    if s.len() > 0 && s.last() == '\r' {
        s.drop_last()
    } else {
        s
    }
}

/// The lines of `s`: each ends in a line feed or a carriage return and a line feed, which are
/// not part of it; the last one need not end in either, and is no line where it is empty.
pub open spec fn lines_of(s: Seq<char>) -> Seq<Seq<char>> {
    let all = pieces(s, '\n');
    let ended = all.drop_last().map_values(|t: Seq<char>| without_cr(t));
    if all.last().len() == 0 {
        ended
    } else {
        ended.push(all.last())
    }
}

fn drop_cr<'a>(s: &'a str) -> (r: &'a str)
    ensures
        r@ == without_cr(s@),
{
    let n: usize = s.unicode_len();
    if n > 0 && s.get_char(n - 1) == '\r' {
        let t = s.substring_char(0, n - 1);
        assert(t@ =~= s@.drop_last());
        t
    } else {
        s
    }
}

/// The lines of `s`.
pub fn lines<'a>(s: &'a str) -> (r: Vec<&'a str>)
    ensures
        views(r@) == lines_of(s@),
{
    let all = split(s, '\n');
    proof {
        lemma_pieces_not_empty(s@, '\n');
        assert(views(all@).len() == all@.len());
    }
    let last: usize = all.len() - 1;
    let mut out: Vec<&'a str> = Vec::new();
    let ghost ended = pieces(s@, '\n').drop_last().map_values(|t: Seq<char>| without_cr(t));
    for i in 0..last
        invariant
            last == all@.len() - 1,
            views(all@) == pieces(s@, '\n'),
            ended == pieces(s@, '\n').drop_last().map_values(|t: Seq<char>| without_cr(t)),
            views(out@) == ended.take(i as int),
    {
        let ghost before = out@;
        let line = drop_cr(all[i]);
        assert(views(all@)[i as int] == all@[i as int]@);
        out.push(line);
        assert(views(out@) =~= views(before).push(line@));
        assert(ended.take(i + 1) =~= ended.take(i as int).push(ended[i as int]));
    }
    assert(ended.take(last as int) =~= ended);
    assert(views(all@)[last as int] == all@[last as int]@);
    let ghost before = out@;
    if !all[last].is_empty() {
        out.push(all[last]);
        assert(views(out@) =~= views(before).push(all@[last as int]@));
    }
    out
}

/// `s` up to its first white space.
pub open spec fn until_white(s: Seq<char>) -> Seq<char>
    decreases s.len(),
{
    if s.len() == 0 || is_white(s[0]) {
        Seq::empty()
    } else {
        seq![s[0]] + until_white(s.skip(1))
    }
}

/// The first of the pieces of `s` that stand between white space, where there is one.
pub open spec fn first_word_of(s: Seq<char>) -> Option<Seq<char>> {
    let t = trim_front(s, white());
    if t.len() == 0 {
        None
    } else {
        Some(until_white(t))
    }
}

proof fn lemma_until_white(s: Seq<char>, n: int)
    requires
        0 <= n <= s.len(),
        forall|k: int| 0 <= k < n ==> !is_white(s[k]),
        n < s.len() ==> is_white(s[n]),
    ensures
        until_white(s) == s.take(n),
    decreases s.len(),
{
    if n == 0 {
        assert(s.take(0) =~= Seq::<char>::empty());
    } else {
        lemma_until_white(s.skip(1), n - 1);
        assert(s.take(n) =~= seq![s[0]] + s.skip(1).take(n - 1));
    }
}

/// The first of the pieces of `s` that stand between white space, where there is one.
pub fn first_word<'a>(s: &'a str) -> (r: Option<&'a str>)
    ensures
        opt_view(r) == first_word_of(s@),
{
    let t = cut_front(s, &Cut::White);
    let v = chars_of(t);
    if v.len() == 0 {
        return None;
    }
    let mut n: usize = 0;
    while n < v.len() && !is_whitespace(v[n])
        invariant
            v@ == t@,
            n <= v@.len(),
            forall|k: int| 0 <= k < n ==> !is_white(t@[k]),
        decreases v@.len() - n,
    {
        n = n + 1;
    }
    proof {
        lemma_until_white(t@, n as int);
    }
    let w = t.substring_char(0, n);
    assert(w@ =~= t@.take(n as int));
    Some(w)
}

/// The longest pieces of `s` without a character that meets `sep`.
pub open spec fn runs(s: Seq<char>, sep: spec_fn(char) -> bool) -> Seq<Seq<char>>
    decreases s.len(),
{
    if s.len() == 0 {
        Seq::empty()
    } else if sep(s.last()) {
        runs(s.drop_last(), sep)
    } else if s.len() == 1 || sep(s[s.len() - 2]) {
        runs(s.drop_last(), sep).push(seq![s.last()])
    } else {
        let before = runs(s.drop_last(), sep);
        before.drop_last().push(before.last().push(s.last()))
    }
}

/// The pieces of `s` that stand between white space.
pub open spec fn words_of(s: Seq<char>) -> Seq<Seq<char>> {
    runs(s, white())
}

fn runs_between<'a>(s: &'a str, cut: &Cut) -> (r: Vec<&'a str>)
    ensures
        views(r@) == runs(s@, cut_pred(*cut)),
{
    let ghost sep = cut_pred(*cut);
    let v = chars_of(s);
    let mut out: Vec<&'a str> = Vec::new();
    let mut inside = false;
    let mut from: usize = 0;
    let mut i: usize = 0;
    assert(s@.take(0) =~= Seq::<char>::empty());
    assert(views(out@) =~= Seq::<Seq<char>>::empty());
    while i < v.len()
        invariant
            v@ == s@,
            sep == cut_pred(*cut),
            from <= i <= v@.len(),
            inside <==> i > 0 && !sep(s@[i - 1]),
            inside ==> from < i && runs(s@.take(i as int), sep) == views(out@).push(
                s@.subrange(from as int, i as int),
            ),
            !inside ==> runs(s@.take(i as int), sep) == views(out@),
        decreases v@.len() - i,
    {
        let ghost before = out@;
        let ghost now = s@.take(i + 1);
        assert(now.drop_last() =~= s@.take(i as int));
        assert(now.last() == s@[i as int]);
        assert(i > 0 ==> now[now.len() - 2] == s@[i - 1]);
        if cuts(cut, v[i]) {
            if inside {
                let piece = s.substring_char(from, i);
                out.push(piece);
                assert(views(out@) =~= views(before).push(piece@));
            }
            inside = false;
        } else {
            if !inside {
                from = i;
                assert(s@.subrange(i as int, i + 1) =~= seq![s@[i as int]]);
            } else {
                assert(views(before).push(s@.subrange(from as int, i as int)).drop_last()
                    =~= views(before));
                assert(s@.subrange(from as int, i + 1) =~= s@.subrange(from as int, i as int).push(
                    s@[i as int],
                ));
            }
            inside = true;
        }
        i = i + 1;
    }
    assert(s@.take(v@.len() as int) =~= s@);
    if inside {
        let ghost before = out@;
        let piece = s.substring_char(from, v.len());
        out.push(piece);
        assert(views(out@) =~= views(before).push(piece@));
    }
    out
}

/// The pieces of `s` that stand between white space.
pub fn words<'a>(s: &'a str) -> (r: Vec<&'a str>)
    ensures
        views(r@) == words_of(s@),
{
    runs_between(s, &Cut::White)
}

/// The predicate that holds of all but decimal digits.
pub open spec fn not_digit() -> spec_fn(char) -> bool {
    |c: char| !is_digit(c)
}

/// The longest pieces of `s` that are made of decimal digits.
pub fn digit_runs<'a>(s: &'a str) -> (r: Vec<&'a str>)
    ensures
        views(r@) == runs(s@, not_digit()),
{
    runs_between(s, &Cut::NotDigit)
}

/// The decimal digits at the front of `s`.
pub open spec fn leading_digits_of(s: Seq<char>) -> Seq<char>
    decreases s.len(),
{
    if s.len() > 0 && is_digit(s[0]) {
        seq![s[0]] + leading_digits_of(s.skip(1))
    } else {
        Seq::empty()
    }
}

proof fn lemma_leading_digits(s: Seq<char>, n: int)
    requires
        0 <= n <= s.len(),
        forall|k: int| 0 <= k < n ==> is_digit(s[k]),
        n < s.len() ==> !is_digit(s[n]),
    ensures
        leading_digits_of(s) == s.take(n),
    decreases s.len(),
{
    if n == 0 {
        assert(s.take(0) =~= Seq::<char>::empty());
    } else {
        lemma_leading_digits(s.skip(1), n - 1);
        assert(s.take(n) =~= seq![s[0]] + s.skip(1).take(n - 1));
    }
}

/// The decimal digits at the front of `s`.
pub fn leading_digits<'a>(s: &'a str) -> (r: &'a str)
    ensures
        r@ == leading_digits_of(s@),
{
    let v = chars_of(s);
    let mut n: usize = 0;
    while n < v.len() && '0' <= v[n] && v[n] <= '9'
        invariant
            v@ == s@,
            n <= v@.len(),
            forall|k: int| 0 <= k < n ==> is_digit(s@[k]),
        decreases v@.len() - n,
    {
        n = n + 1;
    }
    proof {
        lemma_leading_digits(s@, n as int);
    }
    let r = s.substring_char(0, n);
    assert(r@ =~= s@.take(n as int));
    r
}

// ---------------------------------------------------------------------------
// Bytes as text
// ---------------------------------------------------------------------------

/// What `String::from_utf8_lossy` of std makes of bytes: their UTF-8 text, with replacement
/// characters for what is not UTF-8.
pub uninterp spec fn lossy_text(bytes: Seq<u8>) -> Seq<char>;

/// Calls `String::from_utf8_lossy` of std, which reads bytes as UTF-8 and puts U+FFFD where they
/// are not. Valid UTF-8 comes out as the text that it encodes.
#[verifier::external_body]
pub(crate) fn from_utf8_lossy(bytes: &[u8]) -> (r: String)
    ensures
        r@ == lossy_text(bytes@),
        vstd::utf8::valid_utf8(bytes@) ==> r@ == vstd::utf8::decode_utf8(bytes@),
{
    String::from_utf8_lossy(bytes).into_owned()
}

/// Calls `String::from_utf8` of std, which gives the text that bytes encode, and an error, handed
/// back as `None`, where they are not UTF-8.
#[verifier::external_body]
pub(crate) fn from_utf8(bytes: Vec<u8>) -> (r: Option<String>)
    ensures
        match r {
            Some(t) => vstd::utf8::valid_utf8(bytes@) && t@ == vstd::utf8::decode_utf8(bytes@),
            None => !vstd::utf8::valid_utf8(bytes@),
        },
{
    String::from_utf8(bytes).ok()
}

// ---------------------------------------------------------------------------
// Numbers in text
// ---------------------------------------------------------------------------

/// The decimal digit `d`.
pub open spec fn digit_char(d: int) -> char {
    (48 + d) as char
}

/// `n` in decimal, without leading zeros.
pub open spec fn decimal(n: nat) -> Seq<char>
    decreases n,
{
    if n < 10 {
        seq![digit_char(n as int)]
    } else {
        decimal(n / 10).push(digit_char((n % 10) as int))
    }
}

/// `n` in decimal.
pub fn decimal_u128(n: u128) -> (r: String)
    ensures
        r@ == decimal(n as nat),
    decreases n,
{
    let mut s = if n < 10 {
        String::new()
    } else {
        decimal_u128(n / 10)
    };
    s.push(digit((n % 10) as u8));
    assert(n < 10 ==> s@ =~= seq![digit_char(n as int)]);
    s
}

/// The decimal digit `d`.
pub fn digit(d: u8) -> (c: char)
    requires
        d < 10,
    ensures
        c == digit_char(d as int),
{
    (48 + d) as char
}

/// `n` in decimal.
pub fn decimal_u64(n: u64) -> (r: String)
    ensures
        r@ == decimal(n as nat),
{
    decimal_u128(n as u128)
}

/// `n` in decimal.
pub fn decimal_u32(n: u32) -> (r: String)
    ensures
        r@ == decimal(n as nat),
{
    decimal_u64(n as u64)
}

/// Whether `c` is a decimal digit.
pub open spec fn is_digit(c: char) -> bool {
    '0' <= c <= '9'
}

/// Whether every character of `s` is a decimal digit.
pub open spec fn all_digits(s: Seq<char>) -> bool {
    forall|i: int| 0 <= i < s.len() ==> is_digit(#[trigger] s[i])
}

/// The number that a text of decimal digits stands for.
pub open spec fn number(s: Seq<char>) -> nat
    decreases s.len(),
{
    if s.len() == 0 {
        0
    } else {
        number(s.drop_last()) * 10 + ((s.last() as int - 48) as nat)
    }
}

/// The number in the text `s` that is made of digits alone, where it is at most `max`.
pub open spec fn digits_up_to(s: Seq<char>, max: nat) -> Option<nat> {
    if s.len() > 0 && all_digits(s) && number(s) <= max {
        Some(number(s))
    } else {
        None
    }
}

/// The number that `s` gives: digits, after an optional plus sign, at most `max`.
pub open spec fn unsigned(s: Seq<char>, max: nat) -> Option<nat> {
    if s.len() > 0 && s[0] == '+' {
        digits_up_to(s.skip(1), max)
    } else {
        digits_up_to(s, max)
    }
}

/// The number that `s` gives: digits, after an optional sign, that fits an `i32`.
pub open spec fn signed(s: Seq<char>) -> Option<int> {
    if s.len() > 0 && s[0] == '-' {
        match digits_up_to(s.skip(1), 0x8000_0000) {
            Some(n) => Some(-(n as int)),
            None => None,
        }
    } else {
        match unsigned(s, 0x7fff_ffff) {
            Some(n) => Some(n as int),
            None => None,
        }
    }
}

proof fn lemma_number_grows(s: Seq<char>, n: int)
    requires
        0 <= n <= s.len(),
    ensures
        number(s.take(n)) <= number(s),
    decreases s.len() - n,
{
    if n < s.len() {
        lemma_number_grows(s, n + 1);
        assert(s.take(n + 1).drop_last() =~= s.take(n));
    } else {
        assert(s.take(n) =~= s);
    }
}

fn parse_digits(v: &Vec<char>, from: usize, max: u64) -> (r: Option<u64>)
    requires
        from <= v@.len(),
        max <= 0xffff_ffff,
    ensures
        match r {
            Some(n) => digits_up_to(v@.skip(from as int), max as nat) == Some(n as nat),
            None => digits_up_to(v@.skip(from as int), max as nat) is None,
        },
{
    if from == v.len() {
        return None;
    }
    let ghost s = v@.skip(from as int);
    let mut n: u64 = 0;
    let mut i: usize = from;
    assert(s.take(0) =~= Seq::<char>::empty());
    while i < v.len()
        invariant
            from <= i <= v@.len(),
            s == v@.skip(from as int),
            max <= 0xffff_ffff,
            n <= max,
            n == number(s.take(i - from)),
            forall|k: int| 0 <= k < i - from ==> is_digit(s[k]),
        decreases v@.len() - i,
    {
        let c = v[i];
        assert(s[i - from] == c);
        if c < '0' || c > '9' {
            return None;
        }
        let ghost next = s.take(i + 1 - from);
        assert(next.drop_last() =~= s.take(i - from));
        let m: u64 = n * 10 + (c as u64 - 48);
        if m > max {
            proof {
                lemma_number_grows(s, i + 1 - from);
            }
            return None;
        }
        n = m;
        i = i + 1;
    }
    assert(s.take(v@.len() - from) =~= s);
    Some(n)
}

/// The `u32` that `s` gives, where it gives one.
pub fn parse_u32(s: &str) -> (r: Option<u32>)
    ensures
        match r {
            Some(n) => unsigned(s@, 0xffff_ffff) == Some(n as nat),
            None => unsigned(s@, 0xffff_ffff) is None,
        },
{
    let v = chars_of(s);
    let from: usize = if v.len() > 0 && v[0] == '+' {
        1
    } else {
        0
    };
    assert(s@.skip(0) =~= s@);
    match parse_digits(&v, from, 0xffff_ffff) {
        Some(n) => Some(n as u32),
        None => None,
    }
}

/// The `i32` that `s` gives, where it gives one.
pub fn parse_i32(s: &str) -> (r: Option<i32>)
    ensures
        match r {
            Some(n) => signed(s@) == Some(n as int),
            None => signed(s@) is None,
        },
{
    let v = chars_of(s);
    assert(s@.skip(0) =~= s@);
    if v.len() > 0 && v[0] == '-' {
        return match parse_digits(&v, 1, 0x8000_0000) {
            Some(n) => Some((0 - n as i64) as i32),
            None => None,
        };
    }
    let from: usize = if v.len() > 0 && v[0] == '+' {
        1
    } else {
        0
    };
    match parse_digits(&v, from, 0x7fff_ffff) {
        Some(n) => Some(n as i32),
        None => None,
    }
}

/// A number printed in decimal is made of digits and reads back as itself.
pub proof fn decimal_reads_back(n: nat)
    ensures
        decimal(n).len() > 0,
        all_digits(decimal(n)),
        number(decimal(n)) == n,
        forall|max: nat| n <= max ==> #[trigger] unsigned(decimal(n), max) == Some(n),
    decreases n,
{
    if n < 10 {
        assert(decimal(n).drop_last() =~= Seq::<char>::empty());
        assert(number(decimal(n).drop_last()) == 0);
    } else {
        decimal_reads_back(n / 10);
        assert(decimal(n).drop_last() =~= decimal(n / 10));
    }
    assert(is_digit(decimal(n)[0]));
}

// ---------------------------------------------------------------------------
// Laws
// ---------------------------------------------------------------------------

/// What digits are worth that are read from the front, behind those that are worth `before`.
pub open spec fn worth(s: Seq<char>, before: nat) -> nat
    decreases s.len(),
{
    if s.len() == 0 {
        before
    } else {
        worth(s.skip(1), (10 * before + s[0] as int - 48) as nat)
    }
}

proof fn lemma_worth(s: Seq<char>, before: nat, d: char)
    ensures
        worth(s.push(d), before) == (10 * worth(s, before) + d as int - 48) as nat,
    decreases s.len(),
{
    reveal_with_fuel(worth, 3);
    if s.len() == 0 {
        assert(s.push(d).skip(1) =~= Seq::<char>::empty());
    } else {
        assert(s.push(d)[0] == s[0]);
        assert(s.push(d).skip(1) =~= s.skip(1).push(d));
        lemma_worth(s.skip(1), (10 * before + s[0] as int - 48) as nat, d);
    }
}

proof fn lemma_worth_is_number(s: Seq<char>)
    requires
        all_digits(s),
    ensures
        worth(s, 0) == number(s),
    decreases s.len(),
{
    if s.len() > 0 {
        let front = s.drop_last();
        assert forall|i: int| 0 <= i < front.len() implies is_digit(#[trigger] front[i]) by {
            assert(is_digit(s[i]));
        }
        lemma_worth_is_number(front);
        assert(is_digit(s[s.len() - 1]));
        assert(s =~= front.push(s.last()));
        lemma_worth(front, 0, s.last());
    }
}

/// Whether a text is made of the digits from `0` to `9`, by their codes.
pub open spec fn has_digit_codes(s: Seq<char>) -> bool {
    forall|i: int| 0 <= i < s.len() ==> 48 <= (#[trigger] s[i]) as u32 <= 57
}

proof fn lemma_digit_codes(s: Seq<char>)
    ensures
        has_digit_codes(s) == all_digits(s),
{
    if has_digit_codes(s) {
        assert forall|i: int| 0 <= i < s.len() implies is_digit(#[trigger] s[i]) by {
            lemma_digit_code(s[i]);
        }
    }
    if all_digits(s) {
        assert forall|i: int| 0 <= i < s.len() implies 48 <= (#[trigger] s[i]) as u32 <= 57 by {
            assert(is_digit(s[i]));
        }
    }
}

proof fn lemma_digit_code(c: char)
    requires
        48 <= c as u32 <= 57,
    ensures
        is_digit(c),
{
}

proof fn lemma_no_leading_zero(n: nat)
    ensures
        n > 0 ==> decimal(n)[0] != '0',
        n == 0 ==> decimal(n).len() == 1,
    decreases n,
{
    if n >= 10 {
        lemma_no_leading_zero(n / 10);
        decimal_reads_back(n / 10);
        assert(decimal(n)[0] == decimal(n / 10)[0]);
    }
}

/// A number is printed in the digits that it is worth, from the largest place on, without a zero
/// in front but for the number 0 itself.
pub proof fn numbers_are_printed_by_their_worth(
    n: u128,
    a: u64,
    b: u32,
    r: String,
    ra: String,
    rb: String,
)
    requires
        call_ensures(decimal_u128, (n,), r),
        call_ensures(decimal_u64, (a,), ra),
        call_ensures(decimal_u32, (b,), rb),
    ensures
        has_digit_codes(r@) && r@.len() > 0 && worth(r@, 0) == n && (r@[0] == '0' ==> r@.len() == 1),
        has_digit_codes(ra@) && ra@.len() > 0 && worth(ra@, 0) == a && (ra@[0] == '0' ==> ra@.len()
            == 1),
        has_digit_codes(rb@) && rb@.len() > 0 && worth(rb@, 0) == b && (rb@[0] == '0' ==> rb@.len()
            == 1),
{
    decimal_reads_back(n as nat);
    decimal_reads_back(a as nat);
    decimal_reads_back(b as nat);
    lemma_no_leading_zero(n as nat);
    lemma_no_leading_zero(a as nat);
    lemma_no_leading_zero(b as nat);
    lemma_worth_is_number(r@);
    lemma_worth_is_number(ra@);
    lemma_worth_is_number(rb@);
    lemma_digit_codes(r@);
    lemma_digit_codes(ra@);
    lemma_digit_codes(rb@);
}

/// A text gives the number that its digits are worth: digits alone, or behind a plus sign, or for
/// a number with a sign behind a minus sign, as far as the number fits.
pub proof fn numbers_are_read_by_their_worth(
    s: &str,
    d: Seq<char>,
    r: Option<u32>,
    i: Option<i32>,
)
    requires
        d.len() > 0,
        has_digit_codes(d),
        call_ensures(parse_u32, (s,), r),
        call_ensures(parse_i32, (s,), i),
    ensures
        s@ == d || s@ == seq!['+'] + d ==> {
            &&& worth(d, 0) <= 4_294_967_295 ==> (r matches Some(n) && n == worth(d, 0))
            &&& worth(d, 0) > 4_294_967_295 ==> r is None
            &&& worth(d, 0) <= 2_147_483_647 ==> (i matches Some(n) && n == worth(d, 0))
            &&& worth(d, 0) > 2_147_483_647 ==> i is None
        },
        s@ == seq!['-'] + d ==> {
            &&& r is None
            &&& worth(d, 0) <= 2_147_483_648 ==> (i matches Some(n) && n == -(worth(d, 0) as int))
            &&& worth(d, 0) > 2_147_483_648 ==> i is None
        },
{
    lemma_digit_codes(d);
    lemma_worth_is_number(d);
    assert(is_digit(d[0]));
    if s@ == seq!['+'] + d || s@ == seq!['-'] + d {
        assert(s@.skip(1) =~= d);
    }
    if s@ == seq!['-'] + d {
        assert(s@[0] == '-');
        assert(!is_digit(s@[0]));
    }
}

/// A text that is neither digits alone nor digits behind one sign gives no number.
pub proof fn other_texts_give_no_number(s: &str, r: Option<u32>, i: Option<i32>)
    requires
        call_ensures(parse_u32, (s,), r),
        call_ensures(parse_i32, (s,), i),
    ensures
        r is Some ==> {
            ||| s@.len() > 0 && has_digit_codes(s@)
            ||| s@.len() > 1 && s@[0] == '+' && has_digit_codes(s@.skip(1))
        },
        i is Some ==> {
            ||| s@.len() > 0 && has_digit_codes(s@)
            ||| s@.len() > 1 && (s@[0] == '+' || s@[0] == '-') && has_digit_codes(s@.skip(1))
        },
{
    lemma_digit_codes(s@);
    if s@.len() > 0 {
        lemma_digit_codes(s@.skip(1));
    }
}

/// Texts are equal, begin, end and hold as the parts say that they can be put together from.
pub proof fn parts_make_the_whole(
    s: &str,
    p: &str,
    same: bool,
    front: bool,
    back: bool,
    inside: bool,
    rest: Option<&str>,
    a: Seq<char>,
    b: Seq<char>,
)
    requires
        call_ensures(text_eq, (s, p), same),
        call_ensures(starts_with, (s, p), front),
        call_ensures(ends_with, (s, p), back),
        call_ensures(contains, (s, p), inside),
        call_ensures(strip_prefix, (s, p), rest),
    ensures
        same <==> s@ == p@,
        s@ == p@ + b ==> front && (rest matches Some(t) && t@ == b),
        front <==> rest is Some,
        rest matches Some(t) ==> s@ == p@ + t@,
        s@ == a + p@ ==> back,
        back ==> s@ == s@.take(s@.len() - p@.len()) + p@,
        s@ == a + p@ + b ==> inside,
        inside ==> exists|i: int|
            0 <= i <= s@.len() - p@.len() && s@ == #[trigger] s@.take(i) + p@ + s@.skip(i + p@.len()),
{
    if s@ == p@ + b {
        assert(s@.subrange(0, p@.len() as int) =~= p@);
        assert(s@.skip(p@.len() as int) =~= b);
    }
    if let Some(t) = rest {
        assert(s@ =~= p@ + t@);
    }
    if s@ == a + p@ {
        assert(s@.subrange(s@.len() - p@.len(), s@.len() as int) =~= p@);
    }
    if back {
        assert(s@ =~= s@.take(s@.len() - p@.len()) + p@);
    }
    if s@ == a + p@ + b {
        assert(s@.subrange(a.len() as int, (a.len() + p@.len()) as int) =~= p@);
        assert(matches_at(s@, p@, a.len() as int));
    }
    if inside {
        let i = choose|i: int| matches_at(s@, p@, i);
        assert(s@ =~= s@.take(i) + p@ + s@.skip(i + p@.len()));
    }
}

/// A pattern is found at the first place where the text can be taken apart around it.
pub proof fn patterns_are_found_first(s: &str, p: &str, r: Option<usize>, a: Seq<char>, b: Seq<char>)
    requires
        call_ensures(find, (s, p), r),
    ensures
        s@ == a + p@ + b ==> (r matches Some(i) && i <= a.len()),
        r matches Some(i) ==> i + p@.len() <= s@.len() && s@ == s@.take(i as int) + p@ + s@.skip(
            i + p@.len(),
        ),
{
    if let Some(i) = r {
        assert(position(s@, p@) == Some(i as int));
        assert(first_at(s@, p@, i as int));
        assert(s@ =~= s@.take(i as int) + p@ + s@.skip(i + p@.len()));
    }
    if s@ == a + p@ + b {
        assert(s@.subrange(a.len() as int, (a.len() + p@.len()) as int) =~= p@);
        assert(matches_at(s@, p@, a.len() as int));
        lemma_first_exists(s@, p@, a.len() as int);
    }
}

proof fn lemma_first_exists(s: Seq<char>, p: Seq<char>, i: int)
    requires
        matches_at(s, p, i),
    ensures
        exists|k: int| first_at(s, p, k),
    decreases i,
{
    if exists|k: int| 0 <= k < i && matches_at(s, p, k) {
        let k = choose|k: int| 0 <= k < i && matches_at(s, p, k);
        lemma_first_exists(s, p, k);
    } else {
        assert(first_at(s, p, i));
    }
}

proof fn lemma_trims(s: Seq<char>, p: spec_fn(char) -> bool)
    ensures
        ({
            let t = trim_front(s, p);
            &&& t.len() <= s.len()
            &&& t == s.skip(s.len() - t.len())
            &&& forall|i: int| 0 <= i < s.len() - t.len() ==> p(#[trigger] s[i])
            &&& t.len() > 0 ==> !p(t[0])
        }),
        ({
            let t = trim_back(s, p);
            &&& t.len() <= s.len()
            &&& t == s.take(t.len() as int)
            &&& forall|i: int| t.len() <= i < s.len() ==> p(#[trigger] s[i])
            &&& t.len() > 0 ==> !p(t.last())
        }),
    decreases s.len(),
{
    if s.len() > 0 {
        lemma_trims(s.skip(1), p);
        lemma_trims(s.drop_last(), p);
        if p(s[0]) {
            let t = trim_front(s, p);
            assert(t =~= s.skip(s.len() - t.len()));
            assert forall|i: int| 0 <= i < s.len() - t.len() implies p(#[trigger] s[i]) by {
                if i > 0 {
                    assert(s.skip(1)[i - 1] == s[i]);
                }
            }
        } else {
            assert(s.skip(0) =~= s);
        }
        if p(s.last()) {
            let t = trim_back(s, p);
            assert(t =~= s.take(t.len() as int));
            assert forall|i: int| t.len() <= i < s.len() implies p(#[trigger] s[i]) by {
                if i < s.len() - 1 {
                    assert(s.drop_last()[i] == s[i]);
                }
            }
        } else {
            assert(s.take(s.len() as int) =~= s);
        }
    } else {
        assert(s.skip(0) =~= s);
        assert(s.take(0) =~= s);
    }
}

/// Trimming a text between two stretches of what is trimmed away, and that neither begins nor ends
/// so, gives just that text.
pub proof fn trimming_undoes_padding(
    s: &str,
    before: Seq<char>,
    t: Seq<char>,
    after: Seq<char>,
    d: char,
    r: &str,
    q: &str,
)
    requires
        s@ == before + t + after,
        call_ensures(trim, (s,), r),
        call_ensures(trim_matches, (s, d), q),
    ensures
        (forall|i: int| 0 <= i < before.len() ==> is_white(#[trigger] before[i])) && (forall|i: int|
            0 <= i < after.len() ==> is_white(#[trigger] after[i])) && t.len() > 0 && !is_white(t[0])
            && !is_white(t.last()) ==> r@ == t,
        (forall|i: int| 0 <= i < before.len() ==> #[trigger] before[i] == d) && (forall|i: int|
            0 <= i < after.len() ==> #[trigger] after[i] == d) && t.len() > 0 && t[0] != d && t.last()
            != d ==> q@ == t,
{
    if (forall|i: int| 0 <= i < before.len() ==> is_white(#[trigger] before[i])) && (forall|i: int|
        0 <= i < after.len() ==> is_white(#[trigger] after[i])) && t.len() > 0 && !is_white(t[0])
        && !is_white(t.last()) {
        padding_is_trimmed_away(before, t, after, white());
    }
    if (forall|i: int| 0 <= i < before.len() ==> #[trigger] before[i] == d) && (forall|i: int|
        0 <= i < after.len() ==> #[trigger] after[i] == d) && t.len() > 0 && t[0] != d && t.last()
        != d {
        padding_is_trimmed_away(before, t, after, only(d));
    }
}

/// What is neither begun nor ended by what is trimmed away is what is left of it between two stretches
/// of that.
pub proof fn padding_is_trimmed_away(
    before: Seq<char>,
    t: Seq<char>,
    after: Seq<char>,
    p: spec_fn(char) -> bool,
)
    requires
        forall|i: int| 0 <= i < before.len() ==> p(#[trigger] before[i]),
        forall|i: int| 0 <= i < after.len() ==> p(#[trigger] after[i]),
        t.len() > 0,
        !p(t[0]),
        !p(t.last()),
    ensures
        trim_back(trim_front(before + t + after, p), p) == t,
{
    let s = before + t + after;
    lemma_trims(s, p);
    let f = trim_front(s, p);
    assert(s[before.len() as int] == t[0]);
    let cut = s.len() - f.len();
    if cut < before.len() {
        assert(f[0] == s[cut]);
        assert(s[cut] == before[cut]);
    }
    if cut > before.len() {
        assert(p(s[before.len() as int]));
    }
    assert(f =~= t + after);
    lemma_trims(f, p);
    let b = trim_back(f, p);
    assert(f[t.len() - 1] == t.last());
    if b.len() > t.len() {
        assert(b.last() == f[b.len() - 1]);
        assert(f[b.len() - 1] == after[b.len() - 1 - t.len()]);
    }
    if b.len() < t.len() {
        assert(p(f[t.len() - 1]));
    }
    assert(b =~= t);
}

/// The pieces of a text with one more separator and piece behind it are its own and that one.
pub proof fn pieces_go_on(a: Seq<char>, d: char, b: Seq<char>)
    requires
        !b.contains(d),
    ensures
        pieces(a + seq![d] + b, d) == pieces(a, d).push(b),
        pieces(b, d) == seq![b],
    decreases b.len(),
{
    if b.len() == 0 {
        let s = a + seq![d] + b;
        assert(s.drop_last() =~= a);
        assert(s.last() == d);
        assert(b =~= Seq::<char>::empty());
    } else {
        let c = b.drop_last();
        assert(b[b.len() - 1] == b.last());
        assert(!c.contains(d)) by {
            if c.contains(d) {
                let k = choose|k: int| 0 <= k < c.len() && c[k] == d;
                assert(b[k] == d);
            }
        }
        pieces_go_on(a, d, c);
        let s = a + seq![d] + b;
        assert(s.drop_last() =~= a + seq![d] + c);
        assert(pieces(a, d).push(c).drop_last() =~= pieces(a, d));
        assert(c.push(b.last()) =~= b);
        assert(seq![c].drop_last().push(b) =~= seq![b]);
    }
}

/// A text that is put together from pieces without the separator is split into just these.
pub proof fn splitting_undoes_joining(s: &str, d: char, a: Seq<char>, b: Seq<char>, r: Vec<&str>)
    requires
        call_ensures(split, (s, d), r),
        !a.contains(d),
        !b.contains(d),
    ensures
        s@ == a ==> views(r@) == seq![a],
        s@ == a + seq![d] + b ==> views(r@) == seq![a, b],
{
    pieces_go_on(a, d, b);
    pieces_go_on(b, d, a);
    assert(seq![a].push(b) =~= seq![a, b]);
}

/// White space is what has one of these codes, and nothing else.
pub proof fn white_space_has_its_codes(c: char, r: bool)
    requires
        call_ensures(is_whitespace, (c,), r),
    ensures
        r <==> {
            let n = c as u32;
            ||| 9 <= n <= 13
            ||| n == 32
            ||| n == 0x85
            ||| n == 0xa0
            ||| n == 0x1680
            ||| 0x2000 <= n <= 0x200a
            ||| n == 0x2028
            ||| n == 0x2029
            ||| n == 0x202f
            ||| n == 0x205f
            ||| n == 0x3000
        },
        r <==> is_white(c),
{
}

/// Each line ends in a line feed, or in a carriage return and a line feed, and goes on from the lines
/// before it. What stands behind the last line feed is a line where it is not empty, with all that it
/// has.
pub proof fn lines_go_on(
    before: Seq<char>,
    line: Seq<char>,
    feed: Seq<char>,
    s: &str,
    t: &str,
    u: &str,
    first: &str,
    single: &str,
    rs: Vec<&str>,
    rt: Vec<&str>,
    ru: Vec<&str>,
    rf: Vec<&str>,
    r1: Vec<&str>,
)
    requires
        forall|i: int| 0 <= i < line.len() ==> (#[trigger] line[i]) as u32 != 10,
        feed.len() == 1 && feed[0] as u32 == 10,
        s@ == before + feed,
        t@ == before + feed + line + feed,
        u@ == before + feed + line,
        first@ == line + feed,
        single@ == line,
        call_ensures(lines, (s,), rs),
        call_ensures(lines, (t,), rt),
        call_ensures(lines, (u,), ru),
        call_ensures(lines, (first,), rf),
        call_ensures(lines, (single,), r1),
    ensures
        ({
            let kept = if line.len() > 0 && line.last() as u32 == 13 {
                line.drop_last()
            } else {
                line
            };
            &&& views(rt@) == views(rs@).push(kept)
            &&& views(rf@) == seq![kept]
        }),
        line.len() > 0 ==> views(ru@) == views(rs@).push(line) && views(r1@) == seq![line],
        line.len() == 0 ==> views(ru@) == views(rs@) && r1@.len() == 0,
{
    let nl = '\n';
    assert(feed =~= seq![nl]) by {
        lemma_same_code(feed[0], nl);
    }
    assert(!line.contains(nl));
    let none = Seq::<char>::empty();
    pieces_go_on(before, nl, none);
    assert(before + seq![nl] + none =~= s@);
    pieces_go_on(before, nl, line);
    pieces_go_on(before + feed + line, nl, none);
    assert(before + feed + line + seq![nl] + none =~= t@);
    pieces_go_on(line, nl, none);
    assert(line + seq![nl] + none =~= first@);
    pieces_go_on(none, nl, line);
    if line.len() > 0 {
        if line.last() as u32 == 13 {
            lemma_same_code(line.last(), '\r');
        }
    }
    let p = pieces(before, nl);
    let cr = |x: Seq<char>| without_cr(x);
    assert(p.push(none).drop_last() =~= p);
    assert(p.push(line).drop_last() =~= p);
    assert(p.push(line).push(none).drop_last() =~= p.push(line));
    assert(p.push(line).map_values(cr) =~= p.map_values(cr).push(without_cr(line)));
    assert(seq![line].push(none).drop_last() =~= seq![line]);
    assert(seq![line].map_values(cr) =~= seq![without_cr(line)]);
    assert(seq![line].drop_last() =~= Seq::<Seq<char>>::empty());
    assert(seq![line].drop_last().map_values(cr) =~= Seq::<Seq<char>>::empty());
    assert(Seq::<Seq<char>>::empty().push(line) =~= seq![line]);
    assert(views(r1@).len() == r1@.len());
}

proof fn lemma_same_code(c: char, d: char)
    requires
        c as u32 == d as u32,
    ensures
        c == d,
{
}

/// The runs of two texts with a separator between them are those of the one and those of the other.
proof fn lemma_runs_split(a: Seq<char>, c: char, b: Seq<char>, sep: spec_fn(char) -> bool)
    requires
        sep(c),
    ensures
        runs(a + seq![c] + b, sep) == runs(a, sep) + runs(b, sep),
    decreases b.len(),
{
    let s = a + seq![c] + b;
    if b.len() == 0 {
        assert(s.drop_last() =~= a);
        assert(s.last() == c);
        assert(runs(a, sep) + runs(b, sep) =~= runs(a, sep));
    } else {
        let d = b.drop_last();
        lemma_runs_split(a, c, d, sep);
        assert(s.drop_last() =~= a + seq![c] + d);
        assert(s.last() == b.last());
        if !sep(b.last()) {
            if b.len() == 1 {
                assert(s[s.len() - 2] == c);
                assert(d =~= Seq::<char>::empty());
                assert(runs(s, sep) =~= runs(a, sep) + runs(b, sep));
            } else {
                assert(s[s.len() - 2] == b[b.len() - 2]);
                if sep(b[b.len() - 2]) {
                    assert(runs(s, sep) =~= runs(a, sep) + runs(b, sep));
                } else {
                    lemma_run_open(d, sep);
                    assert(runs(s, sep) =~= runs(a, sep) + runs(b, sep));
                }
            }
        }
    }
}

proof fn lemma_run_open(s: Seq<char>, sep: spec_fn(char) -> bool)
    requires
        s.len() > 0,
        !sep(s.last()),
    ensures
        runs(s, sep).len() > 0,
{
}

/// A text without separators is one run.
proof fn lemma_one_run(s: Seq<char>, sep: spec_fn(char) -> bool)
    requires
        s.len() > 0,
        forall|i: int| 0 <= i < s.len() ==> !sep(#[trigger] s[i]),
    ensures
        runs(s, sep) == seq![s],
    decreases s.len(),
{
    let d = s.drop_last();
    if d.len() == 0 {
        assert(runs(d, sep) =~= Seq::<Seq<char>>::empty());
        assert(seq![s.last()] =~= s);
        assert(runs(s, sep) =~= seq![s]);
    } else {
        assert forall|i: int| 0 <= i < d.len() implies !sep(#[trigger] d[i]) by {
            assert(d[i] == s[i]);
        }
        lemma_one_run(d, sep);
        assert(!sep(s[s.len() - 2]));
        assert(d.push(s.last()) =~= s);
        assert(runs(s, sep) =~= seq![s]);
    }
}

/// The words of two texts with white space between them are those of the one and those of the other,
/// and a text without white space is one word. The same holds of runs of digits, which all else
/// separates.
pub proof fn words_go_on(
    a: &str,
    c: char,
    b: &str,
    s: &str,
    wa: Vec<&str>,
    wb: Vec<&str>,
    ws: Vec<&str>,
    da: Vec<&str>,
    db: Vec<&str>,
    ds: Vec<&str>,
    white_c: bool,
)
    requires
        s@ == a@ + seq![c] + b@,
        call_ensures(is_whitespace, (c,), white_c),
        call_ensures(words, (a,), wa),
        call_ensures(words, (b,), wb),
        call_ensures(words, (s,), ws),
        call_ensures(digit_runs, (a,), da),
        call_ensures(digit_runs, (b,), db),
        call_ensures(digit_runs, (s,), ds),
    ensures
        white_c ==> views(ws@) == views(wa@) + views(wb@),
        !(48 <= c as u32 <= 57) ==> views(ds@) == views(da@) + views(db@),
        a@.len() == 0 ==> wa@.len() == 0 && da@.len() == 0,
        a@.len() > 0 && (forall|i: int| 0 <= i < a@.len() ==> !is_white(#[trigger] a@[i])) ==> views(
            wa@,
        ) == seq![a@],
        a@.len() > 0 && has_digit_codes(a@) ==> views(da@) == seq![a@],
{
    if white_c {
        lemma_runs_split(a@, c, b@, white());
    }
    if !(48 <= c as u32 <= 57) {
        lemma_runs_split(a@, c, b@, not_digit());
    }
    assert(views(wa@).len() == wa@.len());
    assert(views(da@).len() == da@.len());
    if a@.len() > 0 {
        if forall|i: int| 0 <= i < a@.len() ==> !is_white(#[trigger] a@[i]) {
            lemma_one_run(a@, white());
        }
        if has_digit_codes(a@) {
            lemma_digit_codes(a@);
            lemma_one_run(a@, not_digit());
        }
    }
}

/// The first word is what stands behind the first white space and before the next; there is none
/// where there is nothing else. The leading digits are what stands before the first character that is
/// no digit.
pub proof fn fronts_are_taken(
    s: &str,
    before: Seq<char>,
    word: Seq<char>,
    after: Seq<char>,
    r: Option<&str>,
    t: &str,
    digits: Seq<char>,
    rest: Seq<char>,
    d: &str,
)
    requires
        s@ == before + word + after,
        forall|i: int| 0 <= i < before.len() ==> is_white(#[trigger] before[i]),
        forall|i: int| 0 <= i < word.len() ==> !is_white(#[trigger] word[i]),
        after.len() > 0 ==> word.len() > 0 && is_white(after[0]),
        call_ensures(first_word, (s,), r),
        t@ == digits + rest,
        has_digit_codes(digits),
        rest.len() > 0 ==> !(48 <= rest[0] as u32 <= 57),
        call_ensures(leading_digits, (t,), d),
    ensures
        word.len() > 0 ==> (r matches Some(w) && w@ == word),
        word.len() == 0 ==> r is None,
        d@ == digits,
{
    lemma_trims(s@, white());
    let f = trim_front(s@, white());
    let cut = s@.len() - f.len();
    if word.len() > 0 {
        assert(s@[before.len() as int] == word[0]);
        if cut < before.len() {
            assert(f[0] == s@[cut]);
            assert(s@[cut] == before[cut]);
        }
        if cut > before.len() {
            assert(white()(s@[before.len() as int]));
        }
        assert(f =~= word + after);
        assert(forall|k: int| 0 <= k < word.len() ==> f[k] == word[k]);
        if after.len() > 0 {
            assert(f[word.len() as int] == after[0]);
        }
        lemma_until_white(f, word.len() as int);
        assert(f.take(word.len() as int) =~= word);
    } else {
        if f.len() > 0 {
            assert(f[0] == s@[cut]);
            assert(s@[cut] == before[cut]);
        }
    }
    lemma_digit_codes(digits);
    assert(forall|k: int| 0 <= k < digits.len() ==> t@[k] == digits[k]);
    if rest.len() > 0 {
        assert(t@[digits.len() as int] == rest[0]);
    }
    lemma_leading_digits(t@, digits.len() as int);
    assert(t@.take(digits.len() as int) =~= digits);
}

/// Trimming one character from the front, or from the end, leaves what follows it, or goes before it.
pub proof fn one_side_is_trimmed(
    s: &str,
    d: char,
    pad: Seq<char>,
    t: Seq<char>,
    front: &str,
    u: &str,
    back: &str,
)
    requires
        forall|i: int| 0 <= i < pad.len() ==> #[trigger] pad[i] == d,
        s@ == pad + t,
        t.len() > 0 ==> t[0] != d,
        call_ensures(trim_start_matches, (s, d), front),
        u@ == t + pad,
        call_ensures(trim_end_matches, (u, d), back),
    ensures
        front@ == t,
        t.len() == 0 || t.last() != d ==> back@ == t,
{
    lemma_trims(s@, only(d));
    let f = trim_front(s@, only(d));
    let cut = s@.len() - f.len();
    if cut < pad.len() {
        assert(f[0] == s@[cut]);
        assert(s@[cut] == pad[cut]);
    }
    if cut > pad.len() {
        assert(s@[pad.len() as int] == t[0]);
        assert(only(d)(s@[pad.len() as int]));
    }
    assert(f =~= t);
    if t.len() == 0 || t.last() != d {
        lemma_trims(u@, only(d));
        let b = trim_back(u@, only(d));
        if b.len() > t.len() {
            assert(b.last() == u@[b.len() - 1]);
            assert(u@[b.len() - 1] == pad[b.len() - 1 - t.len()]);
        }
        if b.len() < t.len() {
            assert(u@[t.len() - 1] == t.last());
            assert(only(d)(u@[t.len() - 1]));
        }
        assert(b =~= t);
    }
}

/// Digits stand for what they are worth, as far as that may be.
pub proof fn digits_stand_for_their_worth(s: Seq<char>, max: nat)
    requires
        s.len() > 0,
        has_digit_codes(s),
    ensures
        worth(s, 0) <= max ==> digits_up_to(s, max) == Some(worth(s, 0)) && unsigned(s, max) == Some(
            worth(s, 0),
        ),
        worth(s, 0) > max ==> digits_up_to(s, max) is None && unsigned(s, max) is None,
        all_digits(s),
{
    lemma_digit_codes(s);
    lemma_worth_is_number(s);
    assert(is_digit(s[0]));
}

} // verus!
