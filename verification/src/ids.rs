//! Session identifiers and secret tokens: hexadecimal text and what it stands for.
//!
//! An identifier is a UUID held as its 128-bit value.
use vstd::prelude::*;
use vstd::string::*;

verus! {

/// The hexadecimal digit `d`, in lower case.
pub open spec fn hex_char(d: int) -> char {
    if d < 10 {
        (48 + d) as char
    } else {
        (87 + d) as char
    }
}

/// The last `len` hexadecimal digits of `n`.
pub open spec fn hexed(n: nat, len: nat) -> Seq<char>
    decreases len,
{
    if len == 0 {
        Seq::empty()
    } else {
        hexed(n / 16, (len - 1) as nat).push(hex_char((n % 16) as int))
    }
}

/// Whether `c` is a hexadecimal digit, in lower or upper case.
pub open spec fn is_hex(c: char) -> bool {
    '0' <= c <= '9' || 'a' <= c <= 'f' || 'A' <= c <= 'F'
}

/// What the hexadecimal digit `c` is worth.
pub open spec fn hex_value(c: char) -> nat {
    if c <= '9' {
        (c as int - 48) as nat
    } else if c <= 'F' {
        (c as int - 55) as nat
    } else {
        (c as int - 87) as nat
    }
}

/// The number that a text of hexadecimal digits stands for.
pub open spec fn hex_number(s: Seq<char>) -> nat
    decreases s.len(),
{
    if s.len() == 0 {
        0
    } else {
        hex_number(s.drop_last()) * 16 + hex_value(s.last())
    }
}

/// The canonical text of an identifier: 32 hexadecimal digits in groups of 8, 4, 4, 4 and 12,
/// with hyphens between the groups.
pub open spec fn uuid_text(id: u128) -> Seq<char> {
    let d = hexed(id as nat, 32);
    d.subrange(0, 8) + seq!['-'] + d.subrange(8, 12) + seq!['-'] + d.subrange(12, 16) + seq!['-']
        + d.subrange(16, 20) + seq!['-'] + d.subrange(20, 32)
}

/// The digits of a text of 36 characters that has hyphens where `uuid_text` puts them.
pub open spec fn unhyphenated(s: Seq<char>) -> Option<Seq<char>> {
    if s[8] == '-' && s[13] == '-' && s[18] == '-' && s[23] == '-' {
        Some(
            s.subrange(0, 8) + s.subrange(9, 13) + s.subrange(14, 18) + s.subrange(19, 23)
                + s.subrange(24, 36),
        )
    } else {
        None
    }
}

/// Whether `s` begins with `urn:uuid:` in any mix of cases.
pub open spec fn is_urn(s: Seq<char>) -> bool {
    &&& s[0] == 'u' || s[0] == 'U'
    &&& s[1] == 'r' || s[1] == 'R'
    &&& s[2] == 'n' || s[2] == 'N'
    &&& s[3] == ':'
    &&& s[4] == 'u' || s[4] == 'U'
    &&& s[5] == 'u' || s[5] == 'U'
    &&& s[6] == 'i' || s[6] == 'I'
    &&& s[7] == 'd' || s[7] == 'D'
    &&& s[8] == ':'
}

/// The places of the digits in a text that could be an identifier: plain, hyphenated, in
/// braces, or as a URN.
pub open spec fn uuid_digits(s: Seq<char>) -> Option<Seq<char>> {
    if s.len() == 32 {
        Some(s)
    } else if s.len() == 36 {
        unhyphenated(s)
    } else if s.len() == 38 && s[0] == '{' && s[37] == '}' {
        unhyphenated(s.subrange(1, 37))
    } else if s.len() == 45 && is_urn(s) {
        unhyphenated(s.skip(9))
    } else {
        None
    }
}

/// The identifier that a text stands for.
pub open spec fn uuid_of(s: Seq<char>) -> Option<u128> {
    match uuid_digits(s) {
        Some(d) => if forall|i: int| 0 <= i < d.len() ==> is_hex(#[trigger] d[i]) {
            Some(hex_number(d) as u128)
        } else {
            None
        },
        None => None,
    }
}

/// Calls `uuid::Uuid::parse_str`, which reads an identifier from hexadecimal digits, in either
/// case: 32 of them alone; or with hyphens at the canonical places, and then also in braces or
/// behind `urn:uuid:`. Any other text is an error, handed back as `None`.
#[verifier::external_body]
pub(crate) fn parse_uuid(s: &str) -> (r: Option<u128>)
    ensures
        r == uuid_of(s@),
{
    uuid::Uuid::parse_str(s).ok().map(|u| u.as_u128())
}

/// Calls `uuid::Uuid`'s `to_string`, which writes the canonical lower-case text with hyphens.
#[verifier::external_body]
pub(crate) fn uuid_string(id: u128) -> (r: String)
    ensures
        r@ == uuid_text(id),
{
    uuid::Uuid::from_u128(id).to_string()
}

/// Whether `id` has the version and the variant of a random identifier.
pub open spec fn is_random_uuid(id: u128) -> bool {
    let d = hexed(id as nat, 32);
    d[12] == '4' && (d[16] == '8' || d[16] == '9' || d[16] == 'a' || d[16] == 'b')
}

/// Calls `uuid::Uuid::new_v4`, which draws 122 bits from the operating system and sets the
/// other six to version 4 and the RFC variant. Which identifier comes, and that it differs
/// from earlier ones, is up to chance and not stated. The call panics where the operating
/// system has no randomness to give.
#[verifier::external_body]
pub(crate) fn new_random_uuid() -> (r: u128)
    ensures
        is_random_uuid(r),
{
    uuid::Uuid::new_v4().as_u128()
}

/// The hexadecimal text of a list of bytes, two digits for each.
pub open spec fn hex_bytes(b: Seq<u8>) -> Seq<char>
    decreases b.len(),
{
    if b.len() == 0 {
        Seq::empty()
    } else {
        hex_bytes(b.drop_last()).push(hex_char(b.last() as int / 16)).push(
            hex_char(b.last() as int % 16),
        )
    }
}

fn hex_digit(d: u8) -> (c: char)
    requires
        d < 16,
    ensures
        c == hex_char(d as int),
{
    if d < 10 {
        (48 + d) as char
    } else {
        (87 + d) as char
    }
}

fn hex_token(bytes: &[u8]) -> (r: String)
    ensures
        r@ == hex_bytes(bytes@),
{
    let mut out = String::new();
    assert(bytes@.take(0) =~= Seq::<u8>::empty());
    for i in 0..bytes.len()
        invariant
            out@ == hex_bytes(bytes@.take(i as int)),
    {
        let b = bytes[i];
        assert(bytes@.take(i + 1).drop_last() =~= bytes@.take(i as int));
        out.push(hex_digit(b / 16));
        out.push(hex_digit(b % 16));
    }
    assert(bytes@.take(bytes@.len() as int) =~= bytes@);
    out
}

/// The token with which an agent proves itself: 32 random bytes in hexadecimal.
pub fn generate_agent_token(random: &[u8; 32]) -> (r: String)
    ensures
        r@ == hex_bytes(random@),
        r@.len() == 64,
{
    proof {
        hex_bytes_shape(random@);
    }
    hex_token(random)
}

/// The token with which a closing browser tab releases its session: 8 random bytes in
/// hexadecimal.
pub fn generate_release_token(random: &[u8; 8]) -> (r: String)
    ensures
        r@ == hex_bytes(random@),
        r@.len() == 16,
{
    proof {
        hex_bytes_shape(random@);
    }
    hex_token(random)
}

/// The hexadecimal text of bytes is twice as long as they are, and holds hexadecimal digits in
/// lower case only.
pub proof fn hex_bytes_shape(b: Seq<u8>)
    ensures
        hex_bytes(b).len() == 2 * b.len(),
        forall|i: int| 0 <= i < hex_bytes(b).len() ==> '0' <= #[trigger] hex_bytes(b)[i] <= '9' || 'a' <= hex_bytes(b)[i] <= 'f',
    decreases b.len(),
{
    if b.len() > 0 {
        hex_bytes_shape(b.drop_last());
    }
}

/// Different bytes give different tokens.
pub proof fn tokens_are_distinct(a: Seq<u8>, b: Seq<u8>)
    requires
        hex_bytes(a) == hex_bytes(b),
    ensures
        a == b,
    decreases a.len(),
{
    hex_bytes_shape(a);
    hex_bytes_shape(b);
    if a.len() > 0 {
        let x = hex_bytes(a);
        let y = hex_bytes(b);
        assert(x.drop_last().drop_last() =~= hex_bytes(a.drop_last()));
        assert(y.drop_last().drop_last() =~= hex_bytes(b.drop_last()));
        assert(x.last() == y.last());
        assert(x[x.len() - 2] == hex_char(a.last() as int / 16));
        assert(y[y.len() - 2] == hex_char(b.last() as int / 16));
        tokens_are_distinct(a.drop_last(), b.drop_last());
        assert(a =~= a.drop_last().push(a.last()));
        assert(b =~= b.drop_last().push(b.last()));
    } else {
        assert(a =~= b);
    }
}

/// The value of a one followed by `len` hexadecimal zeros.
pub open spec fn hex_limit(len: nat) -> nat
    decreases len,
{
    if len == 0 {
        1
    } else {
        16 * hex_limit((len - 1) as nat)
    }
}

proof fn lemma_hexed(n: nat, len: nat)
    requires
        n < hex_limit(len),
    ensures
        hexed(n, len).len() == len,
        forall|i: int| 0 <= i < len ==> is_hex(#[trigger] hexed(n, len)[i]),
        hex_number(hexed(n, len)) == n,
    decreases len,
{
    if len > 0 {
        lemma_hexed(n / 16, (len - 1) as nat);
        assert(hexed(n, len).drop_last() =~= hexed(n / 16, (len - 1) as nat));
    }
}

proof fn lemma_limit()
    ensures
        hex_limit(32) == 0x1_0000_0000_0000_0000_0000_0000_0000_0000int,
{
    reveal_with_fuel(hex_limit, 33);
}

/// An identifier's canonical text is read back as the identifier.
pub proof fn uuid_text_reads_back(id: u128)
    ensures
        uuid_text(id).len() == 36,
        uuid_of(uuid_text(id)) == Some(id),
{
    lemma_limit();
    lemma_hexed(id as nat, 32);
    let d = hexed(id as nat, 32);
    let s = uuid_text(id);
    assert(unhyphenated(s) is Some);
    assert(unhyphenated(s)->0 =~= d);
}

/// Different identifiers have different texts.
pub proof fn uuid_texts_are_distinct(a: u128, b: u128)
    requires
        uuid_text(a) == uuid_text(b),
    ensures
        a == b,
{
    uuid_text_reads_back(a);
    uuid_text_reads_back(b);
}

/// The code of the hexadecimal digit of a number below 16, in lower case.
pub open spec fn hex_code(d: int) -> int {
    if d <= 9 {
        48 + d
    } else {
        87 + d
    }
}

proof fn lemma_hex_places(b: Seq<u8>, i: int)
    requires
        0 <= i < b.len(),
    ensures
        hex_bytes(b).len() == 2 * b.len(),
        hex_bytes(b)[2 * i] as int == hex_code(b[i] as int / 16),
        hex_bytes(b)[2 * i + 1] as int == hex_code(b[i] as int % 16),
    decreases b.len(),
{
    let front = b.drop_last();
    hex_bytes_shape(front);
    if i < b.len() - 1 {
        lemma_hex_places(front, i);
        assert(front[i] == b[i]);
        assert(hex_bytes(b)[2 * i] == hex_bytes(front)[2 * i]);
        assert(hex_bytes(b)[2 * i + 1] == hex_bytes(front)[2 * i + 1]);
    }
}

/// A token spells all of its random bytes, two hexadecimal digits for each and in their order: 64
/// characters for an agent, and 16 for a release.
pub proof fn tokens_spell_their_bytes(
    a: &[u8; 32],
    b: &[u8; 8],
    ra: String,
    rb: String,
    i: int,
)
    requires
        call_ensures(generate_agent_token, (a,), ra),
        call_ensures(generate_release_token, (b,), rb),
    ensures
        ra@.len() == 64,
        rb@.len() == 16,
        0 <= i < 32 ==> ra@[2 * i] as int == hex_code(a@[i] as int / 16) && ra@[2 * i + 1] as int
            == hex_code(a@[i] as int % 16),
        0 <= i < 8 ==> rb@[2 * i] as int == hex_code(b@[i] as int / 16) && rb@[2 * i + 1] as int
            == hex_code(b@[i] as int % 16),
{
    if 0 <= i < 32 {
        lemma_hex_places(a@, i);
    }
    if 0 <= i < 8 {
        lemma_hex_places(b@, i);
    }
}

} // verus!
