//! The tokens that a desktop shell keeps in the keyring of the operating system.
use vstd::prelude::*;
use vstd::string::*;

verus! {

/// The service that entries belong to, which all desktop shells share.
pub const SERVICE: &'static str = "com.beam.desktop";

/// The name of the entry of a user on a host.
pub open spec fn entry_key_of(host: Seq<char>, user: Seq<char>) -> Seq<char> {
    host + "|"@ + user
}

/// The name of the entry of a user on a host.
pub fn entry_key(host: &str, user: &str) -> (r: String)
    ensures
        r@ == entry_key_of(host@, user@),
{
    host.to_owned().concat("|").concat(user)
}

/// What the keyring answers.
pub enum KeyringAnswer {
    /// It was done; the text is what was read, where something was.
    Done(String),
    /// There is no such entry.
    NoEntry,
    /// It failed.
    Failed(String),
}

/// What loading a token comes to: that there is none is no error.
pub fn credentials_load(answer: KeyringAnswer) -> (r: Result<Option<String>, String>)
    ensures
        r == match answer {
            KeyringAnswer::Done(token) => Ok::<Option<String>, String>(Some(token)),
            KeyringAnswer::NoEntry => Ok(None),
            KeyringAnswer::Failed(e) => Err(e),
        },
{
    match answer {
        KeyringAnswer::Done(token) => Ok(Some(token)),
        KeyringAnswer::NoEntry => Ok(None),
        KeyringAnswer::Failed(e) => Err(e),
    }
}

/// What removing a token comes to: that there is none is no error.
pub fn credentials_clear(answer: KeyringAnswer) -> (r: Result<(), String>)
    ensures
        r == match answer {
            KeyringAnswer::Done(_) => Ok::<(), String>(()),
            KeyringAnswer::NoEntry => Ok(()),
            KeyringAnswer::Failed(e) => Err(e),
        },
{
    match answer {
        KeyringAnswer::Done(_) => Ok(()),
        KeyringAnswer::NoEntry => Ok(()),
        KeyringAnswer::Failed(e) => Err(e),
    }
}

/// Users on hosts without a bar in their names have entries of their own.
pub proof fn entries_are_distinct(
    host1: Seq<char>,
    user1: Seq<char>,
    host2: Seq<char>,
    user2: Seq<char>,
)
    requires
        !host1.contains('|'),
        !host2.contains('|'),
        entry_key_of(host1, user1) == entry_key_of(host2, user2),
    ensures
        host1 == host2,
        user1 == user2,
{
    reveal_strlit("|");
    let k = entry_key_of(host1, user1);
    let n1 = host1.len() as int;
    let n2 = host2.len() as int;
    assert(k[n1] == '|');
    assert(entry_key_of(host2, user2)[n2] == '|');
    if n1 < n2 {
        assert(host2[n1] == '|');
    } else if n2 < n1 {
        assert(host1[n2] == '|');
    }
    assert(host1 =~= k.take(n1));
    assert(host2 =~= k.take(n1));
    assert(user1 =~= k.skip(n1 + 1));
    assert(user2 =~= k.skip(n1 + 1));
}

/// What the keyring has is handed on; that it has nothing is no error; and that it fails is one. The
/// name of an entry has the host, a bar and the user.
pub proof fn keyrings_are_believed(
    answer: KeyringAnswer,
    l: Result<Option<String>, String>,
    c: Result<(), String>,
    host: &str,
    user: &str,
    key: String,
)
    requires
        call_ensures(credentials_load, (answer,), l),
        call_ensures(credentials_clear, (answer,), c),
        call_ensures(entry_key, (host, user), key),
    ensures
        answer matches KeyringAnswer::Done(t) ==> l == Ok::<Option<String>, String>(Some(t)) && c is Ok,
        answer is NoEntry ==> l == Ok::<Option<String>, String>(None) && c is Ok,
        answer matches KeyringAnswer::Failed(e) ==> l == Err::<Option<String>, String>(e) && c == Err::<
            (),
            String,
        >(e),
        key@ == host@ + seq!['|'] + user@,
{
    reveal_strlit("|");
    assert("|"@ =~= seq!['|']);
}

} // verus!
