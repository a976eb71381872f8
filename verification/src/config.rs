//! The settings of the service: where it listens, where its data lives, and
//! how it signs tokens. They are built once, from the values that the
//! process was started with, and never change afterwards.

use vstd::prelude::*;
use vstd::string::*;

verus! {

/// The address that the server binds to.
#[derive(Debug, Clone, PartialEq, Eq)]
pub struct Server(pub String);

/// The connection string of the database.
#[derive(Debug, Clone, PartialEq, Eq)]
pub struct Database(pub String);

/// The secret that signs tokens and the lifetime of a token, in seconds.
#[derive(Debug, Clone, PartialEq, Eq)]
pub struct Auth {
    pub secret: String,
    pub expire: u64,
}

/// All settings of the service.
#[derive(Debug, Clone, PartialEq, Eq)]
pub struct Env {
    pub server: Server,
    pub database: Database,
    pub auth: Auth,
}

/// The settings as plain text and a number.
pub struct EnvView {
    pub server: Seq<char>,
    pub database: Seq<char>,
    pub secret: Seq<char>,
    pub expire: u64,
}

impl View for Env {
    type V = EnvView;

    open spec fn view(&self) -> EnvView {
        EnvView {
            server: self.server.0@,
            database: self.database.0@,
            secret: self.auth.secret@,
            expire: self.auth.expire,
        }
    }
}

/// What a decimal digit counts for; zero for any other character.
pub open spec fn digit_value(c: char) -> nat {
    if '0' <= c <= '9' {
        (c as u32 - '0' as u32) as nat
    } else {
        0
    }
}

/// Whether every character of `s` is a decimal digit.
pub open spec fn all_digits(s: Seq<char>) -> bool {
    forall|i: int| 0 <= i < s.len() ==> '0' <= #[trigger] s[i] <= '9'
}

/// The number that the digits of `s` write in base ten.
pub open spec fn digits_value(s: Seq<char>) -> nat
    decreases s.len(),
{
    if s.len() == 0 {
        0
    } else {
        10 * digits_value(s.drop_last()) + digit_value(s.last())
    }
}

/// The text without the plus sign that may lead it.
pub open spec fn without_plus(s: Seq<char>) -> Seq<char> {
    if s.len() > 0 && s[0] == '+' {
        s.subrange(1, s.len() as int)
    } else {
        s
    }
}

/// The number that `s` writes: an optional plus sign, then one decimal digit
/// or more, with a value that fits in 64 bits. Anything else writes none.
pub open spec fn parsed_u64(s: Seq<char>) -> Option<u64> {
    let digits = without_plus(s);
    if digits.len() > 0 && all_digits(digits) && digits_value(digits) <= u64::MAX {
        Some(digits_value(digits) as u64)
    } else {
        None
    }
}

/// The value of a run of digits is at least the value of any run that it
/// starts with.
proof fn lemma_prefix_value(s: Seq<char>, k: int)
    requires
        0 <= k <= s.len(),
    ensures
        digits_value(s.subrange(0, k)) <= digits_value(s),
    decreases s.len() - k,
{
    if k == s.len() {
        assert(s.subrange(0, k) =~= s);
    } else {
        lemma_prefix_value(s.drop_last(), k);
        assert(s.drop_last().subrange(0, k) =~= s.subrange(0, k));
    }
}

/// Reads a number of seconds, or any other unsigned number, from text.
pub fn parse_u64(s: &str) -> (r: Option<u64>)
    ensures
        r == parsed_u64(s@),
{
    let n: usize = s.unicode_len();
    if n == 0 {
        return None;
    }
    let start: usize = if s.get_char(0) == '+' {
        1
    } else {
        0
    };
    if start == n {
        return None;
    }
    let ghost digits = without_plus(s@);
    let mut acc: u64 = 0;
    let mut i: usize = start;
    while i < n
        invariant
            start <= i <= n,
            n == s@.len(),
            digits == without_plus(s@),
            digits == s@.subrange(start as int, n as int),
            all_digits(digits.subrange(0, i - start)),
            acc == digits_value(digits.subrange(0, i - start)),
        decreases n - i,
    {
        let c: char = s.get_char(i);
        let ghost seen = digits.subrange(0, i - start);
        let ghost next = digits.subrange(0, i - start + 1);
        assert(digits[i - start] == c);
        if (c as u32) < ('0' as u32) || (c as u32) > ('9' as u32) {
            return None;
        }
        let d: u64 = ((c as u32) - ('0' as u32)) as u64;
        assert(next.drop_last() =~= seen);
        proof {
            lemma_prefix_value(digits, i - start + 1);
        }
        if acc > (u64::MAX - d) / 10 {
            return None;
        }
        acc = acc * 10 + d;
        i = i + 1;
    }
    assert(digits.subrange(0, i - start) =~= digits);
    Some(acc)
}

/// The lifetime that the value of `AUTH_EXPIRE` stands for: ten hours where
/// the variable is not set, else the number that its text writes, if it
/// writes one.
pub open spec fn lifetime_from(auth_expire: Option<Seq<char>>) -> Option<u64> {
    match auth_expire {
        Some(text) => parsed_u64(text),
        None => Some(36000u64),
    }
}

/// The settings that four optional texts stand for, where the lifetime can
/// be read: each text that is absent is replaced by its default.
pub open spec fn settings_from(
    server_addr: Option<Seq<char>>,
    database_url: Option<Seq<char>>,
    auth_secret: Option<Seq<char>>,
    auth_expire: Option<Seq<char>>,
) -> EnvView
    recommends
        lifetime_from(auth_expire) is Some,
{
    EnvView {
        server: match server_addr {
            Some(text) => text,
            None => "default"@,
        },
        database: match database_url {
            Some(text) => text,
            None => ""@,
        },
        secret: match auth_secret {
            Some(text) => text,
            None => "aksumer-api"@,
        },
        expire: lifetime_from(auth_expire).unwrap(),
    }
}

/// The view of a text that may be absent.
pub open spec fn text_of(value: Option<String>) -> Option<Seq<char>> {
    match value {
        Some(text) => Some(text@),
        None => None,
    }
}

impl Env {
    /// Builds the settings from the values of `SERVER_ADDR`, `DATABASE_URL`,
    /// `AUTH_SECRET` and `AUTH_EXPIRE`, each `None` where the variable is not
    /// set. A lifetime that is set must write a number: with any other text
    /// there are no settings, and the process must not go on. `parse_u64`
    /// tells whether a text writes one.
    pub fn init(
        server_addr: Option<String>,
        database_url: Option<String>,
        auth_secret: Option<String>,
        auth_expire: Option<String>,
    ) -> (env: Env)
        requires
            lifetime_from(text_of(auth_expire)) is Some,
        ensures
            env@ == settings_from(
                text_of(server_addr),
                text_of(database_url),
                text_of(auth_secret),
                text_of(auth_expire),
            ),
    {
        let expire: u64 = match &auth_expire {
            Some(text) => match parse_u64(text.as_str()) {
                Some(seconds) => seconds,
                None => unreached(),
            },
            None => 36000,
        };
        let server = match server_addr {
            Some(text) => text,
            None => String::from_str("default"),
        };
        let database = match database_url {
            Some(text) => text,
            None => String::from_str(""),
        };
        let secret = match auth_secret {
            Some(text) => text,
            None => String::from_str("aksumer-api"),
        };
        Env { server: Server(server), database: Database(database), auth: Auth { secret, expire } }
    }
}

} // verus!
