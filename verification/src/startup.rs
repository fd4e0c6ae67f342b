//! Decisions taken when the relay starts: where its database comes from,
//! and which port it listens on.

use vstd::prelude::*;
use crate::text::chars_of;

verus! {

/// The administrator settings given on the command line or in the
/// environment.
#[derive(Debug)]
pub struct StartupArgs {
    pub admin_email: Option<String>,
    pub admin_password: Option<String>,
    pub admin_2fa_code: Option<String>,
    pub admin_auth_config: Option<String>,
    pub db_dir: Option<String>,
}

/// Where the relay's database is opened from.
#[derive(Debug)]
pub enum DbSource {
    /// A database kept in a local directory, for the given administrator.
    OfflineLocation { admin_email: String, db_dir: String },
    /// The administrator's drive, reached with a serialized auth config;
    /// the administrator's email comes from that config.
    AuthConfig { auth_config: String },
    /// The administrator's drive, reached by logging in.
    Credentials { admin_email: String, password: String, two_factor_code: Option<String> },
}

/// Chooses where the database comes from. In order of preference: an
/// administrator email with a local database directory; an auth config;
/// an administrator email with a password (and the two-factor code, if
/// given). `None` where none of these is complete.
pub fn choose_db_source(args: StartupArgs) -> (r: Option<DbSource>)
    ensures
        args.admin_email is Some && args.db_dir is Some ==> r == Some(
            DbSource::OfflineLocation {
                admin_email: args.admin_email->0,
                db_dir: args.db_dir->0,
            },
        ),
        !(args.admin_email is Some && args.db_dir is Some) && args.admin_auth_config is Some ==> r
            == Some(DbSource::AuthConfig { auth_config: args.admin_auth_config->0 }),
        !(args.admin_email is Some && args.db_dir is Some) && args.admin_auth_config is None && args.admin_email is Some
            && args.admin_password is Some ==> r == Some(
            DbSource::Credentials {
                admin_email: args.admin_email->0,
                password: args.admin_password->0,
                two_factor_code: args.admin_2fa_code,
            },
        ),
        !(args.admin_email is Some && args.db_dir is Some) && args.admin_auth_config is None && !(
        args.admin_email is Some && args.admin_password is Some) ==> r is None,
{
    match (args.admin_email, args.admin_password, args.admin_2fa_code, args.admin_auth_config, args.db_dir) {
        (Some(email), _, _, _, Some(db_dir)) => Some(
            DbSource::OfflineLocation { admin_email: email, db_dir },
        ),
        (_, _, _, Some(auth_config), _) => Some(DbSource::AuthConfig { auth_config }),
        (Some(email), Some(password), two_fa_code, _, _) => Some(
            DbSource::Credentials { admin_email: email, password, two_factor_code: two_fa_code },
        ),
        _ => None,
    }
}

/// The port the relay listens on when `PORT` does not hold one.
pub const DEFAULT_PORT: u16 = 8080;

pub open spec fn is_digit(c: char) -> bool {
    '0' <= c && c <= '9'
}

/// The number written by the decimal digits `s`.
pub open spec fn spec_digits_value(s: Seq<char>) -> int
    decreases s.len(),
{
    if s.len() == 0 {
        0
    } else {
        spec_digits_value(s.drop_last()) * 10 + (s.last() as int - '0' as int)
    }
}

/// The digits of a port number as `u16::from_str` reads them: an optional
/// `+` sign followed by at least one digit.
pub open spec fn spec_port_digits(s: Seq<char>) -> Seq<char> {
    if s.len() > 0 && s[0] == '+' {
        s.drop_first()
    } else {
        s
    }
}

/// Every character of `s` is a decimal digit.
pub open spec fn all_digits(s: Seq<char>) -> bool {
    forall|i: int| 0 <= i < s.len() ==> is_digit(#[trigger] s[i])
}

/// The value `u16::from_str` reads from `s`: an optional `+`, then one or
/// more decimal digits and nothing else, whose value fits in 16 bits.
pub open spec fn spec_parse_u16(s: Seq<char>) -> Option<u16> {
    let d = spec_port_digits(s);
    if d.len() > 0 && all_digits(d) && spec_digits_value(d) <= 65535 {
        Some(spec_digits_value(d) as u16)
    } else {
        None
    }
}

/// Reads a port number as `u16::from_str` does.
pub fn parse_port(s: &str) -> (r: Option<u16>)
    ensures
        r == spec_parse_u16(s@),
{
    let chars = chars_of(s);
    let mut start: usize = 0;
    if chars.len() > 0 && chars[0] == '+' {
        start = 1;
    }
    let ghost d = spec_port_digits(s@);
    assert(d =~= s@.subrange(start as int, s@.len() as int));
    if start == chars.len() {
        return None;
    }
    let mut acc: u32 = 0;
    let mut i: usize = start;
    while i < chars.len()
        invariant
            chars@ == s@,
            start <= i <= chars@.len(),
            d == s@.subrange(start as int, s@.len() as int),
            d == spec_port_digits(s@),
            forall|j: int| start <= j < i ==> is_digit(#[trigger] chars@[j]),
            acc as int == if spec_digits_value(s@.subrange(start as int, i as int)) < 65536 {
                spec_digits_value(s@.subrange(start as int, i as int))
            } else {
                65536
            },
            spec_digits_value(s@.subrange(start as int, i as int)) >= 0,
        decreases chars@.len() - i,
    {
        let c = chars[i];
        if c < '0' || c > '9' {
            assert(d[i - start] == c);
            assert(!is_digit(d[i - start]));
            return None;
        }
        let digit = (c as u32) - ('0' as u32);
        let ghost prefix = s@.subrange(start as int, i + 1);
        assert(prefix.drop_last() =~= s@.subrange(start as int, i as int));
        assert(prefix.last() == c);
        let next = acc * 10 + digit;
        acc = if next > 65536 { 65536 } else { next };
        i = i + 1;
    }
    assert(s@.subrange(start as int, i as int) =~= d);
    if acc <= 65535 {
        Some(acc as u16)
    } else {
        None
    }
}

/// The port given by the value of the `PORT` variable: its number where it
/// holds one, `DEFAULT_PORT` otherwise.
pub fn port_from_env_value(value: &str) -> (p: u16)
    ensures
        p == match spec_parse_u16(value@) {
            Some(n) => n,
            None => DEFAULT_PORT,
        },
{
    match parse_port(value) {
        Some(n) => n,
        None => DEFAULT_PORT,
    }
}

} // verus!
