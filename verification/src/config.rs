//! Settings of the service: the database to read from and the address to
//! listen on, each taken from the environment or from a fixed default.

use vstd::prelude::*;
use vstd::string::*;

verus! {

/// What the environment holds for each variable the service reads; `None`
/// where a variable is not set.
#[derive(Debug, Clone, PartialEq, Eq)]
pub struct Environment {
    /// `DB_HOST`
    pub db_host: Option<String>,
    /// `DB_USER`
    pub db_user: Option<String>,
    /// `DB_PASSWORD`
    pub db_password: Option<String>,
    /// `DB_NAME`
    pub db_name: Option<String>,
    /// `SERVER_HOST`
    pub server_host: Option<String>,
    /// `SERVER_PORT`
    pub server_port: Option<String>,
}

/// The settings the service runs with.
#[derive(Debug, Clone, PartialEq, Eq)]
pub struct Settings {
    pub db_host: String,
    pub db_user: String,
    pub db_password: String,
    pub db_name: String,
    pub server_host: String,
    pub server_port: u16,
}

/// Mathematical content of [`Settings`].
pub struct SettingsView {
    pub db_host: Seq<char>,
    pub db_user: Seq<char>,
    pub db_password: Seq<char>,
    pub db_name: Seq<char>,
    pub server_host: Seq<char>,
    pub server_port: u16,
}

impl View for Settings {
    type V = SettingsView;

    open spec fn view(&self) -> SettingsView {
        SettingsView {
            db_host: self.db_host@,
            db_user: self.db_user@,
            db_password: self.db_password@,
            db_name: self.db_name@,
            server_host: self.server_host@,
            server_port: self.server_port,
        }
    }
}

/// Why no settings could be made.
#[derive(Debug, Clone, PartialEq, Eq)]
pub enum ConfigError {
    /// The port is not a number from 0 to 65535; `text` is what was given.
    InvalidPort { text: String },
}

/// `c` is one of the decimal digits `0` to `9`.
pub open spec fn is_digit(c: char) -> bool {
    '0' <= c <= '9'
}

/// The number that a sequence of decimal digits writes.
pub open spec fn decimal_value(digits: Seq<char>) -> int
    decreases digits.len(),
{
    if digits.len() == 0 {
        0
    } else {
        10 * decimal_value(digits.drop_last()) + (digits.last() as int - '0' as int)
    }
}

/// The text of a port without the one `+` that may stand before its digits.
pub open spec fn unsigned_part(text: Seq<char>) -> Seq<char> {
    if text.len() > 0 && text[0] == '+' {
        text.drop_first()
    } else {
        text
    }
}

/// The port that `text` writes: an optional `+`, then one or more decimal
/// digits and nothing else, whose number is at most 65535. Any other text,
/// the empty one and a lone `+` included, writes no port.
pub open spec fn port_of(text: Seq<char>) -> Option<u16> {
    let digits = unsigned_part(text);
    if digits.len() > 0 && (forall|i: int| 0 <= i < digits.len() ==> is_digit(#[trigger] digits[i]))
        && decimal_value(digits) <= u16::MAX {
        Some(decimal_value(digits) as u16)
    } else {
        None
    }
}

/// A sequence of digits writes a number that is not negative and not smaller
/// than the number written by any of its beginnings.
proof fn lemma_decimal_value_grows(digits: Seq<char>, n: int)
    requires
        0 <= n <= digits.len(),
        forall|i: int| 0 <= i < digits.len() ==> is_digit(#[trigger] digits[i]),
    ensures
        0 <= decimal_value(digits.take(n)) <= decimal_value(digits),
    decreases digits.len() - n,
{
    if n == digits.len() {
        assert(digits.take(n) =~= digits);
        lemma_decimal_value_bounds(digits);
    } else {
        lemma_decimal_value_grows(digits, n + 1);
        assert(digits.take(n + 1).drop_last() =~= digits.take(n));
        lemma_decimal_value_bounds(digits.take(n));
    }
}

/// A sequence of digits writes a number that is not negative.
proof fn lemma_decimal_value_bounds(digits: Seq<char>)
    requires
        forall|i: int| 0 <= i < digits.len() ==> is_digit(#[trigger] digits[i]),
    ensures
        0 <= decimal_value(digits),
    decreases digits.len(),
{
    if digits.len() > 0 {
        lemma_decimal_value_bounds(digits.drop_last());
    }
}

/// Reads a port number from its decimal text.
pub fn parse_port(text: &str) -> (port: Option<u16>)
    ensures
        port == port_of(text@),
{
    let n = text.unicode_len();
    let start: usize = if n > 0 && text.get_char(0) == '+' {
        1
    } else {
        0
    };
    let ghost digits = unsigned_part(text@);
    assert(digits =~= text@.subrange(start as int, n as int));
    if start == n {
        return None;
    }
    let mut value: u32 = 0;
    let mut i: usize = start;
    while i < n
        invariant
            start <= i <= n,
            n == text@.len(),
            digits == text@.subrange(start as int, n as int),
            digits == unsigned_part(text@),
            forall|k: int| 0 <= k < i - start ==> is_digit(#[trigger] digits[k]),
            value == decimal_value(digits.take(i - start)),
            value <= u16::MAX,
        decreases n - i,
    {
        let c = text.get_char(i);
        assert(c == digits[i - start]);
        if c < '0' || c > '9' {
            assert(!is_digit(digits[i - start]));
            return None;
        }
        let digit: u32 = c as u32 - '0' as u32;
        assert(digits.take(i - start + 1).drop_last() =~= digits.take(i - start));
        let wider: u32 = value * 10 + digit;
        if wider > 65535 {
            proof {
                if forall|k: int| 0 <= k < digits.len() ==> is_digit(#[trigger] digits[k]) {
                    lemma_decimal_value_grows(digits, i - start + 1);
                }
            }
            return None;
        }
        value = wider;
        i += 1;
    }
    assert(digits.take(n - start) =~= digits);
    Some(value as u16)
}

/// The value of a variable: what the environment holds for it, or the
/// default where it holds nothing.
pub open spec fn value_or(value: Option<String>, default: Seq<char>) -> Seq<char> {
    match value {
        Some(text) => text@,
        None => default,
    }
}

/// The settings that follow from an environment, where its port can be read:
/// unset variables take the defaults `localhost`, `postgres`, the empty
/// password, `machine_data`, `127.0.0.1` and `8080`.
pub open spec fn settings_of(env: Environment) -> Option<SettingsView> {
    match port_of(value_or(env.server_port, "8080"@)) {
        Some(server_port) => Some(
            SettingsView {
                db_host: value_or(env.db_host, "localhost"@),
                db_user: value_or(env.db_user, "postgres"@),
                db_password: value_or(env.db_password, ""@),
                db_name: value_or(env.db_name, "machine_data"@),
                server_host: value_or(env.server_host, "127.0.0.1"@),
                server_port,
            },
        ),
        None => None,
    }
}

/// The digits `8080` write the port 8080.
proof fn lemma_default_port()
    ensures
        port_of("8080"@) == Some(8080u16),
{
    reveal_strlit("8080");
    let text = "8080"@;
    assert(unsigned_part(text) == text);
    reveal_with_fuel(decimal_value, 5);
    assert(text.drop_last() =~= seq!['8', '0', '8']);
    assert(text.drop_last().drop_last() =~= seq!['8', '0']);
    assert(text.drop_last().drop_last().drop_last() =~= seq!['8']);
    assert(text.drop_last().drop_last().drop_last().drop_last() =~= Seq::<char>::empty());
    assert(decimal_value(text) == 8080);
}

/// Takes what the environment holds for a variable, or the default.
pub fn or_default(value: Option<String>, default: &str) -> (text: String)
    ensures
        text@ == value_or(value, default@),
{
    match value {
        Some(text) => text,
        None => String::from_str(default),
    }
}

impl Settings {
    /// Makes the settings from what the environment holds. The port is the
    /// only value that is checked: where its text writes no port, that text
    /// is returned as the error and no settings are made.
    pub fn from_environment(env: Environment) -> (r: Result<Settings, ConfigError>)
        ensures
            match settings_of(env) {
                Some(settings) => r matches Ok(made) && made@ == settings,
                None => r matches Err(ConfigError::InvalidPort { text }) && text@ == value_or(
                    env.server_port,
                    "8080"@,
                ),
            },
    {
        let port_text = or_default(env.server_port, "8080");
        match parse_port(port_text.as_str()) {
            Some(server_port) => Ok(
                Settings {
                    db_host: or_default(env.db_host, "localhost"),
                    db_user: or_default(env.db_user, "postgres"),
                    db_password: or_default(env.db_password, ""),
                    db_name: or_default(env.db_name, "machine_data"),
                    server_host: or_default(env.server_host, "127.0.0.1"),
                    server_port,
                },
            ),
            None => Err(ConfigError::InvalidPort { text: port_text }),
        }
    }
}

/// With nothing set in the environment the settings are the defaults, and
/// making them cannot fail.
pub proof fn lemma_defaults()
    ensures
        settings_of(
            Environment {
                db_host: None,
                db_user: None,
                db_password: None,
                db_name: None,
                server_host: None,
                server_port: None,
            },
        ) == Some(
            SettingsView {
                db_host: "localhost"@,
                db_user: "postgres"@,
                db_password: ""@,
                db_name: "machine_data"@,
                server_host: "127.0.0.1"@,
                server_port: 8080u16,
            },
        ),
{
    lemma_default_port();
}

/// Only the port can stand in the way of the settings: they are made exactly
/// when the port's text, or `8080` in its place, writes a port.
pub proof fn lemma_only_port_is_checked(env: Environment)
    ensures
        settings_of(env) is Some <==> port_of(value_or(env.server_port, "8080"@)) is Some,
        env.server_port is None ==> settings_of(env) is Some,
{
    lemma_default_port();
}

} // verus!
