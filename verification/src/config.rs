//! Deployment settings, resolved from what the environment holds.
//!
//! Reading the environment is the caller's business; it hands over what it
//! found under each name in an `EnvVars`. Resolution applies the defaults and
//! parses the port, and fails on a port that is not a 16-bit unsigned number.

use vstd::prelude::*;
use vstd::string::StringExecFns;

verus! {

/// Name of the variable holding the bind host.
pub const APP_HOST: &'static str = "APP_HOST";

/// Name of the variable holding the bind port.
pub const APP_PORT: &'static str = "APP_PORT";

/// Name of the variable holding the database location.
pub const DATABASE_URL: &'static str = "DATABASE_URL";

/// Name of the variable holding the upstream base URL.
pub const LLM_BASE_URL: &'static str = "LLM_BASE_URL";

/// Name of the variable holding the upstream chat path.
pub const LLM_CHAT_PATH: &'static str = "LLM_CHAT_PATH";

/// The settings the service runs with.
#[derive(Clone, Debug, PartialEq, Eq)]
pub struct Config {
    pub app_host: String,
    pub app_port: u16,
    pub database_url: String,
    pub llm_base_url: String,
    pub llm_chat_path: String,
}

/// A `Config` with its texts as character sequences.
pub struct ConfigView {
    pub app_host: Seq<char>,
    pub app_port: u16,
    pub database_url: Seq<char>,
    pub llm_base_url: Seq<char>,
    pub llm_chat_path: Seq<char>,
}

impl View for Config {
    type V = ConfigView;

    open spec fn view(&self) -> ConfigView {
        ConfigView {
            app_host: self.app_host@,
            app_port: self.app_port,
            database_url: self.database_url@,
            llm_base_url: self.llm_base_url@,
            llm_chat_path: self.llm_chat_path@,
        }
    }
}

/// What the environment holds under each of the five names; `None` for a
/// variable that is unset or not valid Unicode.
#[derive(Clone, Debug, PartialEq, Eq)]
pub struct EnvVars {
    pub app_host: Option<String>,
    pub app_port: Option<String>,
    pub database_url: Option<String>,
    pub llm_base_url: Option<String>,
    pub llm_chat_path: Option<String>,
}

/// Why no configuration could be resolved.
#[derive(Clone, Debug, PartialEq, Eq)]
pub enum ConfigError {
    /// The port text, kept as found, is not a 16-bit unsigned decimal number.
    InvalidPort(String),
}

pub open spec fn is_digit(c: char) -> bool {
    '0' <= c <= '9'
}

pub open spec fn digit_value(c: char) -> nat {
    if is_digit(c) {
        (c as int - '0' as int) as nat
    } else {
        0
    }
}

pub open spec fn all_digits(s: Seq<char>) -> bool {
    forall|i: int| 0 <= i < s.len() ==> is_digit(#[trigger] s[i])
}

/// The number a string of decimal digits denotes, most significant first.
pub open spec fn decimal_value(s: Seq<char>) -> nat
    decreases s.len(),
{
    if s.len() == 0 {
        0
    } else {
        decimal_value(s.drop_last()) * 10 + digit_value(s.last())
    }
}

/// The digits of a port text: the text without one leading `+`.
pub open spec fn port_digits(s: Seq<char>) -> Seq<char> {
    if s.len() > 0 && s.first() == '+' {
        s.drop_first()
    } else {
        s
    }
}

/// The port a text denotes: an optional `+`, then one or more decimal digits
/// whose value fits 16 bits. Anything else, surrounding whitespace included,
/// denotes none.
pub open spec fn parse_port_spec(s: Seq<char>) -> Option<u16> {
    let digits = port_digits(s);
    if digits.len() > 0 && all_digits(digits) && decimal_value(digits) <= u16::MAX {
        Some(decimal_value(digits) as u16)
    } else {
        None
    }
}

/// The text of a setting: what the environment holds, else the default.
pub open spec fn or_default(found: Option<String>, default: Seq<char>) -> Seq<char> {
    match found {
        Some(text) => text@,
        None => default,
    }
}

/// The configuration an environment resolves to, if its port is valid.
pub open spec fn resolve(env: EnvVars) -> Option<ConfigView> {
    match parse_port_spec(or_default(env.app_port, "3000"@)) {
        Some(port) => Some(
            ConfigView {
                app_host: or_default(env.app_host, "127.0.0.1"@),
                app_port: port,
                database_url: or_default(env.database_url, "sqlite://data/app.db"@),
                llm_base_url: or_default(env.llm_base_url, "http://127.0.0.1:8000"@),
                llm_chat_path: or_default(env.llm_chat_path, "/v1/chat/completions"@),
            },
        ),
        None => None,
    }
}

/// A longer digit string denotes at least as much as any of its prefixes.
pub proof fn lemma_decimal_value_prefix(s: Seq<char>, k: int)
    requires
        0 <= k <= s.len(),
    ensures
        decimal_value(s.take(k)) <= decimal_value(s),
    decreases s.len() - k,
{
    if k == s.len() {
        assert(s.take(k) =~= s);
    } else {
        lemma_decimal_value_prefix(s.drop_last(), k);
        assert(s.drop_last().take(k) =~= s.take(k));
    }
}

/// The default port text denotes port 3000.
pub proof fn lemma_default_port()
    ensures
        parse_port_spec("3000"@) == Some(3000u16),
{
    reveal_strlit("3000");
    reveal_with_fuel(decimal_value, 5);
    assert(port_digits("3000"@) == "3000"@);
    assert(decimal_value("3000"@) == 3000);
}

/// With nothing set in the environment, resolution succeeds with the
/// defaults.
pub proof fn lemma_defaults(env: EnvVars)
    requires
        env.app_host is None,
        env.app_port is None,
        env.database_url is None,
        env.llm_base_url is None,
        env.llm_chat_path is None,
    ensures
        resolve(env) == Some(
            ConfigView {
                app_host: "127.0.0.1"@,
                app_port: 3000,
                database_url: "sqlite://data/app.db"@,
                llm_base_url: "http://127.0.0.1:8000"@,
                llm_chat_path: "/v1/chat/completions"@,
            },
        ),
{
    lemma_default_port();
}

/// The value of one decimal digit.
fn digit_of(c: char) -> (d: Option<u32>)
    ensures
        d is Some <==> is_digit(c),
        d matches Some(v) ==> v == digit_value(c),
{
    if '0' <= c && c <= '9' {
        Some(c as u32 - '0' as u32)
    } else {
        None
    }
}

/// Parses a port: `Some` exactly for an optional `+` followed by decimal
/// digits whose value fits 16 bits.
pub fn parse_port(text: &str) -> (port: Option<u16>)
    ensures
        port == parse_port_spec(text@),
{
    let len = text.unicode_len();
    let mut i: usize = 0;
    let mut off: usize = 0;
    let mut acc: u32 = 0;
    for c in it: text.chars()
        invariant
            it.seq() == text@,
            len == text@.len(),
            i == it.index(),
            off <= i <= len,
            off <= 1,
            off == 1 <==> i > 0 && text@[0] == '+',
            all_digits(text@.subrange(off as int, i as int)),
            acc == decimal_value(text@.subrange(off as int, i as int)),
            acc <= u16::MAX,
    {
        let ghost digits = port_digits(text@);
        let ghost seen = text@.subrange(off as int, i as int);
        if i == 0 && c == '+' {
            off = 1;
        } else {
            let ghost next = text@.subrange(off as int, i + 1);
            assert(digits =~= text@.skip(off as int));
            assert(next.drop_last() =~= seen);
            assert(next.last() == c);
            assert(digits.take(i + 1 - off) =~= next);
            match digit_of(c) {
                None => {
                    assert(!is_digit(digits[i - off]));
                    return None;
                },
                Some(d) => {
                    let wide: u32 = acc * 10 + d;
                    if wide > 65535 {
                        proof {
                            lemma_decimal_value_prefix(digits, i + 1 - off);
                        }
                        return None;
                    }
                    acc = wide;
                },
            }
        }
        i = i + 1;
    }
    proof {
        assert(port_digits(text@) =~= text@.subrange(off as int, len as int));
    }
    if i == off {
        None
    } else {
        Some(acc as u16)
    }
}

impl Config {
    /// Resolves the configuration: each setting is what the environment
    /// holds or, failing that, its default; the port must parse.
    pub fn from_env(env: EnvVars) -> (cfg: Result<Config, ConfigError>)
        ensures
            match resolve(env) {
                Some(resolved) => cfg matches Ok(c) && c@ == resolved,
                None => cfg matches Err(ConfigError::InvalidPort(text)) && text@ == or_default(
                    env.app_port,
                    "3000"@,
                ),
            },
    {
        let port_text = match env.app_port {
            Some(text) => text,
            None => String::from_str("3000"),
        };
        let app_port = match parse_port(port_text.as_str()) {
            Some(port) => port,
            None => {
                return Err(ConfigError::InvalidPort(port_text));
            },
        };
        let app_host = match env.app_host {
            Some(text) => text,
            None => String::from_str("127.0.0.1"),
        };
        let database_url = match env.database_url {
            Some(text) => text,
            None => String::from_str("sqlite://data/app.db"),
        };
        let llm_base_url = match env.llm_base_url {
            Some(text) => text,
            None => String::from_str("http://127.0.0.1:8000"),
        };
        let llm_chat_path = match env.llm_chat_path {
            Some(text) => text,
            None => String::from_str("/v1/chat/completions"),
        };
        Ok(Config { app_host, app_port, database_url, llm_base_url, llm_chat_path })
    }
}

} // verus!
