//! Connection settings and how they are resolved from environment values.

use vstd::prelude::*;
use vstd::string::StringSliceAdditionalSpecFns;

use crate::error::{BootstrapError, ConfigFault, ConfigField, ErrorModel};

verus! {

/// The settings as the environment gives them: every value is text, and
/// any of them may be absent.
#[derive(Clone, Debug, PartialEq, Eq)]
pub struct RawSettings {
    pub host: Option<String>,
    pub port: Option<String>,
    pub user: Option<String>,
    pub password: Option<String>,
    pub dbname: Option<String>,
    pub max_size: Option<String>,
    pub connect_timeout: Option<String>,
    pub db_ca_cert: Option<String>,
}

/// What the pool needs to reach the database.
#[derive(Clone, Debug, PartialEq, Eq)]
pub struct PoolSettings {
    pub host: String,
    pub port: u16,
    pub user: String,
    pub password: String,
    pub dbname: String,
    /// The most connections the pool may hold; absent, the pool library's
    /// own bound applies.
    pub max_size: Option<usize>,
    /// Seconds allowed for opening one connection; absent, there is no
    /// limit.
    pub connect_timeout_secs: Option<u64>,
}

/// The resolved configuration.
#[derive(Clone, Debug, PartialEq, Eq)]
pub struct Settings {
    pub pool_config: PoolSettings,
    /// Path of a PEM file of trusted root certificates; absent, the
    /// transport is plain.
    pub db_ca_cert: Option<String>,
}

/// The mathematical value of a [`RawSettings`].
pub struct RawModel {
    pub host: Option<Seq<char>>,
    pub port: Option<Seq<char>>,
    pub user: Option<Seq<char>>,
    pub password: Option<Seq<char>>,
    pub dbname: Option<Seq<char>>,
    pub max_size: Option<Seq<char>>,
    pub connect_timeout: Option<Seq<char>>,
    pub db_ca_cert: Option<Seq<char>>,
}

/// The mathematical value of a [`PoolSettings`].
pub struct PoolModel {
    pub host: Seq<char>,
    pub port: u16,
    pub user: Seq<char>,
    pub password: Seq<char>,
    pub dbname: Seq<char>,
    pub max_size: Option<usize>,
    pub connect_timeout_secs: Option<u64>,
}

/// The mathematical value of a [`Settings`].
pub struct SettingsModel {
    pub pool_config: PoolModel,
    pub db_ca_cert: Option<Seq<char>>,
}

/// The characters of an optional text.
pub open spec fn text_of(value: Option<String>) -> Option<Seq<char>> {
    match value {
        Some(text) => Some(text@),
        None => None,
    }
}

impl View for RawSettings {
    type V = RawModel;

    open spec fn view(&self) -> RawModel {
        RawModel {
            host: text_of(self.host),
            port: text_of(self.port),
            user: text_of(self.user),
            password: text_of(self.password),
            dbname: text_of(self.dbname),
            max_size: text_of(self.max_size),
            connect_timeout: text_of(self.connect_timeout),
            db_ca_cert: text_of(self.db_ca_cert),
        }
    }
}

impl View for PoolSettings {
    type V = PoolModel;

    open spec fn view(&self) -> PoolModel {
        PoolModel {
            host: self.host@,
            port: self.port,
            user: self.user@,
            password: self.password@,
            dbname: self.dbname@,
            max_size: self.max_size,
            connect_timeout_secs: self.connect_timeout_secs,
        }
    }
}

impl View for Settings {
    type V = SettingsModel;

    open spec fn view(&self) -> SettingsModel {
        SettingsModel { pool_config: self.pool_config@, db_ca_cert: text_of(self.db_ca_cert) }
    }
}

/// Whether a character is one of `0` to `9`.
pub open spec fn is_digit(c: char) -> bool {
    '0' <= c <= '9'
}

/// The number a digit stands for; zero for any other character.
pub open spec fn digit_value(c: char) -> nat {
    if is_digit(c) {
        (c as u32 - '0' as u32) as nat
    } else {
        0
    }
}

/// The number that a text of digits denotes in base ten.
pub open spec fn digits_value(text: Seq<char>) -> nat
    decreases text.len(),
{
    if text.len() == 0 {
        0
    } else {
        10 * digits_value(text.drop_last()) + digit_value(text.last())
    }
}

/// Whether every character of a text is a digit.
pub open spec fn all_digits(text: Seq<char>) -> bool {
    forall|i: int| 0 <= i < text.len() ==> is_digit(#[trigger] text[i])
}

/// The number a text denotes, where the text is one or more digits and the
/// number is at most `max`; otherwise nothing.
pub open spec fn decimal(text: Seq<char>, max: nat) -> Option<nat> {
    if text.len() > 0 && all_digits(text) && digits_value(text) <= max {
        Some(digits_value(text))
    } else {
        None
    }
}

/// A text's value never falls below the value of one of its prefixes.
proof fn lemma_prefix_value(text: Seq<char>, len: int)
    requires
        0 <= len <= text.len(),
    ensures
        digits_value(text.subrange(0, len)) <= digits_value(text),
    decreases text.len() - len,
{
    if len == text.len() {
        assert(text.subrange(0, len) =~= text);
    } else {
        lemma_prefix_value(text.drop_last(), len);
        assert(text.drop_last().subrange(0, len) =~= text.subrange(0, len));
    }
}

/// Reads a text as a number in base ten that is at most `max`.
///
/// Only the digits `0` to `9` are accepted: no sign, no blanks, no
/// separators. Leading zeros do not count against the bound.
pub fn parse_decimal(text: &str, max: u64) -> (r: Option<u64>)
    ensures
        r is Some <==> decimal(text@, max as nat) is Some,
        r matches Some(n) ==> decimal(text@, max as nat) == Some(n as nat),
{
    if !text.is_ascii() {
        proof {
            let i = choose|i: int| 0 <= i < text@.len() && !('\0' <= #[trigger] text@[i] <= '\u{7f}');
            assert(!is_digit(text@[i]));
        }
        return None;
    }
    let bytes = text.as_bytes();
    proof {
        vstd::string::is_ascii_spec_bytes(text);
        assert(bytes@.len() == text@.len());
    }
    let len: usize = bytes.len();
    if len == 0 {
        return None;
    }
    let mut value: u64 = 0;
    let mut i: usize = 0;
    while i < len
        invariant
            text.is_ascii(),
            len == text@.len(),
            bytes@ == text.spec_bytes(),
            text.spec_bytes() == Seq::new(text@.len(), |k: int| text@[k] as u8),
            0 <= i <= len,
            all_digits(text@.subrange(0, i as int)),
            value == digits_value(text@.subrange(0, i as int)),
            value <= max,
        decreases len - i,
    {
        let byte: u8 = bytes[i];
        let ghost next = text@.subrange(0, i + 1);
        proof {
            assert(next.drop_last() =~= text@.subrange(0, i as int));
            assert(next.last() == text@[i as int]);
            assert('\0' <= text@[i as int] <= '\u{7f}');
            assert(byte == text@[i as int] as u8);
        }
        if byte < 48 || byte > 57 {
            assert(!is_digit(text@[i as int]));
            return None;
        }
        assert(is_digit(text@[i as int]));
        let digit: u64 = (byte - 48) as u64;
        assert(digit == digit_value(text@[i as int]));
        if value > max / 10 || digit > max - value * 10 {
            proof {
                assert(digits_value(next) > max);
                lemma_prefix_value(text@, i + 1);
            }
            return None;
        }
        value = value * 10 + digit;
        i = i + 1;
        proof {
            assert forall|k: int| 0 <= k < next.len() implies is_digit(#[trigger] next[k]) by {
                if k < i - 1 {
                    assert(next[k] == text@.subrange(0, i - 1)[k]);
                }
            }
        }
    }
    proof {
        assert(text@.subrange(0, len as int) =~= text@);
    }
    Some(value)
}

/// The settings that a set of environment values resolves to, or the
/// first fault found, looking at host, port, user, password, database
/// name, pool size and connect timeout in that order.
pub open spec fn resolved(raw: RawModel) -> Result<SettingsModel, ErrorModel> {
    if raw.host is None {
        Err(ErrorModel::Config(ConfigFault::Missing(ConfigField::Host)))
    } else if raw.port is None {
        Err(ErrorModel::Config(ConfigFault::Missing(ConfigField::Port)))
    } else if decimal(raw.port->0, u16::MAX as nat) is None {
        Err(ErrorModel::Config(ConfigFault::Malformed(ConfigField::Port)))
    } else if raw.user is None {
        Err(ErrorModel::Config(ConfigFault::Missing(ConfigField::User)))
    } else if raw.password is None {
        Err(ErrorModel::Config(ConfigFault::Missing(ConfigField::Password)))
    } else if raw.dbname is None {
        Err(ErrorModel::Config(ConfigFault::Missing(ConfigField::DatabaseName)))
    } else if raw.max_size is Some && decimal(raw.max_size->0, usize::MAX as nat) is None {
        Err(ErrorModel::Config(ConfigFault::Malformed(ConfigField::PoolSize)))
    } else if raw.connect_timeout is Some && decimal(raw.connect_timeout->0, u64::MAX as nat) is None {
        Err(ErrorModel::Config(ConfigFault::Malformed(ConfigField::ConnectTimeout)))
    } else {
        Ok(
            SettingsModel {
                pool_config: PoolModel {
                    host: raw.host->0,
                    port: decimal(raw.port->0, u16::MAX as nat)->0 as u16,
                    user: raw.user->0,
                    password: raw.password->0,
                    dbname: raw.dbname->0,
                    max_size: match raw.max_size {
                        Some(text) => Some(decimal(text, usize::MAX as nat)->0 as usize),
                        None => None,
                    },
                    connect_timeout_secs: match raw.connect_timeout {
                        Some(text) => Some(decimal(text, u64::MAX as nat)->0 as u64),
                        None => None,
                    },
                },
                db_ca_cert: raw.db_ca_cert,
            },
        )
    }
}

/// The views of an outcome of resolving.
pub open spec fn outcome_view(outcome: Result<Settings, BootstrapError>) -> Result<SettingsModel, ErrorModel> {
    match outcome {
        Ok(settings) => Ok(settings@),
        Err(error) => Err(error@),
    }
}

impl Settings {
    /// Binds environment values into settings.
    ///
    /// Host, port, user, password and database name are required; pool
    /// size, connect timeout and CA certificate path are optional. Port,
    /// pool size and connect timeout must be numbers in base ten that fit
    /// their types.
    pub fn resolve(raw: RawSettings) -> (r: Result<Settings, BootstrapError>)
        ensures
            outcome_view(r) == resolved(raw@),
    {
        let RawSettings { host, port, user, password, dbname, max_size, connect_timeout, db_ca_cert } = raw;
        let host = match host {
            Some(text) => text,
            None => { return Err(BootstrapError::Config(ConfigFault::Missing(ConfigField::Host))); },
        };
        let port: u16 = match port {
            Some(text) => match parse_decimal(text.as_str(), 65535) {
                Some(n) => n as u16,
                None => { return Err(BootstrapError::Config(ConfigFault::Malformed(ConfigField::Port))); },
            },
            None => { return Err(BootstrapError::Config(ConfigFault::Missing(ConfigField::Port))); },
        };
        let user = match user {
            Some(text) => text,
            None => { return Err(BootstrapError::Config(ConfigFault::Missing(ConfigField::User))); },
        };
        let password = match password {
            Some(text) => text,
            None => { return Err(BootstrapError::Config(ConfigFault::Missing(ConfigField::Password))); },
        };
        let dbname = match dbname {
            Some(text) => text,
            None => { return Err(BootstrapError::Config(ConfigFault::Missing(ConfigField::DatabaseName))); },
        };
        let max_size: Option<usize> = match max_size {
            Some(text) => match parse_decimal(text.as_str(), usize::MAX as u64) {
                Some(n) => Some(n as usize),
                None => { return Err(BootstrapError::Config(ConfigFault::Malformed(ConfigField::PoolSize))); },
            },
            None => None,
        };
        let connect_timeout_secs: Option<u64> = match connect_timeout {
            Some(text) => match parse_decimal(text.as_str(), u64::MAX) {
                Some(n) => Some(n),
                None => {
                    return Err(BootstrapError::Config(ConfigFault::Malformed(ConfigField::ConnectTimeout)));
                },
            },
            None => None,
        };
        Ok(
            Settings {
                pool_config: PoolSettings { host, port, user, password, dbname, max_size, connect_timeout_secs },
                db_ca_cert,
            },
        )
    }
}

/// Resolving depends on the environment values alone: from equal values
/// it gives equal settings, or the same fault.
pub proof fn resolving_is_repeatable(first: RawModel, second: RawModel)
    requires
        first == second,
    ensures
        resolved(first) == resolved(second),
{
}

} // verus!
