//! The settings that the service is started with.
//!
//! They are read once, when the process starts, and never changed: the
//! signing keys, the lifetimes of the two kinds of token, and where the
//! database, the session store and the files are.

use vstd::prelude::*;
use vstd::string::*;

verus! {

/// The variables that hold the settings.
#[derive(Clone, Copy, Debug, PartialEq, Eq, Structural)]
pub enum Variable {
    DatabaseUrl,
    RedisUrl,
    StorageDir,
    Port,
    AccessTokenPrivateKey,
    AccessTokenPublicKey,
    AccessTokenMaxAge,
    RefreshTokenPrivateKey,
    RefreshTokenPublicKey,
    RefreshTokenMaxAge,
}

impl Variable {
    /// The name of the variable in the environment.
    pub open spec fn text(self) -> Seq<char> {
        match self {
            Variable::DatabaseUrl => "DATABASE_URL"@,
            Variable::RedisUrl => "REDIS_URL"@,
            Variable::StorageDir => "STORAGE_DIR"@,
            Variable::Port => "PORT"@,
            Variable::AccessTokenPrivateKey => "ACCESS_TOKEN_PRIVATE_KEY"@,
            Variable::AccessTokenPublicKey => "ACCESS_TOKEN_PUBLIC_KEY"@,
            Variable::AccessTokenMaxAge => "ACCESS_TOKEN_MAXAGE"@,
            Variable::RefreshTokenPrivateKey => "REFRESH_TOKEN_PRIVATE_KEY"@,
            Variable::RefreshTokenPublicKey => "REFRESH_TOKEN_PUBLIC_KEY"@,
            Variable::RefreshTokenMaxAge => "REFRESH_TOKEN_MAXAGE"@,
        }
    }

    /// The name of the variable in the environment.
    pub fn name(&self) -> (name: &'static str)
        ensures
            name@ == self.text(),
    {
        match self {
            Variable::DatabaseUrl => "DATABASE_URL",
            Variable::RedisUrl => "REDIS_URL",
            Variable::StorageDir => "STORAGE_DIR",
            Variable::Port => "PORT",
            Variable::AccessTokenPrivateKey => "ACCESS_TOKEN_PRIVATE_KEY",
            Variable::AccessTokenPublicKey => "ACCESS_TOKEN_PUBLIC_KEY",
            Variable::AccessTokenMaxAge => "ACCESS_TOKEN_MAXAGE",
            Variable::RefreshTokenPrivateKey => "REFRESH_TOKEN_PRIVATE_KEY",
            Variable::RefreshTokenPublicKey => "REFRESH_TOKEN_PUBLIC_KEY",
            Variable::RefreshTokenMaxAge => "REFRESH_TOKEN_MAXAGE",
        }
    }
}

/// Why the settings were not taken.
#[derive(Clone, Copy, Debug, PartialEq, Eq, Structural)]
pub enum ConfigError {
    /// The variable is not set.
    Missing(Variable),
    /// The variable does not hold a value of its kind: a port, or a
    /// positive number of minutes whose seconds fit a timestamp.
    Invalid(Variable),
}

/// The values of the variables as they were found.
#[derive(Debug)]
pub struct Settings {
    pub database_url: Option<String>,
    pub redis_url: Option<String>,
    pub storage_dir: Option<String>,
    pub port: Option<String>,
    pub access_token_private_key: Option<String>,
    pub access_token_public_key: Option<String>,
    pub access_token_max_age: Option<String>,
    pub refresh_token_private_key: Option<String>,
    pub refresh_token_public_key: Option<String>,
    pub refresh_token_max_age: Option<String>,
}

/// The settings of a running service. The keys are PEM texts; the
/// lifetimes are in minutes.
#[derive(Debug)]
pub struct Config {
    pub database_url: String,
    pub redis_url: String,
    pub storage_dir: String,
    pub port: u16,
    pub access_token_private_key: String,
    pub access_token_public_key: String,
    pub access_token_max_age: i64,
    pub refresh_token_private_key: String,
    pub refresh_token_public_key: String,
    pub refresh_token_max_age: i64,
}

/// The value of a text of decimal digits. A text that is empty, or holds
/// anything but the digits `0` to `9`, has none.
pub open spec fn digits_value(text: Seq<char>) -> Option<nat>
    decreases text.len(),
{
    if text.len() == 0 || !('0' <= text.last() && text.last() <= '9') {
        None
    } else if text.len() == 1 {
        Some((text.last() as u8 - 48) as nat)
    } else {
        match digits_value(text.drop_last()) {
            Some(value) => Some(value * 10 + (text.last() as u8 - 48) as nat),
            None => None,
        }
    }
}

/// The number that a decimal text stands for: an optional `+` or `-`, then
/// digits, and a value within the range of the type.
pub open spec fn decimal_i64(text: Seq<char>) -> Option<i64> {
    let negative = text.len() > 0 && text[0] == '-';
    let signed = text.len() > 0 && (text[0] == '-' || text[0] == '+');
    match digits_value(if signed { text.drop_first() } else { text }) {
        Some(value) => {
            let number: int = if negative { -(value as int) } else { value as int };
            if i64::MIN <= number <= i64::MAX {
                Some(number as i64)
            } else {
                None
            }
        },
        None => None,
    }
}

/// The port that a decimal text stands for: an optional `+`, then digits,
/// and a value within the range of the type.
pub open spec fn decimal_u16(text: Seq<char>) -> Option<u16> {
    let signed = text.len() > 0 && text[0] == '+';
    match digits_value(if signed { text.drop_first() } else { text }) {
        Some(value) => if value <= u16::MAX {
            Some(value as u16)
        } else {
            None
        },
        None => None,
    }
}

/// `str::parse::<i64>`: the number that the text stands for, where it is
/// an optional sign followed by nothing but decimal digits and the number
/// fits the type.
#[verifier::external_body]
fn parse_i64(text: &str) -> (number: Option<i64>)
    ensures
        number == decimal_i64(text@),
{
    text.parse::<i64>().ok()
}

/// `str::parse::<u16>`: the number that the text stands for, where it is
/// an optional `+` followed by nothing but decimal digits and the number
/// fits the type.
#[verifier::external_body]
fn parse_u16(text: &str) -> (number: Option<u16>)
    ensures
        number == decimal_u16(text@),
{
    text.parse::<u16>().ok()
}

/// The most minutes that a token may live: as many as have their seconds
/// fit a timestamp.
pub const MAX_AGE_LIMIT: i64 = 153_722_867_280_912_930;

/// Whether a number of minutes can be the lifetime of a token.
pub open spec fn usable_age(minutes: Option<i64>) -> bool {
    minutes matches Some(m) && 0 < m <= MAX_AGE_LIMIT
}

/// The first variable that is not set, in the order in which the
/// variables are looked at: the database and the session store, the keys
/// and the lifetime of each kind of token, the port, the directory of the
/// files.
pub open spec fn first_missing(found: Settings) -> Option<Variable> {
    if found.database_url is None {
        Some(Variable::DatabaseUrl)
    } else if found.redis_url is None {
        Some(Variable::RedisUrl)
    } else if found.access_token_private_key is None {
        Some(Variable::AccessTokenPrivateKey)
    } else if found.access_token_public_key is None {
        Some(Variable::AccessTokenPublicKey)
    } else if found.access_token_max_age is None {
        Some(Variable::AccessTokenMaxAge)
    } else if found.refresh_token_private_key is None {
        Some(Variable::RefreshTokenPrivateKey)
    } else if found.refresh_token_public_key is None {
        Some(Variable::RefreshTokenPublicKey)
    } else if found.refresh_token_max_age is None {
        Some(Variable::RefreshTokenMaxAge)
    } else if found.port is None {
        Some(Variable::Port)
    } else if found.storage_dir is None {
        Some(Variable::StorageDir)
    } else {
        None
    }
}

/// The settings that the found values make, given the numbers that the
/// port and the two lifetimes were read as.
pub open spec fn assembled(
    found: Settings,
    port: Option<u16>,
    access_age: Option<i64>,
    refresh_age: Option<i64>,
) -> Result<Config, ConfigError> {
    match first_missing(found) {
        Some(variable) => Err(ConfigError::Missing(variable)),
        None => if !usable_age(access_age) {
            Err(ConfigError::Invalid(Variable::AccessTokenMaxAge))
        } else if !usable_age(refresh_age) {
            Err(ConfigError::Invalid(Variable::RefreshTokenMaxAge))
        } else if port is None {
            Err(ConfigError::Invalid(Variable::Port))
        } else {
            Ok(
                Config {
                    database_url: found.database_url.unwrap(),
                    redis_url: found.redis_url.unwrap(),
                    storage_dir: found.storage_dir.unwrap(),
                    port: port.unwrap(),
                    access_token_private_key: found.access_token_private_key.unwrap(),
                    access_token_public_key: found.access_token_public_key.unwrap(),
                    access_token_max_age: access_age.unwrap(),
                    refresh_token_private_key: found.refresh_token_private_key.unwrap(),
                    refresh_token_public_key: found.refresh_token_public_key.unwrap(),
                    refresh_token_max_age: refresh_age.unwrap(),
                },
            )
        },
    }
}

/// The number that an optional text stands for.
pub open spec fn read_i64(text: Option<String>) -> Option<i64> {
    match text {
        Some(t) => decimal_i64(t@),
        None => None,
    }
}

/// The port that an optional text stands for.
pub open spec fn read_u16(text: Option<String>) -> Option<u16> {
    match text {
        Some(t) => decimal_u16(t@),
        None => None,
    }
}

/// The settings that the found values make, with the port and the two
/// lifetimes read as decimal numbers.
pub open spec fn configured(found: Settings) -> Result<Config, ConfigError> {
    assembled(
        found,
        read_u16(found.port),
        read_i64(found.access_token_max_age),
        read_i64(found.refresh_token_max_age),
    )
}

/// What is wrong with the found values, where anything is.
pub open spec fn settings_fault(found: Settings) -> Option<ConfigError> {
    match configured(found) {
        Ok(_) => None,
        Err(fault) => Some(fault),
    }
}

impl Config {
    /// Both lifetimes are positive and their seconds fit a timestamp.
    pub open spec fn wf(&self) -> bool {
        &&& 0 < self.access_token_max_age <= MAX_AGE_LIMIT
        &&& 0 < self.refresh_token_max_age <= MAX_AGE_LIMIT
    }

    /// Makes the settings from the found values and the numbers that the
    /// port and the two lifetimes were read as. The first variable that is
    /// not set is reported, then the first that does not hold a value of
    /// its kind, the lifetimes before the port.
    pub fn assemble(
        found: Settings,
        port: Option<u16>,
        access_age: Option<i64>,
        refresh_age: Option<i64>,
    ) -> (config: Result<Config, ConfigError>)
        ensures
            config == assembled(found, port, access_age, refresh_age),
            config matches Ok(c) ==> c.wf(),
    {
        let database_url = match found.database_url {
            Some(v) => v,
            None => { return Err(ConfigError::Missing(Variable::DatabaseUrl)); },
        };
        let redis_url = match found.redis_url {
            Some(v) => v,
            None => { return Err(ConfigError::Missing(Variable::RedisUrl)); },
        };
        let access_token_private_key = match found.access_token_private_key {
            Some(v) => v,
            None => { return Err(ConfigError::Missing(Variable::AccessTokenPrivateKey)); },
        };
        let access_token_public_key = match found.access_token_public_key {
            Some(v) => v,
            None => { return Err(ConfigError::Missing(Variable::AccessTokenPublicKey)); },
        };
        if found.access_token_max_age.is_none() {
            return Err(ConfigError::Missing(Variable::AccessTokenMaxAge));
        }
        let refresh_token_private_key = match found.refresh_token_private_key {
            Some(v) => v,
            None => { return Err(ConfigError::Missing(Variable::RefreshTokenPrivateKey)); },
        };
        let refresh_token_public_key = match found.refresh_token_public_key {
            Some(v) => v,
            None => { return Err(ConfigError::Missing(Variable::RefreshTokenPublicKey)); },
        };
        if found.refresh_token_max_age.is_none() {
            return Err(ConfigError::Missing(Variable::RefreshTokenMaxAge));
        }
        if found.port.is_none() {
            return Err(ConfigError::Missing(Variable::Port));
        }
        let storage_dir = match found.storage_dir {
            Some(v) => v,
            None => { return Err(ConfigError::Missing(Variable::StorageDir)); },
        };
        let access_token_max_age: i64 = match access_age {
            Some(m) if 0 < m && m <= MAX_AGE_LIMIT => m,
            _ => { return Err(ConfigError::Invalid(Variable::AccessTokenMaxAge)); },
        };
        let refresh_token_max_age: i64 = match refresh_age {
            Some(m) if 0 < m && m <= MAX_AGE_LIMIT => m,
            _ => { return Err(ConfigError::Invalid(Variable::RefreshTokenMaxAge)); },
        };
        let port: u16 = match port {
            Some(p) => p,
            None => { return Err(ConfigError::Invalid(Variable::Port)); },
        };
        Ok(
            Config {
                database_url,
                redis_url,
                storage_dir,
                port,
                access_token_private_key,
                access_token_public_key,
                access_token_max_age,
                refresh_token_private_key,
                refresh_token_public_key,
                refresh_token_max_age,
            },
        )
    }

    /// Looks for what is wrong with the values of the variables as they
    /// were found, reading the port and the two lifetimes as decimal
    /// numbers: the first variable that is not set, or else the first that
    /// does not hold a value of its kind.
    pub fn check(found: &Settings) -> (fault: Option<ConfigError>)
        ensures
            fault == settings_fault(*found),
    {
        if found.database_url.is_none() {
            return Some(ConfigError::Missing(Variable::DatabaseUrl));
        }
        if found.redis_url.is_none() {
            return Some(ConfigError::Missing(Variable::RedisUrl));
        }
        if found.access_token_private_key.is_none() {
            return Some(ConfigError::Missing(Variable::AccessTokenPrivateKey));
        }
        if found.access_token_public_key.is_none() {
            return Some(ConfigError::Missing(Variable::AccessTokenPublicKey));
        }
        let access_age = match &found.access_token_max_age {
            Some(text) => parse_i64(text.as_str()),
            None => { return Some(ConfigError::Missing(Variable::AccessTokenMaxAge)); },
        };
        if found.refresh_token_private_key.is_none() {
            return Some(ConfigError::Missing(Variable::RefreshTokenPrivateKey));
        }
        if found.refresh_token_public_key.is_none() {
            return Some(ConfigError::Missing(Variable::RefreshTokenPublicKey));
        }
        let refresh_age = match &found.refresh_token_max_age {
            Some(text) => parse_i64(text.as_str()),
            None => { return Some(ConfigError::Missing(Variable::RefreshTokenMaxAge)); },
        };
        let port = match &found.port {
            Some(text) => parse_u16(text.as_str()),
            None => { return Some(ConfigError::Missing(Variable::Port)); },
        };
        if found.storage_dir.is_none() {
            return Some(ConfigError::Missing(Variable::StorageDir));
        }
        match access_age {
            Some(m) if 0 < m && m <= MAX_AGE_LIMIT => {},
            _ => { return Some(ConfigError::Invalid(Variable::AccessTokenMaxAge)); },
        }
        match refresh_age {
            Some(m) if 0 < m && m <= MAX_AGE_LIMIT => {},
            _ => { return Some(ConfigError::Invalid(Variable::RefreshTokenMaxAge)); },
        }
        if port.is_none() {
            return Some(ConfigError::Invalid(Variable::Port));
        }
        None
    }

    /// Makes the settings from the values of the variables as they were
    /// found. Every variable must be set and hold a value of its kind;
    /// `check` tells whether that is so, and `try_init` checks by itself.
    pub fn init(found: Settings) -> (config: Config)
        requires
            settings_fault(found) is None,
        ensures
            configured(found) == Ok::<Config, ConfigError>(config),
            config.wf(),
    {
        let port = match &found.port {
            Some(text) => parse_u16(text.as_str()),
            None => None,
        };
        let access_age = match &found.access_token_max_age {
            Some(text) => parse_i64(text.as_str()),
            None => None,
        };
        let refresh_age = match &found.refresh_token_max_age {
            Some(text) => parse_i64(text.as_str()),
            None => None,
        };
        Config::assemble(found, port, access_age, refresh_age).unwrap()
    }

    /// Makes the settings from the values of the variables as they were
    /// found, or reports what is wrong with them.
    pub fn try_init(found: Settings) -> (config: Result<Config, ConfigError>)
        ensures
            config == configured(found),
            config matches Ok(c) ==> c.wf(),
    {
        match Config::check(&found) {
            Some(fault) => Err(fault),
            None => Ok(Config::init(found)),
        }
    }
}

} // verus!
