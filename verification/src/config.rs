use vstd::prelude::*;

use crate::text::{
    ascii_lowercase, decimal, push_decimal, push_str, str_eq, to_ascii_lowercase, trim, trim_str,
    utf8_len,
};

verus! {

broadcast use vstd::string::group_string_axioms;

/// Minimum size of the session signing secret, in bytes.
pub const SESSION_SECRET_MIN_BYTES: usize = 32;

/// Runtime configuration read from the process environment.
///
/// Empty strings are treated identically to unset variables. This mirrors
/// the credentials rotation pattern where operators temporarily set a value,
/// restart, then blank it out before restarting again.
#[derive(Debug, Clone)]
pub struct Config {
    pub bind_addr: String,
    pub database_url: String,
    pub base_url: String,
    pub session_secret: String,
    pub username: Option<String>,
    pub password: Option<String>,
    pub timezone: Option<String>,
    pub log_dir: Option<String>,
    pub behind_proxy: bool,
}

/// Why the configuration could not be loaded.
#[derive(Debug, Clone)]
pub enum ConfigError {
    /// A required variable is unset or empty.
    Missing { key: String },
    /// `SESSION_SECRET` is shorter than [`SESSION_SECRET_MIN_BYTES`]; `len` is its size in bytes.
    SecretTooShort { len: usize },
}

/// The value the environment gives `key`: that of its first entry.
pub open spec fn env_value(vars: Seq<(String, String)>, key: Seq<char>) -> Option<Seq<char>>
    decreases vars.len(),
{
    if vars.len() == 0 {
        None
    } else if vars[0].0@ == key {
        Some(vars[0].1@)
    } else {
        env_value(vars.drop_first(), key)
    }
}

/// The value of `key` when it is set and not empty.
pub open spec fn env_setting(vars: Seq<(String, String)>, key: Seq<char>) -> Option<Seq<char>> {
    match env_value(vars, key) {
        Some(v) => if v.len() > 0 {
            Some(v)
        } else {
            None
        },
        None => None,
    }
}

/// The tokens read as "on", after trimming and ASCII lowercasing.
pub open spec fn is_truthy(value: Seq<char>) -> bool {
    let t = ascii_lowercase(trim(value));
    t == "1"@ || t == "true"@ || t == "yes"@ || t == "on"@
}

/// A flag is on exactly when its variable holds one of the truthy tokens.
pub open spec fn flag_on(vars: Seq<(String, String)>, key: Seq<char>) -> bool {
    match env_setting(vars, key) {
        Some(v) => is_truthy(v),
        None => false,
    }
}

/// The value of `key` in `vars`, from its first entry.
pub fn lookup(vars: &[(String, String)], key: &str) -> (r: Option<String>)
    ensures
        r matches Some(v) ==> env_value(vars@, key@) == Some(v@),
        r is None ==> env_value(vars@, key@) is None,
{
    let mut i: usize = 0;
    assert(vars@.skip(0) =~= vars@);
    while i < vars.len()
        invariant
            i <= vars@.len(),
            env_value(vars@, key@) == env_value(vars@.skip(i as int), key@),
        decreases vars.len() - i,
    {
        assert(vars@.skip(i as int)[0] == vars@[i as int]);
        if str_eq(vars[i].0.as_str(), key) {
            return Some(vars[i].1.clone());
        }
        assert(vars@.skip(i as int).drop_first() =~= vars@.skip(i + 1));
        i = i + 1;
    }
    None
}

/// Read an optional variable, treating empty strings as unset.
pub fn optional(vars: &[(String, String)], key: &str) -> (r: Option<String>)
    ensures
        r matches Some(v) ==> env_setting(vars@, key@) == Some(v@),
        r is None ==> env_setting(vars@, key@) is None,
{
    match lookup(vars, key) {
        Some(v) => if v.as_str().is_empty() {
            None
        } else {
            Some(v)
        },
        None => None,
    }
}

/// Read a required variable, treating empty strings as missing.
pub fn required(vars: &[(String, String)], key: &str) -> (r: Result<String, ConfigError>)
    ensures
        r matches Ok(v) ==> env_setting(vars@, key@) == Some(v@),
        r matches Err(e) ==> {
            &&& env_setting(vars@, key@) is None
            &&& e matches ConfigError::Missing { key: k } && k@ == key@
        },
{
    match optional(vars, key) {
        Some(v) => Ok(v),
        None => Err(ConfigError::Missing { key: key.to_owned() }),
    }
}

/// Read a variable as a boolean flag, defaulting to `false`.
pub fn env_flag(vars: &[(String, String)], key: &str) -> (b: bool)
    ensures
        b == flag_on(vars@, key@),
{
    match optional(vars, key) {
        Some(value) => {
            let t = trim_str(value.as_str());
            let l = to_ascii_lowercase(t.as_str());
            let s = l.as_str();
            str_eq(s, "1") || str_eq(s, "true") || str_eq(s, "yes") || str_eq(s, "on")
        },
        None => false,
    }
}

/// Validate that the session secret is long enough for cookie signing.
pub fn validated_session_secret(secret: String) -> (r: Result<String, ConfigError>)
    ensures
        utf8_len(secret@) >= SESSION_SECRET_MIN_BYTES ==> r == Ok::<String, ConfigError>(secret),
        utf8_len(secret@) < SESSION_SECRET_MIN_BYTES ==> (r matches Err(
            ConfigError::SecretTooShort { len },
        ) && len == utf8_len(secret@)),
{
    let len = secret.as_str().as_bytes().len();
    if len < SESSION_SECRET_MIN_BYTES {
        return Err(ConfigError::SecretTooShort { len });
    }
    Ok(secret)
}

/// What loading the configuration from `vars` yields: the first missing
/// required variable (in the order `BIND_ADDR`, `DATABASE_URL`, `BASE_URL`,
/// `SESSION_SECRET`), a too-short secret, or the configuration.
pub open spec fn config_loads(vars: Seq<(String, String)>, c: Config) -> bool {
    &&& env_setting(vars, "BIND_ADDR"@) == Some(c.bind_addr@)
    &&& env_setting(vars, "DATABASE_URL"@) == Some(c.database_url@)
    &&& env_setting(vars, "BASE_URL"@) == Some(c.base_url@)
    &&& env_setting(vars, "SESSION_SECRET"@) == Some(c.session_secret@)
    &&& utf8_len(c.session_secret@) >= SESSION_SECRET_MIN_BYTES
    &&& opt_view(c.username) == env_setting(vars, "USERNAME"@)
    &&& opt_view(c.password) == env_setting(vars, "PASSWORD"@)
    &&& opt_view(c.timezone) == env_setting(vars, "TIMEZONE"@)
    &&& opt_view(c.log_dir) == env_setting(vars, "LOG_DIR"@)
    &&& c.behind_proxy == flag_on(vars, "BEHIND_PROXY"@)
}

/// `SESSION_SECRET` is set and at least [`SESSION_SECRET_MIN_BYTES`] long.
pub open spec fn secret_long_enough(vars: Seq<(String, String)>) -> bool {
    match env_setting(vars, "SESSION_SECRET"@) {
        Some(s) => utf8_len(s) >= SESSION_SECRET_MIN_BYTES,
        None => false,
    }
}

/// The characters of an optional string.
pub open spec fn opt_view(s: Option<String>) -> Option<Seq<char>> {
    match s {
        Some(v) => Some(v@),
        None => None,
    }
}

impl Config {
    /// Load the configuration from the environment, given as its list of
    /// variables.
    pub fn from_env(vars: &[(String, String)]) -> (r: Result<Config, ConfigError>)
        ensures
            r matches Ok(c) ==> config_loads(vars@, c),
            r matches Err(e) ==> match e {
                ConfigError::Missing { key } => {
                    ||| key@ == "BIND_ADDR"@ && env_setting(vars@, "BIND_ADDR"@) is None
                    ||| key@ == "DATABASE_URL"@ && env_setting(vars@, "BIND_ADDR"@) is Some
                        && env_setting(vars@, "DATABASE_URL"@) is None
                    ||| key@ == "BASE_URL"@ && env_setting(vars@, "BIND_ADDR"@) is Some
                        && env_setting(vars@, "DATABASE_URL"@) is Some && env_setting(
                        vars@,
                        "BASE_URL"@,
                    ) is None
                    ||| key@ == "SESSION_SECRET"@ && env_setting(vars@, "BIND_ADDR"@) is Some
                        && env_setting(vars@, "DATABASE_URL"@) is Some && env_setting(
                        vars@,
                        "BASE_URL"@,
                    ) is Some && env_setting(vars@, "SESSION_SECRET"@) is None
                },
                ConfigError::SecretTooShort { len } => {
                    &&& env_setting(vars@, "BIND_ADDR"@) is Some
                    &&& env_setting(vars@, "DATABASE_URL"@) is Some
                    &&& env_setting(vars@, "BASE_URL"@) is Some
                    &&& env_setting(vars@, "SESSION_SECRET"@) matches Some(s) && utf8_len(s)
                        < SESSION_SECRET_MIN_BYTES && len == utf8_len(s)
                },
            },
            env_setting(vars@, "BIND_ADDR"@) is Some && env_setting(vars@, "DATABASE_URL"@) is Some
                && env_setting(vars@, "BASE_URL"@) is Some && secret_long_enough(vars@) ==> r is Ok,
    {
        let bind_addr = required(vars, "BIND_ADDR")?;
        let database_url = required(vars, "DATABASE_URL")?;
        let base_url = required(vars, "BASE_URL")?;
        let session_secret = validated_session_secret(required(vars, "SESSION_SECRET")?)?;
        Ok(Config {
            bind_addr,
            database_url,
            base_url,
            session_secret,
            username: optional(vars, "USERNAME"),
            password: optional(vars, "PASSWORD"),
            timezone: optional(vars, "TIMEZONE"),
            log_dir: optional(vars, "LOG_DIR"),
            behind_proxy: env_flag(vars, "BEHIND_PROXY"),
        })
    }

    /// Whether response cookies should set the `Secure` attribute: when
    /// `base_url` has an `https://` scheme.
    pub fn cookies_secure(&self) -> (b: bool)
        ensures
            b == ("https://"@.len() <= self.base_url@.len() && self.base_url@.subrange(
                0,
                "https://"@.len() as int,
            ) == "https://"@),
    {
        crate::text::starts_with(self.base_url.as_str(), "https://")
    }
}

impl ConfigError {
    /// Human-readable description of the error.
    pub fn message(&self) -> (m: String)
        ensures
            self matches ConfigError::Missing { key } ==> m@ == "environment variable "@ + key@
                + " is required"@,
            self matches ConfigError::SecretTooShort { len } ==> m@
                == "SESSION_SECRET must be at least 32 bytes, got "@ + decimal(len as nat),
    {
        let mut m = String::new();
        match self {
            ConfigError::Missing { key } => {
                push_str(&mut m, "environment variable ");
                push_str(&mut m, key.as_str());
                push_str(&mut m, " is required");
            },
            ConfigError::SecretTooShort { len } => {
                push_str(&mut m, "SESSION_SECRET must be at least 32 bytes, got ");
                push_decimal(&mut m, *len as u64);
            },
        }
        m
    }
}

/// Each field of a loaded configuration comes from the variable of its own
/// name, unset and empty values alike giving `None` for the optional ones:
/// `BIND_ADDR`, `DATABASE_URL`, `BASE_URL`, `SESSION_SECRET`, `USERNAME`,
/// `PASSWORD`, `TIMEZONE`, `LOG_DIR`, and the `BEHIND_PROXY` flag.
pub proof fn each_field_reads_its_variable(vars: Seq<(String, String)>, c: Config)
    requires
        config_loads(vars, c),
    ensures
        env_value(vars, "BIND_ADDR"@) == Some(c.bind_addr@),
        env_value(vars, "DATABASE_URL"@) == Some(c.database_url@),
        env_value(vars, "BASE_URL"@) == Some(c.base_url@),
        env_value(vars, "SESSION_SECRET"@) == Some(c.session_secret@),
        match env_value(vars, "USERNAME"@) {
            Some(v) if v.len() > 0 => c.username matches Some(u) && u@ == v,
            _ => c.username is None,
        },
        match env_value(vars, "PASSWORD"@) {
            Some(v) if v.len() > 0 => c.password matches Some(p) && p@ == v,
            _ => c.password is None,
        },
        match env_value(vars, "TIMEZONE"@) {
            Some(v) if v.len() > 0 => c.timezone matches Some(t) && t@ == v,
            _ => c.timezone is None,
        },
        match env_value(vars, "LOG_DIR"@) {
            Some(v) if v.len() > 0 => c.log_dir matches Some(d) && d@ == v,
            _ => c.log_dir is None,
        },
        c.behind_proxy == match env_value(vars, "BEHIND_PROXY"@) {
            Some(v) if v.len() > 0 => is_truthy(v),
            _ => false,
        },
{
}

} // verus!
