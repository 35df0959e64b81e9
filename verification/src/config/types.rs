//! Configuration types: the defaults, the layering of a config file and of
//! environment overrides over them, and validation.

use vstd::prelude::*;
use crate::config::error::ConfigError;
use crate::text::{equals, joined};

verus! {

/// Top-level application configuration.
#[derive(Debug, Clone)]
pub struct AppConfig {
    /// The host address to bind the HTTP server to.
    pub bind_addr: String,
    /// The port to listen on.
    pub port: u16,
    /// Path to the SQLite database file.
    pub database_url: String,
    /// Path to the data directory for file blobs and artifacts.
    pub data_dir: String,
    /// Log level filter (e.g., "info", "debug", "warn", "error", "trace").
    pub log_level: String,
    /// Session token expiry in seconds. Default: 86400 (24h).
    pub session_ttl_secs: u64,
    /// WebSocket ping interval in seconds. Default: 30.
    pub ws_ping_interval_secs: u64,
    /// Maximum file upload size in bytes. Default: 100 MiB.
    pub max_upload_bytes: u64,
}

/// The built-in defaults.
pub open spec fn is_default_config(c: AppConfig) -> bool {
    &&& c.bind_addr@ == "0.0.0.0"@
    &&& c.port == 8080
    &&& c.database_url@ == "./data/cortex.db"@
    &&& c.data_dir@ == "./data"@
    &&& c.log_level@ == "info"@
    &&& c.session_ttl_secs == 86400
    &&& c.ws_ping_interval_secs == 30
    &&& c.max_upload_bytes == 104857600
}

impl Default for AppConfig {
    fn default() -> (r: Self)
        ensures
            is_default_config(r),
    {
        AppConfig {
            bind_addr: String::from_str("0.0.0.0"),
            port: 8080,
            database_url: String::from_str("./data/cortex.db"),
            data_dir: String::from_str("./data"),
            log_level: String::from_str("info"),
            session_ttl_secs: 86400,
            ws_ping_interval_secs: 30,
            max_upload_bytes: 100 * 1024 * 1024,
        }
    }
}

/// The accepted log levels, in the order error messages list them.
pub open spec fn valid_levels() -> Seq<Seq<char>> {
    seq!["trace"@, "debug"@, "info"@, "warn"@, "error"@]
}

/// The message listing the accepted log levels after a rejected one.
pub open spec fn bad_level_message(level: Seq<char>) -> Seq<char> {
    "invalid log_level '"@ + level + "', must be one of: "@ + "[\"trace\", \"debug\", \"info\", \"warn\", \"error\"]"@
}

/// What validation answers for a configuration: the first violated rule,
/// in the order port, data directory, database URL, log level.
pub open spec fn validation_outcome(c: AppConfig) -> Option<Seq<char>> {
    if c.port == 0 {
        Some("port cannot be 0"@)
    } else if c.data_dir@.len() == 0 {
        Some("data_dir cannot be empty"@)
    } else if c.database_url@.len() == 0 {
        Some("database_url cannot be empty"@)
    } else if !valid_levels().contains(c.log_level@) {
        Some(bad_level_message(c.log_level@))
    } else {
        None
    }
}

/// With a nonzero port and nonempty data directory and database URL, a
/// configuration validates exactly when its log level is one of the five
/// levels that the rejection message lists: trace, debug, info, warn, error.
pub proof fn lemma_listed_levels_accepted(c: AppConfig)
    requires
        c.port != 0,
        c.data_dir@.len() > 0,
        c.database_url@.len() > 0,
    ensures
        validation_outcome(c) is None <==> (c.log_level@ == "trace"@ || c.log_level@ == "debug"@
            || c.log_level@ == "info"@ || c.log_level@ == "warn"@ || c.log_level@ == "error"@),
{
    let v = valid_levels();
    let l = c.log_level@;
    if v.contains(l) {
        let k = choose|k: int| 0 <= k < v.len() && v[k] == l;
        assert(k == 0 || k == 1 || k == 2 || k == 3 || k == 4);
    }
    if l == "trace"@ { assert(v[0] == l); }
    if l == "debug"@ { assert(v[1] == l); }
    if l == "info"@ { assert(v[2] == l); }
    if l == "warn"@ { assert(v[3] == l); }
    if l == "error"@ { assert(v[4] == l); }
}

/// Values a configuration file may set; each is absent when the file does
/// not hold the key with a value of the expected type.
#[derive(Debug, Clone)]
pub struct ConfigFileValues {
    pub bind_addr: Option<String>,
    pub port: Option<i64>,
    pub database_url: Option<String>,
    pub data_dir: Option<String>,
    pub log_level: Option<String>,
    pub session_ttl_secs: Option<i64>,
    pub ws_ping_interval_secs: Option<i64>,
    pub max_upload_bytes: Option<i64>,
}

/// What parsing `content` as a TOML value gives: `None` when it parses, else
/// the parse error's text.
pub uninterp spec fn toml_parse_outcome(content: Seq<char>) -> Option<Seq<char>>;

/// The string that the TOML document `content` holds at top-level key
/// `key`, if it parses to a table holding a string there.
pub uninterp spec fn toml_str_value(content: Seq<char>, key: Seq<char>) -> Option<Seq<char>>;

/// The integer that the TOML document `content` holds at top-level key
/// `key`, if it parses to a table holding an integer there.
pub uninterp spec fn toml_int_value(content: Seq<char>, key: Seq<char>) -> Option<i64>;

/// Calls `str::parse::<toml::Value>` (`toml::Value`'s `FromStr`); whether it
/// succeeds, and the error text when it does not, are named
/// `toml_parse_outcome` of the input.
#[verifier::external_body]
fn parse_toml(content: &str) -> (r: Option<String>)
    ensures
        r is None <==> toml_parse_outcome(content@) is None,
        r matches Some(e) ==> toml_parse_outcome(content@) == Some(e@),
{
    content.parse::<toml::Value>().err().map(|e| e.to_string())
}

/// Calls `str::parse::<toml::Value>`, `toml::Value::as_table`,
/// `toml::Table::get` and `toml::Value::as_str`; the string found is named
/// `toml_str_value` of the document and the key.
#[verifier::external_body]
fn toml_str_field(content: &str, key: &str) -> (r: Option<String>)
    ensures
        match r {
            Some(s) => toml_str_value(content@, key@) == Some(s@),
            None => toml_str_value(content@, key@) is None,
        },
{
    let v = content.parse::<toml::Value>().ok()?;
    v.as_table()?.get(key)?.as_str().map(String::from)
}

/// Calls `str::parse::<toml::Value>`, `toml::Value::as_table`,
/// `toml::Table::get` and `toml::Value::as_integer`; the integer found is
/// named `toml_int_value` of the document and the key.
#[verifier::external_body]
fn toml_int_field(content: &str, key: &str) -> (r: Option<i64>)
    ensures
        r == toml_int_value(content@, key@),
{
    let v = content.parse::<toml::Value>().ok()?;
    v.as_table()?.get(key)?.as_integer()
}

/// The text of an optional string.
pub open spec fn opt_string_text(o: Option<String>) -> Option<Seq<char>> {
    match o {
        Some(s) => Some(s@),
        None => None,
    }
}

/// `f` holds the values the TOML document `content` gives for the
/// configuration keys.
pub open spec fn file_values_of(content: Seq<char>, f: ConfigFileValues) -> bool {
    &&& opt_string_text(f.bind_addr) == toml_str_value(content, "bind_addr"@)
    &&& f.port == toml_int_value(content, "port"@)
    &&& opt_string_text(f.database_url) == toml_str_value(content, "database_url"@)
    &&& opt_string_text(f.data_dir) == toml_str_value(content, "data_dir"@)
    &&& opt_string_text(f.log_level) == toml_str_value(content, "log_level"@)
    &&& f.session_ttl_secs == toml_int_value(content, "session_ttl_secs"@)
    &&& f.ws_ping_interval_secs == toml_int_value(content, "ws_ping_interval_secs"@)
    &&& f.max_upload_bytes == toml_int_value(content, "max_upload_bytes"@)
}

impl ConfigFileValues {
    /// Read the configuration keys out of a configuration file's text. Text
    /// that is not TOML is refused with the parser's message.
    pub fn from_toml_text(content: &str) -> (r: Result<ConfigFileValues, ConfigError>)
        ensures
            r is Ok <==> toml_parse_outcome(content@) is None,
            r is Err ==> (r matches Err(ConfigError::Validation(m)) && m@ == "invalid config file: "@
                + toml_parse_outcome(content@)->0),
            r matches Ok(f) ==> file_values_of(content@, f),
    {
        if let Some(e) = parse_toml(content) {
            return Err(
                ConfigError::Validation(String::from_str("invalid config file: ").concat(e.as_str())),
            );
        }
        Ok(ConfigFileValues {
            bind_addr: toml_str_field(content, "bind_addr"),
            port: toml_int_field(content, "port"),
            database_url: toml_str_field(content, "database_url"),
            data_dir: toml_str_field(content, "data_dir"),
            log_level: toml_str_field(content, "log_level"),
            session_ttl_secs: toml_int_field(content, "session_ttl_secs"),
            ws_ping_interval_secs: toml_int_field(content, "ws_ping_interval_secs"),
            max_upload_bytes: toml_int_field(content, "max_upload_bytes"),
        })
    }
}

/// Values of the `CORTEX_*` environment variables that are set.
#[derive(Debug, Clone)]
pub struct EnvOverrides {
    pub bind_addr: Option<String>,
    pub port: Option<String>,
    pub database_url: Option<String>,
    pub data_dir: Option<String>,
    pub log_level: Option<String>,
}

/// `o` if present, else `d`.
pub open spec fn or_else<T>(o: Option<T>, d: T) -> T {
    match o {
        Some(v) => v,
        None => d,
    }
}

/// The configuration after laying the file values over `c`: each value the
/// file holds replaces the current one; integers are narrowed to the field's
/// width by truncation.
pub open spec fn with_file(c: AppConfig, f: ConfigFileValues) -> AppConfig {
    AppConfig {
        bind_addr: or_else(f.bind_addr, c.bind_addr),
        port: match f.port { Some(v) => v as u16, None => c.port },
        database_url: or_else(f.database_url, c.database_url),
        data_dir: or_else(f.data_dir, c.data_dir),
        log_level: or_else(f.log_level, c.log_level),
        session_ttl_secs: match f.session_ttl_secs { Some(v) => v as u64, None => c.session_ttl_secs },
        ws_ping_interval_secs: match f.ws_ping_interval_secs {
            Some(v) => v as u64,
            None => c.ws_ping_interval_secs,
        },
        max_upload_bytes: match f.max_upload_bytes { Some(v) => v as u64, None => c.max_upload_bytes },
    }
}

/// Whether `c` is an ASCII decimal digit.
pub open spec fn is_digit(c: char) -> bool {
    '0' <= c <= '9'
}

/// The value of a sequence of decimal digits.
pub open spec fn digits_value(s: Seq<char>) -> nat
    decreases s.len(),
{
    if s.len() == 0 {
        0
    } else {
        digits_value(s.drop_last()) * 10 + ((s.last() as u32) - ('0' as u32)) as nat
    }
}

/// Every character of `d` is a decimal digit.
pub open spec fn all_digits(d: Seq<char>) -> bool {
    forall|i: int| 0 <= i < d.len() ==> is_digit(#[trigger] d[i])
}

/// `s` without one leading `'+'`, if it has one.
pub open spec fn unsigned_part(s: Seq<char>) -> Seq<char> {
    if s.len() > 0 && s[0] == '+' { s.drop_first() } else { s }
}

/// What `str::parse::<u16>` gives: an optional `'+'`, then one or more
/// decimal digits whose value fits in 16 bits.
pub open spec fn parse_u16_spec(s: Seq<char>) -> Option<u16> {
    let d = unsigned_part(s);
    if d.len() == 0 || !all_digits(d) {
        None
    } else if digits_value(d) > 65535 {
        None
    } else {
        Some(digits_value(d) as u16)
    }
}

proof fn lemma_digits_value_grows(s: Seq<char>, i: int)
    requires
        0 <= i <= s.len(),
        forall|j: int| 0 <= j < s.len() ==> is_digit(#[trigger] s[j]),
    ensures
        digits_value(s) >= digits_value(s.take(i)),
    decreases s.len() - i,
{
    if i < s.len() {
        lemma_digits_value_grows(s, i + 1);
        assert(s.take(i + 1).drop_last() =~= s.take(i));
    } else {
        assert(s.take(i) =~= s);
    }
}

/// Parse a port number as `str::parse::<u16>` does.
pub fn parse_u16(s: &str) -> (r: Option<u16>)
    ensures
        r == parse_u16_spec(s@),
{
    let n = s.unicode_len();
    let mut start: usize = 0;
    if n > 0 && s.get_char(0) == '+' {
        start = 1;
    }
    let ghost d = unsigned_part(s@);
    assert(d =~= s@.subrange(start as int, n as int));
    if start == n {
        return None;
    }
    let mut acc: u32 = 0;
    let mut i: usize = start;
    while i < n
        invariant
            n == s@.len(),
            start <= i <= n,
            d == s@.subrange(start as int, n as int),
            d == unsigned_part(s@),
            acc <= 65535,
            acc == digits_value(d.take(i - start)),
            forall|j: int| 0 <= j < i - start ==> is_digit(#[trigger] d[j]),
        decreases n - i,
    {
        let c = s.get_char(i);
        assert(d[i - start] == c);
        if !('0' <= c && c <= '9') {
            assert(!is_digit(d[i - start]));
            assert(!all_digits(d));
            return None;
        }
        let v = (c as u32) - ('0' as u32);
        assert(d.take(i - start + 1).drop_last() =~= d.take(i - start));
        assert(d.take(i - start + 1).last() == c);
        assert(digits_value(d.take(i - start + 1)) == digits_value(d.take(i - start)) * 10 + v);
        acc = acc * 10 + v;
        if acc > 65535 {
            proof {
                if all_digits(d) {
                    lemma_digits_value_grows(d, i - start + 1);
                }
            }
            return None;
        }
        i = i + 1;
    }
    assert(d.take(n - start) =~= d);
    Some(acc as u16)
}

/// The `CORTEX_PORT` override is set but is not a valid port.
pub open spec fn port_rejected(env: EnvOverrides) -> bool {
    env.port is Some && parse_u16_spec(env.port->0@) is None
}

/// The text a field ends with: the environment's value if set, else the
/// file's if it holds one, else the default.
pub open spec fn pick_text(env_v: Option<String>, file_v: Option<String>, dflt: Seq<char>) -> Seq<char> {
    match env_v {
        Some(v) => v@,
        None => match file_v {
            Some(v) => v@,
            None => dflt,
        },
    }
}

/// A number the file may set, narrowed to the field's width, else the default.
pub open spec fn pick_file_u64(file_v: Option<i64>, dflt: u64) -> u64 {
    match file_v {
        Some(v) => v as u64,
        None => dflt,
    }
}

/// `c` is the configuration the layering of `file` (if any) and `env`
/// over the defaults produces.
pub open spec fn is_layered(c: AppConfig, file: Option<ConfigFileValues>, env: EnvOverrides) -> bool {
    let fb = match file { Some(f) => f.bind_addr, None => None };
    let fp = match file { Some(f) => f.port, None => None };
    let fu = match file { Some(f) => f.database_url, None => None };
    let fd = match file { Some(f) => f.data_dir, None => None };
    let fl = match file { Some(f) => f.log_level, None => None };
    let ft = match file { Some(f) => f.session_ttl_secs, None => None };
    let fw = match file { Some(f) => f.ws_ping_interval_secs, None => None };
    let fm = match file { Some(f) => f.max_upload_bytes, None => None };
    &&& c.bind_addr@ == pick_text(env.bind_addr, fb, "0.0.0.0"@)
    &&& c.port == match env.port {
        Some(p) => parse_u16_spec(p@)->0,
        None => match fp { Some(v) => v as u16, None => 8080u16 },
    }
    &&& c.database_url@ == pick_text(env.database_url, fu, "./data/cortex.db"@)
    &&& c.data_dir@ == pick_text(env.data_dir, fd, "./data"@)
    &&& c.log_level@ == pick_text(env.log_level, fl, "info"@)
    &&& c.session_ttl_secs == pick_file_u64(ft, 86400)
    &&& c.ws_ping_interval_secs == pick_file_u64(fw, 30)
    &&& c.max_upload_bytes == pick_file_u64(fm, 104857600)
}

/// The layered configuration passes validation.
pub open spec fn layering_valid(file: Option<ConfigFileValues>, env: EnvOverrides) -> bool {
    forall|c: AppConfig| is_layered(c, file, env) ==> validation_outcome(c) is None
}

impl AppConfig {
    /// Validate the config values after loading.
    pub fn validate(&self) -> (r: Result<(), ConfigError>)
        ensures
            validation_outcome(*self) is None ==> r is Ok,
            validation_outcome(*self) matches Some(m) ==> (r matches Err(ConfigError::Validation(e)) && e@ == m),
    {
        if self.port == 0 {
            return Err(ConfigError::Validation(String::from_str("port cannot be 0")));
        }
        if self.data_dir.as_str().is_empty() {
            return Err(ConfigError::Validation(String::from_str("data_dir cannot be empty")));
        }
        if self.database_url.as_str().is_empty() {
            return Err(ConfigError::Validation(String::from_str("database_url cannot be empty")));
        }
        let level = self.log_level.as_str();
        let ok = equals(level, "trace") || equals(level, "debug") || equals(level, "info")
            || equals(level, "warn") || equals(level, "error");
        proof {
            let v = valid_levels();
            if v.contains(level@) {
                let k = choose|k: int| 0 <= k < v.len() && v[k] == level@;
                assert(k == 0 || k == 1 || k == 2 || k == 3 || k == 4);
            }
            if level@ == "trace"@ { assert(v[0] == level@); }
            if level@ == "debug"@ { assert(v[1] == level@); }
            if level@ == "info"@ { assert(v[2] == level@); }
            if level@ == "warn"@ { assert(v[3] == level@); }
            if level@ == "error"@ { assert(v[4] == level@); }
        }
        if !ok {
            let mut m = String::from_str("invalid log_level '");
            m.append(level);
            m.append("', must be one of: ");
            m.append("[\"trace\", \"debug\", \"info\", \"warn\", \"error\"]");
            return Err(ConfigError::Validation(m));
        }
        Ok(())
    }

    /// Lay the values a configuration file holds over this configuration.
    pub fn apply_file(&mut self, f: ConfigFileValues)
        ensures
            *final(self) == with_file(*old(self), f),
    {
        let ghost f0 = f;
        let ConfigFileValues {
            bind_addr,
            port,
            database_url,
            data_dir,
            log_level,
            session_ttl_secs,
            ws_ping_interval_secs,
            max_upload_bytes,
        } = f;
        if let Some(v) = bind_addr {
            self.bind_addr = v;
        }
        if let Some(v) = port {
            self.port = v as u16;
        }
        if let Some(v) = database_url {
            self.database_url = v;
        }
        if let Some(v) = data_dir {
            self.data_dir = v;
        }
        if let Some(v) = log_level {
            self.log_level = v;
        }
        if let Some(v) = session_ttl_secs {
            self.session_ttl_secs = v as u64;
        }
        if let Some(v) = ws_ping_interval_secs {
            self.ws_ping_interval_secs = v as u64;
        }
        if let Some(v) = max_upload_bytes {
            self.max_upload_bytes = v as u64;
        }
    }

    /// Lay the environment overrides over this configuration. A `CORTEX_PORT`
    /// value that is not a valid port is refused and nothing after it is
    /// applied.
    pub fn apply_env(&mut self, env: EnvOverrides) -> (r: Result<(), ConfigError>)
        ensures
            port_rejected(env) ==> (r matches Err(ConfigError::Validation(m))
                && m@ == "invalid CORTEX_PORT: "@ + env.port->0@),
            !port_rejected(env) ==> r is Ok && *final(self) == (AppConfig {
                bind_addr: or_else(env.bind_addr, old(self).bind_addr),
                port: match env.port { Some(p) => parse_u16_spec(p@)->0, None => old(self).port },
                database_url: or_else(env.database_url, old(self).database_url),
                data_dir: or_else(env.data_dir, old(self).data_dir),
                log_level: or_else(env.log_level, old(self).log_level),
                ..*old(self)
            }),
    {
        let EnvOverrides { bind_addr, port, database_url, data_dir, log_level } = env;
        if let Some(v) = bind_addr {
            self.bind_addr = v;
        }
        if let Some(v) = port {
            match parse_u16(v.as_str()) {
                Some(p) => {
                    self.port = p;
                },
                None => {
                    return Err(
                        ConfigError::Validation(String::from_str("invalid CORTEX_PORT: ").concat(v.as_str())),
                    );
                },
            }
        }
        if let Some(v) = database_url {
            self.database_url = v;
        }
        if let Some(v) = data_dir {
            self.data_dir = v;
        }
        if let Some(v) = log_level {
            self.log_level = v;
        }
        Ok(())
    }

    /// Build the configuration with its precedence: built-in defaults, then
    /// the configuration file's values (when a file was read), then the
    /// environment overrides; the result is validated.
    pub fn layered(file: Option<ConfigFileValues>, env: EnvOverrides) -> (r: Result<AppConfig, ConfigError>)
        ensures
            port_rejected(env) ==> (r matches Err(ConfigError::Validation(m))
                && m@ == "invalid CORTEX_PORT: "@ + env.port->0@),
            !port_rejected(env) ==> (r is Ok <==> layering_valid(file, env)),
            !port_rejected(env) && !layering_valid(file, env) ==> (r matches Err(ConfigError::Validation(m))
                && forall|c: AppConfig| #[trigger] is_layered(c, file, env) ==> validation_outcome(c) == Some(m@)),
            r matches Ok(c) ==> is_layered(c, file, env),
    {
        let mut config = AppConfig::default();
        if let Some(f) = file {
            config.apply_file(f);
        }
        config.apply_env(env)?;
        assert(is_layered(config, file, env));
        proof {
            assert forall|c: AppConfig| is_layered(c, file, env) implies validation_outcome(c)
                == validation_outcome(config) by {
                assert(c.data_dir@ == config.data_dir@);
                assert(c.database_url@ == config.database_url@);
                assert(c.log_level@ == config.log_level@);
            }
        }
        match config.validate() {
            Ok(()) => Ok(config),
            Err(e) => Err(e),
        }
    }
}

} // verus!
