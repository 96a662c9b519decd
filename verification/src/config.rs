//! Gateway configuration: defaults, the values read from `gateway.toml`, and
//! command-line overrides.
use vstd::prelude::*;
use crate::text::{str_equal};

verus! {

broadcast use vstd::string::group_string_axioms;

/// Gateway configuration, loaded from `gateway.toml` and overridden by CLI args.
#[derive(Clone, Debug)]
pub struct GatewayConfig {
    pub server: ServerConfig,
    pub fluss: FlussConfig,
    pub auth: AuthConfig,
    pub pool: PoolConfig,
    pub log: LogConfig,
}

#[derive(Clone, Debug)]
pub struct ServerConfig {
    pub host: String,
    pub port: u16,
    pub max_body_size: usize,
}

/// Default request body limit: 16 MB.
pub const DEFAULT_MAX_BODY_SIZE: usize = 16 * 1024 * 1024;

/// Default number of pooled connections.
pub const DEFAULT_MAX_CONNECTIONS: u64 = 500;

/// Default idle time before a pooled connection is evicted, in seconds.
pub const DEFAULT_IDLE_TIMEOUT_SECS: u64 = 600;

impl Default for ServerConfig {
    fn default() -> (c: Self)
        ensures
            c.host@ == "0.0.0.0"@,
            c.port == 8080,
            c.max_body_size == DEFAULT_MAX_BODY_SIZE,
    {
        ServerConfig {
            host: String::from_str("0.0.0.0"),
            port: 8080,
            max_body_size: DEFAULT_MAX_BODY_SIZE,
        }
    }
}

#[derive(Clone, Debug)]
pub struct FlussConfig {
    pub coordinator: String,
}

impl Default for FlussConfig {
    fn default() -> (c: Self)
        ensures
            c.coordinator@ == "localhost:9123"@,
    {
        FlussConfig { coordinator: String::from_str("localhost:9123") }
    }
}

/// Auth mode: `"none"` (default, uses static startup credentials) or
/// `"passthrough"` (per-request credentials required via HTTP Basic Auth).
#[derive(Clone, Copy, Debug, PartialEq, Eq, Structural)]
pub enum AuthType {
    /// `none`: every request uses the startup credentials
    NoAuth,
    /// `passthrough`: every request carries its own Basic Auth credentials
    Passthrough,
}

impl Default for AuthType {
    fn default() -> (t: Self)
        ensures
            t == AuthType::NoAuth,
    {
        AuthType::NoAuth
    }
}

#[derive(Clone, Debug)]
pub struct AuthConfig {
    pub auth_type: AuthType,
    pub startup_username: String,
    pub startup_password: String,
}

impl Default for AuthConfig {
    fn default() -> (c: Self)
        ensures
            c.auth_type == AuthType::NoAuth,
            c.startup_username@ == Seq::<char>::empty(),
            c.startup_password@ == Seq::<char>::empty(),
    {
        AuthConfig {
            auth_type: AuthType::NoAuth,
            startup_username: String::new(),
            startup_password: String::new(),
        }
    }
}

#[derive(Clone, Debug)]
pub struct PoolConfig {
    pub max_connections: u64,
    pub idle_timeout_secs: u64,
}

impl Default for PoolConfig {
    fn default() -> (c: Self)
        ensures
            c.max_connections == DEFAULT_MAX_CONNECTIONS,
            c.idle_timeout_secs == DEFAULT_IDLE_TIMEOUT_SECS,
    {
        PoolConfig {
            max_connections: DEFAULT_MAX_CONNECTIONS,
            idle_timeout_secs: DEFAULT_IDLE_TIMEOUT_SECS,
        }
    }
}

#[derive(Clone, Debug)]
pub struct LogConfig {
    pub level: String,
}

impl Default for LogConfig {
    fn default() -> (c: Self)
        ensures
            c.level@ == "info"@,
    {
        LogConfig { level: String::from_str("info") }
    }
}

/// The built-in configuration.
pub open spec fn is_default_config(c: GatewayConfig) -> bool {
    &&& c.server.host@ == "0.0.0.0"@
    &&& c.server.port == 8080
    &&& c.server.max_body_size == DEFAULT_MAX_BODY_SIZE
    &&& c.fluss.coordinator@ == "localhost:9123"@
    &&& c.auth.auth_type == AuthType::NoAuth
    &&& c.auth.startup_username@ == Seq::<char>::empty()
    &&& c.auth.startup_password@ == Seq::<char>::empty()
    &&& c.pool.max_connections == DEFAULT_MAX_CONNECTIONS
    &&& c.pool.idle_timeout_secs == DEFAULT_IDLE_TIMEOUT_SECS
    &&& c.log.level@ == "info"@
}

impl Default for GatewayConfig {
    fn default() -> (c: Self)
        ensures
            is_default_config(c),
    {
        GatewayConfig {
            server: ServerConfig::default(),
            fluss: FlussConfig::default(),
            auth: AuthConfig::default(),
            pool: PoolConfig::default(),
            log: LogConfig::default(),
        }
    }
}

// === File config ===

/// The `[server]` table of `gateway.toml`.
#[derive(Clone, Debug)]
pub struct FileServerConfig {
    pub host: Option<String>,
    pub port: Option<u16>,
    pub max_body_size: Option<usize>,
}

/// The `[fluss]` table of `gateway.toml`.
#[derive(Clone, Debug)]
pub struct FileFlussConfig {
    pub coordinator: Option<String>,
}

/// The `[auth]` table of `gateway.toml`.
#[derive(Clone, Debug)]
pub struct FileAuthConfig {
    pub auth_type: Option<String>,
    pub startup_username: Option<String>,
    pub startup_password: Option<String>,
}

/// The `[pool]` table of `gateway.toml`.
#[derive(Clone, Debug)]
pub struct FilePoolConfig {
    pub max_connections: Option<u64>,
    pub idle_timeout_secs: Option<u64>,
}

/// The `[log]` table of `gateway.toml`.
#[derive(Clone, Debug)]
pub struct FileLogConfig {
    pub level: Option<String>,
}

/// The contents of `gateway.toml`, every table and key optional.
#[derive(Clone, Debug)]
pub struct FileConfig {
    pub server: Option<FileServerConfig>,
    pub fluss: Option<FileFlussConfig>,
    pub auth: Option<FileAuthConfig>,
    pub pool: Option<FilePoolConfig>,
    pub log: Option<FileLogConfig>,
}

/// Why a configuration file was rejected.
#[derive(Debug)]
pub enum ConfigError {
    /// `auth.type` names no known auth mode.
    InvalidAuthType(String),
}

impl ConfigError {
    /// The error's message.
    pub fn to_string(&self) -> (s: String)
        ensures
            match self {
                ConfigError::InvalidAuthType(t) => s@ == "invalid auth type: "@ + t@,
            },
    {
        match self {
            ConfigError::InvalidAuthType(t) => {
                let mut s = String::from_str("invalid auth type: ");
                s.append(t.as_str());
                s
            },
        }
    }
}

/// Text of an optional string, empty when absent.
pub open spec fn text_or_empty(o: Option<String>) -> Seq<char> {
    match o {
        Some(s) => s@,
        None => Seq::empty(),
    }
}

/// The `auth.type` key of a file configuration.
pub open spec fn file_auth_type(file: FileConfig) -> Option<String> {
    match file.auth {
        Some(a) => a.auth_type,
        None => None,
    }
}

/// Auth mode named by an `auth.type` value; absent means `none`.
pub open spec fn auth_type_named(t: Option<String>) -> Option<AuthType> {
    match t {
        None => Some(AuthType::NoAuth),
        Some(s) => if s@ == "none"@ {
            Some(AuthType::NoAuth)
        } else if s@ == "passthrough"@ {
            Some(AuthType::Passthrough)
        } else {
            None
        },
    }
}

/// Value of an optional setting, `default` when absent.
pub open spec fn value_or<T>(o: Option<T>, default: T) -> T {
    match o {
        Some(v) => v,
        None => default,
    }
}

/// The configuration a file yields: keys present in the file are taken as
/// they are; an absent key takes its default (host `0.0.0.0`, port 8080, a
/// 16 MB body limit, coordinator `localhost:9123`, empty startup
/// credentials, 500 connections idle for at most 600 seconds, log level
/// `info`).
pub open spec fn config_from_file(file: FileConfig, c: GatewayConfig) -> bool {
    &&& Some(c.auth.auth_type) == auth_type_named(file_auth_type(file))
    &&& c.server.host@ == text_or(
        match file.server {
            Some(s) => s.host,
            None => None,
        },
        "0.0.0.0"@,
    )
    &&& c.server.port == value_or(
        match file.server {
            Some(s) => s.port,
            None => None,
        },
        8080u16,
    )
    &&& c.server.max_body_size == value_or(
        match file.server {
            Some(s) => s.max_body_size,
            None => None,
        },
        DEFAULT_MAX_BODY_SIZE,
    )
    &&& c.fluss.coordinator@ == text_or(
        match file.fluss {
            Some(f) => f.coordinator,
            None => None,
        },
        "localhost:9123"@,
    )
    &&& c.auth.startup_username@ == text_or_empty(
        match file.auth {
            Some(a) => a.startup_username,
            None => None,
        },
    )
    &&& c.auth.startup_password@ == text_or_empty(
        match file.auth {
            Some(a) => a.startup_password,
            None => None,
        },
    )
    &&& c.pool.max_connections == value_or(
        match file.pool {
            Some(p) => p.max_connections,
            None => None,
        },
        DEFAULT_MAX_CONNECTIONS,
    )
    &&& c.pool.idle_timeout_secs == value_or(
        match file.pool {
            Some(p) => p.idle_timeout_secs,
            None => None,
        },
        DEFAULT_IDLE_TIMEOUT_SECS,
    )
    &&& c.log.level@ == text_or(
        match file.log {
            Some(l) => l.level,
            None => None,
        },
        "info"@,
    )
}

/// Keys absent from the file keep their defaults: a file that gives at most
/// the auth mode yields the default configuration in that mode.
pub proof fn lemma_absent_keys_take_defaults(file: FileConfig, c: GatewayConfig)
    requires
        file.server is None,
        file.fluss is None,
        file.pool is None,
        file.log is None,
        file.auth matches Some(a) ==> a.startup_username is None && a.startup_password is None,
        config_from_file(file, c),
    ensures
        is_default_config(GatewayConfig { auth: AuthConfig { auth_type: AuthType::NoAuth, ..c.auth }, ..c }),
{
}

fn string_or_empty(o: &Option<String>) -> (s: String)
    ensures
        s@ == text_or_empty(*o),
{
    match o {
        Some(t) => t.clone(),
        None => String::new(),
    }
}

fn string_or(o: &Option<String>, default: &str) -> (s: String)
    ensures
        s@ == text_or(*o, default@),
{
    match o {
        Some(t) => t.clone(),
        None => String::from_str(default),
    }
}

/// Reads the auth mode named by an `auth.type` value.
pub fn parse_auth_type(t: &Option<String>) -> (r: Result<AuthType, ConfigError>)
    ensures
        match r {
            Ok(a) => auth_type_named(*t) == Some(a),
            Err(ConfigError::InvalidAuthType(name)) => auth_type_named(*t) is None && (*t
                matches Some(s) && name@ == s@),
        },
{
    proof {
        reveal_strlit("none");
        reveal_strlit("passthrough");
    }
    match t {
        None => Ok(AuthType::NoAuth),
        Some(s) => if str_equal(s.as_str(), "none") {
            Ok(AuthType::NoAuth)
        } else if str_equal(s.as_str(), "passthrough") {
            Ok(AuthType::Passthrough)
        } else {
            Err(ConfigError::InvalidAuthType(s.clone()))
        },
    }
}

impl GatewayConfig {
    /// The configuration held in a parsed `gateway.toml`: rejected when
    /// `auth.type` names an unknown mode, otherwise built as
    /// `config_from_file` describes.
    pub fn from_file_config(file: &FileConfig) -> (r: Result<GatewayConfig, ConfigError>)
        ensures
            match r {
                Ok(c) => config_from_file(*file, c),
                Err(ConfigError::InvalidAuthType(name)) => auth_type_named(file_auth_type(*file))
                    is None && (file_auth_type(*file) matches Some(s) && name@ == s@),
            },
    {
        let no_type: Option<String> = None;
        let auth_type = match &file.auth {
            Some(a) => parse_auth_type(&a.auth_type),
            None => parse_auth_type(&no_type),
        };
        let auth_type = match auth_type {
            Ok(t) => t,
            Err(e) => return Err(e),
        };
        let no_text: Option<String> = None;
        let (host, port, max_body_size) = match &file.server {
            Some(s) => (
                string_or(&s.host, "0.0.0.0"),
                match s.port {
                    Some(p) => p,
                    None => 8080,
                },
                match s.max_body_size {
                    Some(m) => m,
                    None => DEFAULT_MAX_BODY_SIZE,
                },
            ),
            None => (string_or(&no_text, "0.0.0.0"), 8080, DEFAULT_MAX_BODY_SIZE),
        };
        let coordinator = match &file.fluss {
            Some(f) => string_or(&f.coordinator, "localhost:9123"),
            None => string_or(&no_text, "localhost:9123"),
        };
        let (startup_username, startup_password) = match &file.auth {
            Some(a) => (string_or_empty(&a.startup_username), string_or_empty(&a.startup_password)),
            None => (String::new(), String::new()),
        };
        let (max_connections, idle_timeout_secs) = match &file.pool {
            Some(p) => (
                match p.max_connections {
                    Some(m) => m,
                    None => DEFAULT_MAX_CONNECTIONS,
                },
                match p.idle_timeout_secs {
                    Some(t) => t,
                    None => DEFAULT_IDLE_TIMEOUT_SECS,
                },
            ),
            None => (DEFAULT_MAX_CONNECTIONS, DEFAULT_IDLE_TIMEOUT_SECS),
        };
        let level = match &file.log {
            Some(l) => string_or(&l.level, "info"),
            None => string_or(&no_text, "info"),
        };
        Ok(GatewayConfig {
            server: ServerConfig { host, port, max_body_size },
            fluss: FlussConfig { coordinator },
            auth: AuthConfig { auth_type, startup_username, startup_password },
            pool: PoolConfig { max_connections, idle_timeout_secs },
            log: LogConfig { level },
        })
    }
}

// === Command-line overrides ===

/// Settings given on the command line of `serve`; each one given replaces
/// the configured value.
#[derive(Clone, Debug)]
pub struct ServeArgs {
    pub host: Option<String>,
    pub port: Option<u16>,
    pub fluss_coordinator: Option<String>,
    pub auth_type: Option<String>,
    pub sasl_username: Option<String>,
    pub sasl_password: Option<String>,
    pub config: Option<String>,
    pub pool_max_connections: Option<u32>,
    pub pool_idle_timeout_secs: Option<u64>,
    pub log_level: Option<String>,
}

/// Text of `o` when given, otherwise `current`.
pub open spec fn text_or(o: Option<String>, current: Seq<char>) -> Seq<char> {
    match o {
        Some(s) => s@,
        None => current,
    }
}

/// The configuration after the command-line overrides: each given setting
/// replaces its value; an auth type other than `none` or `passthrough`
/// leaves the configured mode as it was.
pub open spec fn overridden(args: ServeArgs, base: GatewayConfig, c: GatewayConfig) -> bool {
    &&& c.server.host@ == text_or(args.host, base.server.host@)
    &&& c.server.port == match args.port {
        Some(p) => p,
        None => base.server.port,
    }
    &&& c.server.max_body_size == base.server.max_body_size
    &&& c.fluss.coordinator@ == text_or(args.fluss_coordinator, base.fluss.coordinator@)
    &&& c.auth.auth_type == match args.auth_type {
        Some(t) => if t@ == "none"@ {
            AuthType::NoAuth
        } else if t@ == "passthrough"@ {
            AuthType::Passthrough
        } else {
            base.auth.auth_type
        },
        None => base.auth.auth_type,
    }
    &&& c.auth.startup_username@ == text_or(args.sasl_username, base.auth.startup_username@)
    &&& c.auth.startup_password@ == text_or(args.sasl_password, base.auth.startup_password@)
    &&& c.pool.max_connections == match args.pool_max_connections {
        Some(m) => m as u64,
        None => base.pool.max_connections,
    }
    &&& c.pool.idle_timeout_secs == match args.pool_idle_timeout_secs {
        Some(t) => t,
        None => base.pool.idle_timeout_secs,
    }
    &&& c.log.level@ == text_or(args.log_level, base.log.level@)
}

/// Two configurations hold the same settings.
pub open spec fn same_settings(a: GatewayConfig, b: GatewayConfig) -> bool {
    &&& a.server.host@ == b.server.host@
    &&& a.server.port == b.server.port
    &&& a.server.max_body_size == b.server.max_body_size
    &&& a.fluss.coordinator@ == b.fluss.coordinator@
    &&& a.auth.auth_type == b.auth.auth_type
    &&& a.auth.startup_username@ == b.auth.startup_username@
    &&& a.auth.startup_password@ == b.auth.startup_password@
    &&& a.pool.max_connections == b.pool.max_connections
    &&& a.pool.idle_timeout_secs == b.pool.idle_timeout_secs
    &&& a.log.level@ == b.log.level@
}

/// Without any setting on the command line, the loaded configuration is the
/// file's (or the defaults) unchanged.
pub proof fn lemma_no_overrides_keep_config(args: ServeArgs, base: GatewayConfig, c: GatewayConfig)
    requires
        args.host is None,
        args.port is None,
        args.fluss_coordinator is None,
        args.auth_type is None,
        args.sasl_username is None,
        args.sasl_password is None,
        args.pool_max_connections is None,
        args.pool_idle_timeout_secs is None,
        args.log_level is None,
        overridden(args, base, c),
    ensures
        same_settings(c, base),
{
}

/// Applying the same command-line settings a second time changes nothing.
pub proof fn lemma_overrides_idempotent(
    args: ServeArgs,
    base: GatewayConfig,
    once: GatewayConfig,
    twice: GatewayConfig,
)
    requires
        overridden(args, base, once),
        overridden(args, once, twice),
    ensures
        same_settings(once, twice),
{
}

/// Every setting given on the command line wins over the configured value,
/// whatever that was; a known auth mode name selects that mode.
pub proof fn lemma_given_settings_win(args: ServeArgs, base: GatewayConfig, c: GatewayConfig)
    requires
        overridden(args, base, c),
    ensures
        args.host matches Some(h) ==> c.server.host@ == h@,
        args.port matches Some(p) ==> c.server.port == p,
        args.fluss_coordinator matches Some(f) ==> c.fluss.coordinator@ == f@,
        args.sasl_username matches Some(u) ==> c.auth.startup_username@ == u@,
        args.sasl_password matches Some(pw) ==> c.auth.startup_password@ == pw@,
        args.pool_max_connections matches Some(m) ==> c.pool.max_connections == m,
        args.pool_idle_timeout_secs matches Some(t) ==> c.pool.idle_timeout_secs == t,
        args.log_level matches Some(l) ==> c.log.level@ == l@,
        args.auth_type matches Some(t) && t@ == "none"@ ==> c.auth.auth_type == AuthType::NoAuth,
        args.auth_type matches Some(t) && t@ == "passthrough"@ ==> c.auth.auth_type
            == AuthType::Passthrough,
        c.server.max_body_size == base.server.max_body_size,
{
    reveal_strlit("none");
    reveal_strlit("passthrough");
    assert("passthrough"@.len() != "none"@.len());
}

fn replace_text(target: &mut String, o: &Option<String>)
    ensures
        final(target)@ == text_or(*o, old(target)@),
{
    if let Some(v) = o {
        *target = v.clone();
    }
}

impl ServeArgs {
    /// The configuration file to read: the one given with `--config`,
    /// otherwise `gateway.toml`.
    pub fn config_path(&self) -> (p: String)
        ensures
            p@ == match self.config {
                Some(c) => c@,
                None => "gateway.toml"@,
            },
    {
        match &self.config {
            Some(c) => c.clone(),
            None => String::from_str("gateway.toml"),
        }
    }

    /// The configuration to serve with, from the outcome of reading the
    /// configuration file: a file given with `--config` must be read, and
    /// its error is returned; when the default file cannot be read the
    /// defaults are used instead. The command-line overrides are applied.
    pub fn resolve_config<E>(&self, loaded: Result<GatewayConfig, E>) -> (r: Result<GatewayConfig, E>)
        ensures
            match loaded {
                Ok(base) => r matches Ok(c) && overridden(*self, base, c),
                Err(e) => match self.config {
                    Some(_) => r == Err::<GatewayConfig, E>(e),
                    None => r matches Ok(c) && exists|d: GatewayConfig|
                        is_default_config(d) && #[trigger] overridden(*self, d, c),
                },
            },
    {
        match loaded {
            Ok(base) => Ok(self.load_config(base)),
            Err(e) => match &self.config {
                Some(_) => Err(e),
                None => {
                    let d = GatewayConfig::default();
                    let c = self.load_config(d);
                    Ok(c)
                },
            },
        }
    }
}

impl ServeArgs {
    /// Applies the command-line overrides to `config` (the configuration read
    /// from the file, or the defaults).
    pub fn load_config(&self, config: GatewayConfig) -> (c: GatewayConfig)
        ensures
            overridden(*self, config, c),
    {
        proof {
            reveal_strlit("none");
            reveal_strlit("passthrough");
        }
        let ghost base = config;
        let mut config = config;
        replace_text(&mut config.server.host, &self.host);
        if let Some(v) = self.port {
            config.server.port = v;
        }
        replace_text(&mut config.fluss.coordinator, &self.fluss_coordinator);
        if let Some(v) = &self.auth_type {
            if str_equal(v.as_str(), "none") {
                config.auth.auth_type = AuthType::NoAuth;
            } else if str_equal(v.as_str(), "passthrough") {
                config.auth.auth_type = AuthType::Passthrough;
            }
        }
        replace_text(&mut config.auth.startup_username, &self.sasl_username);
        replace_text(&mut config.auth.startup_password, &self.sasl_password);
        if let Some(v) = self.pool_max_connections {
            config.pool.max_connections = v as u64;
        }
        if let Some(v) = self.pool_idle_timeout_secs {
            config.pool.idle_timeout_secs = v;
        }
        replace_text(&mut config.log.level, &self.log_level);
        config
    }
}

} // verus!
