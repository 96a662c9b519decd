use fluss_gateway::config::{
    AuthType, ConfigError, FileAuthConfig, FileConfig, FileFlussConfig, FileLogConfig,
    FilePoolConfig, FileServerConfig, GatewayConfig, ServeArgs,
};

fn empty_file() -> FileConfig {
    FileConfig { server: None, fluss: None, auth: None, pool: None, log: None }
}

fn no_args() -> ServeArgs {
    ServeArgs {
        host: None,
        port: None,
        fluss_coordinator: None,
        auth_type: None,
        sasl_username: None,
        sasl_password: None,
        config: None,
        pool_max_connections: None,
        pool_idle_timeout_secs: None,
        log_level: None,
    }
}

#[test]
fn default_config() {
    let c = GatewayConfig::default();
    assert_eq!(c.server.host, "0.0.0.0");
    assert_eq!(c.server.port, 8080);
    assert_eq!(c.server.max_body_size, 16 * 1024 * 1024);
    assert_eq!(c.fluss.coordinator, "localhost:9123");
    assert_eq!(c.auth.auth_type, AuthType::NoAuth);
    assert_eq!(c.auth.startup_username, "");
    assert_eq!(c.pool.max_connections, 500);
    assert_eq!(c.pool.idle_timeout_secs, 600);
    assert_eq!(c.log.level, "info");
}

#[test]
fn empty_file_config() {
    let c = GatewayConfig::from_file_config(&empty_file()).unwrap();
    assert_eq!(c.server.host, "0.0.0.0");
    assert_eq!(c.server.port, 8080);
    assert_eq!(c.server.max_body_size, 16 * 1024 * 1024);
    assert_eq!(c.fluss.coordinator, "localhost:9123");
    assert_eq!(c.auth.auth_type, AuthType::NoAuth);
    assert_eq!(c.pool.max_connections, 500);
    assert_eq!(c.pool.idle_timeout_secs, 600);
    assert_eq!(c.log.level, "info");
}

#[test]
fn file_with_only_auth_type_keeps_defaults() {
    let mut file = empty_file();
    file.auth = Some(FileAuthConfig { auth_type: Some("passthrough".into()), startup_username: None, startup_password: None });
    let c = GatewayConfig::from_file_config(&file).unwrap();
    assert_eq!(c.auth.auth_type, AuthType::Passthrough);
    assert_eq!(c.auth.startup_username, "");
    assert_eq!(c.server.host, "0.0.0.0");
    assert_eq!(c.server.port, 8080);
    assert_eq!(c.server.max_body_size, 16777216);
    assert_eq!(c.fluss.coordinator, "localhost:9123");
    assert_eq!(c.pool.max_connections, 500);
    assert_eq!(c.pool.idle_timeout_secs, 600);
    assert_eq!(c.log.level, "info");
}

#[test]
fn absent_keys_inside_present_tables_keep_defaults() {
    let mut file = empty_file();
    file.server = Some(FileServerConfig { host: None, port: Some(9000), max_body_size: None });
    file.log = Some(FileLogConfig { level: None });
    let c = GatewayConfig::from_file_config(&file).unwrap();
    assert_eq!(c.server.host, "0.0.0.0");
    assert_eq!(c.server.port, 9000);
    assert_eq!(c.log.level, "info");
}

#[test]
fn full_file_config() {
    let file = FileConfig {
        server: Some(FileServerConfig { host: Some("127.0.0.1".into()), port: Some(9000), max_body_size: Some(1024) }),
        fluss: Some(FileFlussConfig { coordinator: Some("fluss:9123".into()) }),
        auth: Some(FileAuthConfig {
            auth_type: Some("passthrough".into()),
            startup_username: Some("admin".into()),
            startup_password: Some("pw".into()),
        }),
        pool: Some(FilePoolConfig { max_connections: Some(10), idle_timeout_secs: None }),
        log: Some(FileLogConfig { level: Some("debug".into()) }),
    };
    let c = GatewayConfig::from_file_config(&file).unwrap();
    assert_eq!(c.server.host, "127.0.0.1");
    assert_eq!(c.server.port, 9000);
    assert_eq!(c.server.max_body_size, 1024);
    assert_eq!(c.fluss.coordinator, "fluss:9123");
    assert_eq!(c.auth.auth_type, AuthType::Passthrough);
    assert_eq!(c.auth.startup_username, "admin");
    assert_eq!(c.auth.startup_password, "pw");
    assert_eq!(c.pool.max_connections, 10);
    assert_eq!(c.pool.idle_timeout_secs, 600);
    assert_eq!(c.log.level, "debug");
}

#[test]
fn invalid_auth_type_is_rejected() {
    let mut file = empty_file();
    file.auth = Some(FileAuthConfig { auth_type: Some("kerberos".into()), startup_username: None, startup_password: None });
    match GatewayConfig::from_file_config(&file) {
        Err(e @ ConfigError::InvalidAuthType(_)) => assert_eq!(e.to_string(), "invalid auth type: kerberos"),
        Ok(_) => panic!("accepted an unknown auth type"),
    }
    file.auth = Some(FileAuthConfig { auth_type: Some("none".into()), startup_username: None, startup_password: None });
    assert_eq!(GatewayConfig::from_file_config(&file).unwrap().auth.auth_type, AuthType::NoAuth);
}

#[test]
fn command_line_overrides_file() {
    let mut args = no_args();
    args.host = Some("10.0.0.1".into());
    args.port = Some(8181);
    args.auth_type = Some("passthrough".into());
    args.pool_max_connections = Some(42);
    args.log_level = Some("warn".into());
    let c = args.load_config(GatewayConfig::default());
    assert_eq!(c.server.host, "10.0.0.1");
    assert_eq!(c.server.port, 8181);
    assert_eq!(c.fluss.coordinator, "localhost:9123");
    assert_eq!(c.auth.auth_type, AuthType::Passthrough);
    assert_eq!(c.pool.max_connections, 42);
    assert_eq!(c.pool.idle_timeout_secs, 600);
    assert_eq!(c.log.level, "warn");
}

#[test]
fn unknown_auth_type_argument_keeps_configured_mode() {
    let mut base = GatewayConfig::default();
    base.auth.auth_type = AuthType::Passthrough;
    let mut args = no_args();
    args.auth_type = Some("bogus".into());
    assert_eq!(args.load_config(base).auth.auth_type, AuthType::Passthrough);
}

#[test]
fn no_arguments_change_nothing() {
    let c = no_args().load_config(GatewayConfig::default());
    assert_eq!(c.server.host, "0.0.0.0");
    assert_eq!(c.server.port, 8080);
    assert_eq!(c.auth.auth_type, AuthType::NoAuth);
    assert_eq!(c.log.level, "info");
}

#[test]
fn applying_arguments_twice_changes_nothing() {
    let mut args = no_args();
    args.host = Some("10.0.0.1".into());
    args.port = Some(9000);
    args.auth_type = Some("passthrough".into());
    args.pool_max_connections = Some(7);
    let once = args.load_config(GatewayConfig::default());
    let twice = args.load_config(once.clone());
    assert_eq!(twice.server.host, once.server.host);
    assert_eq!(twice.server.port, once.server.port);
    assert_eq!(twice.auth.auth_type, once.auth.auth_type);
    assert_eq!(twice.pool.max_connections, once.pool.max_connections);
    assert_eq!(twice.log.level, once.log.level);
}

#[test]
fn config_file_choice_and_fallback() {
    let mut args = no_args();
    assert_eq!(args.config_path(), "gateway.toml");
    args.port = Some(9100);
    // the default file falls back to the defaults when it cannot be read
    let c = args.resolve_config::<String>(Err("unreadable".into())).unwrap();
    assert_eq!(c.server.host, "0.0.0.0");
    assert_eq!(c.server.port, 9100);
    assert_eq!(c.log.level, "info");
    // a file read successfully is the base for the overrides
    let mut base = GatewayConfig::default();
    base.log.level = "debug".into();
    let c = args.resolve_config::<String>(Ok(base)).unwrap();
    assert_eq!(c.log.level, "debug");
    assert_eq!(c.server.port, 9100);
    // a file given on the command line must be read
    args.config = Some("/etc/gw.toml".into());
    assert_eq!(args.config_path(), "/etc/gw.toml");
    assert_eq!(args.resolve_config::<String>(Err("missing".into())).unwrap_err(), "missing");
}
