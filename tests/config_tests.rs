use barleywine::config::{Config, ConfigError, ConfigProbe, ConfigSource};
use barleywine::resolve::PathKind;

fn probe(host_is_ip_address: bool) -> ConfigProbe {
    ConfigProbe {
        webroot: PathKind::Directory,
        log_directory: PathKind::Missing,
        host_is_ip_address,
        custom_template_exists: false,
        custom_css_exists: false,
        custom_js_exists: false,
    }
}

#[test]
fn test_default_config() {
    let config = Config::default();
    assert_eq!(config.server.port, 8000);
    assert_eq!(config.logging.level, "info");
    assert_eq!(config.content.webroot, "webroot");
    assert!(config.content.markdown_enabled);
    assert!(config.cache.enabled);
}

#[test]
fn test_config_validation() {
    let mut config = Config::default();

    // Test invalid log level
    config.logging.level = "invalid".to_string();
    assert!(config.validate(&probe(true)).is_err());

    // Test invalid port
    config.logging.level = "info".to_string();
    config.server.port = 0;
    assert!(config.validate(&probe(true)).is_err());

    // Test invalid host
    config.server.port = 8000;
    config.server.host = "invalid-host".to_string();
    assert!(config.validate(&probe(false)).is_err());
}

#[test]
fn test_extension_filtering() {
    let mut config = Config::default();

    // Test with empty allowed list (should allow all except blocked)
    assert!(!config.is_extension_allowed(".env"));
    assert!(config.is_extension_allowed(".html"));
    assert!(config.is_extension_allowed(".css"));

    // Test with specific allowed extensions
    config.security.allowed_extensions = vec![".html".to_string(), ".css".to_string()];
    assert!(config.is_extension_allowed(".html"));
    assert!(config.is_extension_allowed(".css"));
    assert!(!config.is_extension_allowed(".js"));
    assert!(!config.is_extension_allowed(".env")); // Still blocked
}

#[test]
fn extension_filter_with_only_env_blocked() {
    let mut config = Config::default();
    config.security.blocked_extensions = vec![".env".to_string()];
    config.security.allowed_extensions = vec![];
    assert!(!config.is_extension_allowed(".env"));
    assert!(config.is_extension_allowed(".html"));
    config.security.allowed_extensions = vec![".html".to_string()];
    assert!(!config.is_extension_allowed(".css"));
    assert!(config.is_extension_allowed(".html"));
}

#[test]
fn default_config_lists() {
    let config = Config::default();
    assert_eq!(config.content.index_files, vec!["index.html", "index.md"]);
    assert_eq!(
        config.content.markdown_extensions,
        vec!["tables", "strikethrough", "task_lists", "autolinks"]
    );
    assert_eq!(config.security.blocked_extensions, vec![".env", ".git", ".svn", ".DS_Store"]);
    assert_eq!(config.server.host, "127.0.0.1");
    assert_eq!(config.server.max_request_size, Some(10 * 1024 * 1024));
    assert_eq!(config.performance.compression_level, 6);
    assert!(config.routes.mappings.is_empty());
}

#[test]
fn default_config_is_valid() {
    let config = Config::default();
    assert!(config.validate(&probe(true)).is_ok());
}

#[test]
fn validation_reports_each_error() {
    let mut config = Config::default();
    config.logging.level = "loud".to_string();
    assert!(matches!(config.validate(&probe(true)), Err(ConfigError::InvalidLogLevel(l)) if l == "loud"));

    let config = Config::default();
    let mut p = probe(true);
    p.webroot = PathKind::Missing;
    assert!(matches!(config.validate(&p), Err(ConfigError::WebrootNotFound(w)) if w == "webroot"));
    p.webroot = PathKind::File;
    assert!(matches!(config.validate(&p), Err(ConfigError::WebrootNotDirectory(w)) if w == "webroot"));

    let mut config = Config::default();
    config.server.port = 0;
    assert!(matches!(config.validate(&probe(true)), Err(ConfigError::InvalidPort(0))));

    let config = Config::default();
    assert!(matches!(config.validate(&probe(false)), Err(ConfigError::InvalidHost(h)) if h == "127.0.0.1"));

    let mut config = Config::default();
    config.logging.file = Some("logs/server.log".to_string());
    let mut p = probe(true);
    p.log_directory = PathKind::File;
    assert!(matches!(config.validate(&p), Err(ConfigError::LogDirectoryNotDirectory(d)) if d == "logs"));
    p.log_directory = PathKind::Directory;
    assert!(config.validate(&p).is_ok());

    let mut config = Config::default();
    config.template.custom_template = Some("page.html".to_string());
    assert!(matches!(config.validate(&probe(true)), Err(ConfigError::CustomTemplateNotFound(t)) if t == "page.html"));
    let mut p = probe(true);
    p.custom_template_exists = true;
    assert!(config.validate(&p).is_ok());

    let mut config = Config::default();
    config.template.custom_css = Some("site.css".to_string());
    assert!(matches!(config.validate(&probe(true)), Err(ConfigError::CustomCssNotFound(t)) if t == "site.css"));

    let mut config = Config::default();
    config.template.custom_js = Some("site.js".to_string());
    assert!(matches!(config.validate(&probe(true)), Err(ConfigError::CustomJsNotFound(t)) if t == "site.js"));

    let mut config = Config::default();
    config.performance.compression_level = 10;
    assert!(matches!(config.validate(&probe(true)), Err(ConfigError::InvalidCompressionLevel(10))));
    config.performance.compression_level = 0;
    assert!(matches!(config.validate(&probe(true)), Err(ConfigError::InvalidCompressionLevel(0))));
}

#[test]
fn config_error_messages() {
    assert_eq!(
        ConfigError::InvalidLogLevel("loud".to_string()).message(),
        "Invalid log level 'loud'. Valid levels are: error, warn, info, debug, trace"
    );
    assert_eq!(ConfigError::InvalidPort(0).message(), "Invalid port number: 0");
    assert_eq!(
        ConfigError::InvalidCompressionLevel(12).message(),
        "Invalid compression level: 12 (must be 1-9)"
    );
    assert_eq!(
        ConfigError::ReadError("a.toml".to_string(), "denied".to_string()).message(),
        "Failed to read configuration file a.toml: denied"
    );
    assert_eq!(
        ConfigError::WebrootNotFound("site".to_string()).message(),
        "Webroot directory not found: site"
    );
    assert_eq!(
        ConfigError::AlreadyInitialized.message(),
        "Configuration has already been initialized"
    );
}

#[test]
fn log_level_and_directory_overrides() {
    let mut config = Config::default();
    assert_eq!(config.get_log_level(None), "info");
    assert_eq!(config.get_log_level(Some("debug")), "debug");
    assert_eq!(config.get_log_directory(Some("var/log")), Some("var/log".to_string()));
    assert_eq!(config.get_log_directory(None), Some("logs".to_string()));
    config.logging.file = Some("var/log/barleywine/server.log".to_string());
    assert_eq!(config.get_log_directory(None), Some("var/log/barleywine".to_string()));
    assert_eq!(config.log_file_parent(), Some("var/log/barleywine".to_string()));
}

#[test]
fn load_chooses_source() {
    assert!(matches!(
        Config::load(Some("mine.toml"), &vec![true, true, true]),
        ConfigSource::File(f) if f == "mine.toml"
    ));
    assert!(matches!(
        Config::load(None, &vec![false, true, true]),
        ConfigSource::File(f) if f == "config.toml"
    ));
    assert!(matches!(
        Config::load(None, &vec![true, false, true]),
        ConfigSource::File(f) if f == "barleywine.toml"
    ));
    assert!(matches!(Config::load(None, &vec![false, false, false]), ConfigSource::Defaults));
}
