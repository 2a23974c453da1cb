//! Server settings: the settings model with its defaults, the extension
//! filter, the effective log level and directory, validation against facts
//! about the filesystem, and the configuration errors with their messages.

use crate::levels::{is_valid_log_level, valid_level, LEVEL_LIST};
use crate::resolve::{first_present, first_true, PathKind};
use crate::text::{concat_text, contains_name, decimal, decimal_text, names_contain, push_text};
use std::collections::HashMap;
use vstd::prelude::*;

verus! {

/// All settings of the server, one group per section of the settings file.
#[derive(Debug, Clone)]
pub struct Config {
    pub server: ServerConfig,
    pub logging: LoggingConfig,
    pub content: ContentConfig,
    pub cache: CacheConfig,
    pub security: SecurityConfig,
    pub performance: PerformanceConfig,
    pub development: DevelopmentConfig,
    pub limits: LimitsConfig,
    pub template: TemplateConfig,
    pub routes: RoutesConfig,
    pub middleware: MiddlewareConfig,
}

/// Where the server listens.
#[derive(Debug, Clone)]
pub struct ServerConfig {
    /// Address to bind to.
    pub host: String,
    /// Port to bind to.
    pub port: u16,
    /// Number of worker threads.
    pub workers: Option<u32>,
    /// Request timeout in seconds.
    pub timeout: Option<u64>,
    /// Largest request accepted, in bytes.
    pub max_request_size: Option<u64>,
}

/// Logging settings.
#[derive(Debug, Clone)]
pub struct LoggingConfig {
    /// Log level: error, warn, info, debug or trace.
    pub level: String,
    /// Log file path, if any.
    pub file: Option<String>,
    /// Whether requests are written to the access log.
    pub access_log: bool,
    /// Log format: compact, pretty or json.
    pub format: String,
}

/// What is served, and from where.
#[derive(Debug, Clone)]
pub struct ContentConfig {
    /// Directory that holds everything served.
    pub webroot: String,
    /// Names tried, in this order, for a request that names a directory.
    pub index_files: Vec<String>,
    /// Whether `.md` files are rendered into HTML pages.
    pub markdown_enabled: bool,
    /// Markdown extensions turned on.
    pub markdown_extensions: Vec<String>,
}

/// Response caching settings.
#[derive(Debug, Clone)]
pub struct CacheConfig {
    pub enabled: bool,
    /// Cache duration in seconds.
    pub duration: u64,
    /// Value of the `Cache-Control` header.
    pub cache_control: String,
}

/// Security settings.
#[derive(Debug, Clone)]
pub struct SecurityConfig {
    /// Whether security headers are sent.
    pub security_headers: bool,
    /// Extensions that may be served; empty means all but the blocked ones.
    pub allowed_extensions: Vec<String>,
    /// Extensions that are never served.
    pub blocked_extensions: Vec<String>,
    pub cors_enabled: bool,
    pub cors_origins: Vec<String>,
}

/// Performance settings.
#[derive(Debug, Clone)]
pub struct PerformanceConfig {
    pub compression: bool,
    /// Compression level, from 1 to 9.
    pub compression_level: u32,
    /// Smallest response compressed, in bytes.
    pub min_compress_size: u64,
    pub http2: bool,
}

/// Development settings.
#[derive(Debug, Clone)]
pub struct DevelopmentConfig {
    pub dev_mode: bool,
    pub hot_reload: bool,
    pub debug_routes: bool,
    pub pretty_json: bool,
}

/// Request size limits, written with units (`1MiB`).
#[derive(Debug, Clone)]
pub struct LimitsConfig {
    pub forms: String,
    pub json: String,
    pub file: String,
    pub data: String,
}

/// Page template settings.
#[derive(Debug, Clone)]
pub struct TemplateConfig {
    /// Custom HTML template file.
    pub custom_template: Option<String>,
    /// Custom CSS file.
    pub custom_css: Option<String>,
    /// Custom JavaScript file.
    pub custom_js: Option<String>,
    pub site_title: String,
    pub site_description: String,
}

/// Route settings.
#[derive(Debug, Clone)]
pub struct RoutesConfig {
    /// Custom route mappings.
    pub mappings: HashMap<String, String>,
    /// Redirect rules.
    pub redirects: HashMap<String, String>,
}

/// Middleware settings.
#[derive(Debug, Clone)]
pub struct MiddlewareConfig {
    pub request_logging: bool,
    pub cors: bool,
    pub compression: bool,
    pub security: bool,
    pub custom: Option<Vec<String>>,
}

/// `v` holds exactly the texts `a` and `b`, in this order.
pub open spec fn texts2(v: Seq<String>, a: Seq<char>, b: Seq<char>) -> bool {
    v.len() == 2 && v[0]@ == a && v[1]@ == b
}

/// `v` holds exactly the texts `a`, `b`, `c` and `d`, in this order.
pub open spec fn texts4(v: Seq<String>, a: Seq<char>, b: Seq<char>, c: Seq<char>, d: Seq<char>) -> bool {
    v.len() == 4 && v[0]@ == a && v[1]@ == b && v[2]@ == c && v[3]@ == d
}

/// The settings used when no settings file is found.
pub open spec fn is_default_config(c: Config) -> bool {
    &&& c.server.host@ == "127.0.0.1"@
    &&& c.server.port == 8000
    &&& c.server.workers == Some(4u32)
    &&& c.server.timeout == Some(30u64)
    &&& c.server.max_request_size == Some(10485760u64)
    &&& c.logging.level@ == "info"@
    &&& c.logging.file is None
    &&& c.logging.access_log
    &&& c.logging.format@ == "pretty"@
    &&& c.content.webroot@ == "webroot"@
    &&& texts2(c.content.index_files@, "index.html"@, "index.md"@)
    &&& c.content.markdown_enabled
    &&& texts4(
        c.content.markdown_extensions@,
        "tables"@,
        "strikethrough"@,
        "task_lists"@,
        "autolinks"@,
    )
    &&& c.cache.enabled
    &&& c.cache.duration == 3600
    &&& c.cache.cache_control@ == "public, max-age=3600"@
    &&& c.security.security_headers
    &&& c.security.allowed_extensions@.len() == 0
    &&& texts4(c.security.blocked_extensions@, ".env"@, ".git"@, ".svn"@, ".DS_Store"@)
    &&& !c.security.cors_enabled
    &&& c.security.cors_origins@.len() == 1 && c.security.cors_origins@[0]@ == "*"@
    &&& c.performance.compression
    &&& c.performance.compression_level == 6
    &&& c.performance.min_compress_size == 1024
    &&& c.performance.http2
    &&& !c.development.dev_mode
    &&& !c.development.hot_reload
    &&& !c.development.debug_routes
    &&& c.development.pretty_json
    &&& c.limits.forms@ == "1MiB"@
    &&& c.limits.json@ == "1MiB"@
    &&& c.limits.file@ == "10MiB"@
    &&& c.limits.data@ == "10MiB"@
    &&& c.template.custom_template is None
    &&& c.template.custom_css is None
    &&& c.template.custom_js is None
    &&& c.template.site_title@ == "Barleywine Static Server"@
    &&& c.template.site_description@ == "A fast static file server with markdown support"@
    &&& c.routes.mappings@ == Map::<String, String>::empty()
    &&& c.routes.redirects@ == Map::<String, String>::empty()
    &&& c.middleware.request_logging
    &&& !c.middleware.cors
    &&& c.middleware.compression
    &&& c.middleware.security
    &&& c.middleware.custom is None
}

fn owned(s: &str) -> (r: String)
    ensures
        r@ == s@,
{
    String::from_str(s)
}

impl Default for Config {
    fn default() -> (r: Config)
        ensures
            is_default_config(r),
    {
        let server = ServerConfig {
            host: owned("127.0.0.1"),
            port: 8000,
            workers: Some(4),
            timeout: Some(30),
            max_request_size: Some(10 * 1024 * 1024),
        };
        let logging = LoggingConfig {
            level: owned("info"),
            file: None,
            access_log: true,
            format: owned("pretty"),
        };
        let content = ContentConfig {
            webroot: owned("webroot"),
            index_files: vec![owned("index.html"), owned("index.md")],
            markdown_enabled: true,
            markdown_extensions: vec![
                owned("tables"),
                owned("strikethrough"),
                owned("task_lists"),
                owned("autolinks"),
            ],
        };
        let cache = CacheConfig {
            enabled: true,
            duration: 3600,
            cache_control: owned("public, max-age=3600"),
        };
        let security = SecurityConfig {
            security_headers: true,
            allowed_extensions: Vec::new(),
            blocked_extensions: vec![owned(".env"), owned(".git"), owned(".svn"), owned(".DS_Store")],
            cors_enabled: false,
            cors_origins: vec![owned("*")],
        };
        let performance = PerformanceConfig {
            compression: true,
            compression_level: 6,
            min_compress_size: 1024,
            http2: true,
        };
        let development = DevelopmentConfig {
            dev_mode: false,
            hot_reload: false,
            debug_routes: false,
            pretty_json: true,
        };
        let limits = LimitsConfig {
            forms: owned("1MiB"),
            json: owned("1MiB"),
            file: owned("10MiB"),
            data: owned("10MiB"),
        };
        let template = TemplateConfig {
            custom_template: None,
            custom_css: None,
            custom_js: None,
            site_title: owned("Barleywine Static Server"),
            site_description: owned("A fast static file server with markdown support"),
        };
        let routes = RoutesConfig { mappings: HashMap::new(), redirects: HashMap::new() };
        let middleware = MiddlewareConfig {
            request_logging: true,
            cors: false,
            compression: true,
            security: true,
            custom: None,
        };
        Config {
            server,
            logging,
            content,
            cache,
            security,
            performance,
            development,
            limits,
            template,
            routes,
            middleware,
        }
    }
}

/// An extension may be served: it is not blocked, and either no allowed
/// list is set or the list names it. Blocking wins over allowing.
pub open spec fn extension_allowed(security: SecurityConfig, extension: Seq<char>) -> bool {
    &&& !names_contain(security.blocked_extensions@, extension)
    &&& (security.allowed_extensions@.len() == 0 || names_contain(
        security.allowed_extensions@,
        extension,
    ))
}

/// The path without its last component, as `std::path::Path::parent` gives
/// it; none for a root or an empty path.
pub uninterp spec fn parent_of(path: Seq<char>) -> Option<Seq<char>>;

/// Relies on `std::path::Path::parent`, whose result depends on the path text
/// alone.
#[verifier::external_body]
fn path_parent(path: &str) -> (r: Option<String>)
    ensures
        match r {
            Some(p) => parent_of(path@) == Some(p@),
            None => parent_of(path@) is None,
        },
{
    match std::path::Path::new(path).parent() {
        Some(p) => Some(p.to_string_lossy().into_owned()),
        None => None,
    }
}

/// The directory that holds a log file, when it has one.
pub open spec fn log_file_directory(file: Option<String>) -> Option<Seq<char>> {
    match file {
        Some(f) => parent_of(f@),
        None => None,
    }
}

impl Config {
    /// Tells whether a file extension (with its dot, as `.html`) may be served.
    pub fn is_extension_allowed(&self, extension: &str) -> (r: bool)
        ensures
            r == extension_allowed(self.security, extension@),
    {
        if contains_name(&self.security.blocked_extensions, extension) {
            return false;
        }
        if self.security.allowed_extensions.len() == 0 {
            return true;
        }
        contains_name(&self.security.allowed_extensions, extension)
    }

    /// The effective log level: the one given on the command line, else the
    /// configured one.
    pub fn get_log_level(&self, cli_log_level: Option<&str>) -> (r: String)
        ensures
            r@ == match cli_log_level {
                Some(l) => l@,
                None => self.logging.level@,
            },
    {
        match cli_log_level {
            Some(l) => String::from_str(l),
            None => self.logging.level.clone(),
        }
    }

    /// The directory that holds the configured log file, if there is one.
    pub fn log_file_parent(&self) -> (r: Option<String>)
        ensures
            match r {
                Some(p) => log_file_directory(self.logging.file) == Some(p@),
                None => log_file_directory(self.logging.file) is None,
            },
    {
        match &self.logging.file {
            Some(f) => path_parent(f.as_str()),
            None => None,
        }
    }

    /// The effective log directory: the one given on the command line, else
    /// the directory of the configured log file, else `logs`.
    pub fn get_log_directory(&self, cli_log_dir: Option<&str>) -> (r: Option<String>)
        ensures
            r matches Some(d) && d@ == match cli_log_dir {
                Some(c) => c@,
                None => match log_file_directory(self.logging.file) {
                    Some(p) => p,
                    None => "logs"@,
                },
            },
    {
        match cli_log_dir {
            Some(c) => Some(String::from_str(c)),
            None => match self.log_file_parent() {
                Some(p) => Some(p),
                None => Some(String::from_str("logs")),
            },
        }
    }
}

/// Why settings could not be loaded, written or accepted.
#[derive(Debug, Clone)]
pub enum ConfigError {
    /// The settings file does not exist.
    FileNotFound(String),
    /// The settings file could not be read: its path and the reason.
    ReadError(String, String),
    /// The settings file could not be parsed: its path and the reason.
    ParseError(String, String),
    /// The settings file could not be written: its path and the reason.
    WriteError(String, String),
    /// The settings could not be serialized: the reason.
    SerializeError(String),
    InvalidLogLevel(String),
    WebrootNotFound(String),
    WebrootNotDirectory(String),
    LogDirectoryNotDirectory(String),
    CustomTemplateNotFound(String),
    CustomCssNotFound(String),
    CustomJsNotFound(String),
    InvalidPort(u16),
    InvalidHost(String),
    InvalidCompressionLevel(u32),
    AlreadyInitialized,
}

/// The message that describes a configuration error.
pub open spec fn error_text(e: ConfigError) -> Seq<char> {
    match e {
        ConfigError::FileNotFound(p) => "Configuration file not found: "@ + p@,
        ConfigError::ReadError(p, m) => "Failed to read configuration file "@ + p@ + ": "@ + m@,
        ConfigError::ParseError(p, m) => "Failed to parse configuration file "@ + p@ + ": "@ + m@,
        ConfigError::WriteError(p, m) => "Failed to write configuration file "@ + p@ + ": "@ + m@,
        ConfigError::SerializeError(m) => "Failed to serialize configuration: "@ + m@,
        ConfigError::InvalidLogLevel(l) => "Invalid log level '"@ + l@ + "'. Valid levels are: "@
            + LEVEL_LIST@,
        ConfigError::WebrootNotFound(p) => "Webroot directory not found: "@ + p@,
        ConfigError::WebrootNotDirectory(p) => "Webroot path is not a directory: "@ + p@,
        ConfigError::LogDirectoryNotDirectory(p) => "Log directory path is not a directory: "@ + p@,
        ConfigError::CustomTemplateNotFound(p) => "Custom template file not found: "@ + p@,
        ConfigError::CustomCssNotFound(p) => "Custom CSS file not found: "@ + p@,
        ConfigError::CustomJsNotFound(p) => "Custom JS file not found: "@ + p@,
        ConfigError::InvalidPort(n) => "Invalid port number: "@ + decimal(n as nat),
        ConfigError::InvalidHost(h) => "Invalid host address: "@ + h@,
        ConfigError::InvalidCompressionLevel(n) => "Invalid compression level: "@ + decimal(
            n as nat,
        ) + " (must be 1-9)"@,
        ConfigError::AlreadyInitialized => "Configuration has already been initialized"@,
    }
}

fn text3(a: &str, b: &str, c: &str) -> (r: String)
    ensures
        r@ == a@ + b@ + c@,
{
    let mut s = concat_text(a, b);
    push_text(&mut s, c);
    s
}

fn text4(a: &str, b: &str, c: &str, d: &str) -> (r: String)
    ensures
        r@ == a@ + b@ + c@ + d@,
{
    let mut s = text3(a, b, c);
    push_text(&mut s, d);
    s
}

impl ConfigError {
    /// Describes the error in words.
    pub fn message(&self) -> (r: String)
        ensures
            r@ == error_text(*self),
    {
        match self {
            ConfigError::FileNotFound(p) => concat_text("Configuration file not found: ", p.as_str()),
            ConfigError::ReadError(p, m) => text4(
                "Failed to read configuration file ",
                p.as_str(),
                ": ",
                m.as_str(),
            ),
            ConfigError::ParseError(p, m) => text4(
                "Failed to parse configuration file ",
                p.as_str(),
                ": ",
                m.as_str(),
            ),
            ConfigError::WriteError(p, m) => text4(
                "Failed to write configuration file ",
                p.as_str(),
                ": ",
                m.as_str(),
            ),
            ConfigError::SerializeError(m) => concat_text(
                "Failed to serialize configuration: ",
                m.as_str(),
            ),
            ConfigError::InvalidLogLevel(l) => text4(
                "Invalid log level '",
                l.as_str(),
                "'. Valid levels are: ",
                LEVEL_LIST,
            ),
            ConfigError::WebrootNotFound(p) => concat_text("Webroot directory not found: ", p.as_str()),
            ConfigError::WebrootNotDirectory(p) => concat_text(
                "Webroot path is not a directory: ",
                p.as_str(),
            ),
            ConfigError::LogDirectoryNotDirectory(p) => concat_text(
                "Log directory path is not a directory: ",
                p.as_str(),
            ),
            ConfigError::CustomTemplateNotFound(p) => concat_text(
                "Custom template file not found: ",
                p.as_str(),
            ),
            ConfigError::CustomCssNotFound(p) => concat_text("Custom CSS file not found: ", p.as_str()),
            ConfigError::CustomJsNotFound(p) => concat_text("Custom JS file not found: ", p.as_str()),
            ConfigError::InvalidPort(n) => {
                let d = decimal_text(*n as u64);
                concat_text("Invalid port number: ", d.as_str())
            },
            ConfigError::InvalidHost(h) => concat_text("Invalid host address: ", h.as_str()),
            ConfigError::InvalidCompressionLevel(n) => {
                let d = decimal_text(*n as u64);
                text3("Invalid compression level: ", d.as_str(), " (must be 1-9)")
            },
            ConfigError::AlreadyInitialized => String::from_str(
                "Configuration has already been initialized",
            ),
        }
    }
}

/// What the caller found out for validation that the library cannot find
/// out itself: what is on disk, and whether the host parses as an IP address
/// (`std::net` stays out of the library).
pub struct ConfigProbe {
    /// What the web root names.
    pub webroot: PathKind,
    /// What the directory of the log file names; `Missing` when no log file
    /// is set or it has no directory.
    pub log_directory: PathKind,
    pub host_is_ip_address: bool,
    pub custom_template_exists: bool,
    pub custom_css_exists: bool,
    pub custom_js_exists: bool,
}

/// An optional path is set but nothing exists there.
pub open spec fn set_but_missing(path: Option<String>, exists: bool) -> bool {
    path is Some && !exists
}

/// The outcome of validation: the first check that fails, in this order,
/// gives the error; when none fails the settings are accepted.
pub open spec fn validation(c: Config, p: ConfigProbe, r: Result<(), ConfigError>) -> bool {
    if !valid_level(c.logging.level@) {
        r matches Err(ConfigError::InvalidLogLevel(l)) && l@ == c.logging.level@
    } else if p.webroot == PathKind::Missing {
        r matches Err(ConfigError::WebrootNotFound(w)) && w@ == c.content.webroot@
    } else if p.webroot == PathKind::File {
        r matches Err(ConfigError::WebrootNotDirectory(w)) && w@ == c.content.webroot@
    } else if c.server.port == 0 {
        r matches Err(ConfigError::InvalidPort(n)) && n == 0
    } else if !p.host_is_ip_address {
        r matches Err(ConfigError::InvalidHost(h)) && h@ == c.server.host@
    } else if log_file_directory(c.logging.file) is Some && p.log_directory == PathKind::File {
        r matches Err(ConfigError::LogDirectoryNotDirectory(d)) && Some(d@) == log_file_directory(
            c.logging.file,
        )
    } else if set_but_missing(c.template.custom_template, p.custom_template_exists) {
        r matches Err(ConfigError::CustomTemplateNotFound(t)) && Some(t) == c.template.custom_template
    } else if set_but_missing(c.template.custom_css, p.custom_css_exists) {
        r matches Err(ConfigError::CustomCssNotFound(t)) && Some(t) == c.template.custom_css
    } else if set_but_missing(c.template.custom_js, p.custom_js_exists) {
        r matches Err(ConfigError::CustomJsNotFound(t)) && Some(t) == c.template.custom_js
    } else if !(1 <= c.performance.compression_level <= 9) {
        r matches Err(ConfigError::InvalidCompressionLevel(n)) && n
            == c.performance.compression_level
    } else {
        r is Ok
    }
}

impl Config {
    /// Checks the settings, with what the caller found on disk.
    pub fn validate(&self, probe: &ConfigProbe) -> (r: Result<(), ConfigError>)
        ensures
            validation(*self, *probe, r),
    {
        if !is_valid_log_level(self.logging.level.as_str()) {
            return Err(ConfigError::InvalidLogLevel(self.logging.level.clone()));
        }
        if probe.webroot == PathKind::Missing {
            return Err(ConfigError::WebrootNotFound(self.content.webroot.clone()));
        }
        if probe.webroot == PathKind::File {
            return Err(ConfigError::WebrootNotDirectory(self.content.webroot.clone()));
        }
        if self.server.port == 0 {
            return Err(ConfigError::InvalidPort(self.server.port));
        }
        if !probe.host_is_ip_address {
            return Err(ConfigError::InvalidHost(self.server.host.clone()));
        }
        if let Some(d) = self.log_file_parent() {
            if probe.log_directory == PathKind::File {
                return Err(ConfigError::LogDirectoryNotDirectory(d));
            }
        }
        if let Some(t) = &self.template.custom_template {
            if !probe.custom_template_exists {
                return Err(ConfigError::CustomTemplateNotFound(t.clone()));
            }
        }
        if let Some(t) = &self.template.custom_css {
            if !probe.custom_css_exists {
                return Err(ConfigError::CustomCssNotFound(t.clone()));
            }
        }
        if let Some(t) = &self.template.custom_js {
            if !probe.custom_js_exists {
                return Err(ConfigError::CustomJsNotFound(t.clone()));
            }
        }
        if self.performance.compression_level < 1 || self.performance.compression_level > 9 {
            return Err(ConfigError::InvalidCompressionLevel(self.performance.compression_level));
        }
        Ok(())
    }
}

/// Where the settings come from.
#[derive(Debug, Clone)]
pub enum ConfigSource {
    /// Parse this settings file.
    File(String),
    /// Use the defaults.
    Defaults,
}

/// The settings files tried, in order, when none is named.
pub open spec fn default_file_names() -> Seq<Seq<char>> {
    seq!["barleywine.toml"@, "config.toml"@, "barleywine.conf"@]
}

/// The settings files tried, in order, when none is named.
pub fn default_config_files() -> (r: Vec<&'static str>)
    ensures
        r@.len() == 3,
        forall|i: int| 0 <= i < 3 ==> #[trigger] r@[i]@ == default_file_names()[i],
{
    vec!["barleywine.toml", "config.toml", "barleywine.conf"]
}

/// The source chosen: the named file; else the first default file that
/// exists; else the defaults.
pub open spec fn source_chosen(
    config_file: Option<Seq<char>>,
    defaults_present: Seq<bool>,
    r: ConfigSource,
) -> bool {
    match config_file {
        Some(f) => r matches ConfigSource::File(p) && p@ == f,
        None => if exists|i: int| first_present(defaults_present, i) {
            let i = choose|i: int| first_present(defaults_present, i);
            r matches ConfigSource::File(p) && p@ == default_file_names()[i]
        } else {
            r is Defaults
        },
    }
}

impl Config {
    /// Decides where the settings are loaded from, given the file named on the
    /// command line, if any, and which of the default files exist (in the
    /// order of [`default_config_files`]).
    pub fn load(config_file: Option<&str>, defaults_present: &Vec<bool>) -> (r: ConfigSource)
        requires
            defaults_present@.len() == 3,
        ensures
            source_chosen(
                match config_file {
                    Some(f) => Some(f@),
                    None => None,
                },
                defaults_present@,
                r,
            ),
    {
        match config_file {
            Some(f) => ConfigSource::File(String::from_str(f)),
            None => {
                let names = default_config_files();
                match first_true(defaults_present) {
                    Some(i) => {
                        proof {
                            let j = choose|j: int| first_present(defaults_present@, j);
                            assert(j == i);
                        }
                        ConfigSource::File(String::from_str(names[i]))
                    },
                    None => ConfigSource::Defaults,
                }
            },
        }
    }
}

} // verus!
