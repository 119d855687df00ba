//! The server's configuration value and the store that holds the live one.

use crate::string_map::StringMap;
use crate::text::{append, append_str, decimal, from_chars, push_decimal};
use vstd::prelude::*;

verus! {

/// One configuration of the server. A value is never changed once it has been
/// installed in a `ConfigManager`; an update builds a new value.
#[derive(Debug)]
pub struct ServerConfig {
    pub server_directory: String,
    pub port: u16,
    pub timeout: u64,
    pub max_connections: usize,
    pub bind_address: String,
    pub cache_enabled: bool,
    pub default_max_age: u32,
    pub file_extension_cache_times: StringMap<u32>,
    pub development_mode: bool,
    pub enable_compression: bool,
    pub min_size_to_compress: usize,
    pub static_root: String,
    pub max_file_size: usize,
    pub js_minify: bool,
    pub js_root_dir: String,
    pub enable_websockets: bool,
    pub websocket_path: String,
    pub websocket_max_connections: usize,
    pub websocket_timeout: u64,
    pub custom_error_pages: bool,
    pub error_pages: StringMap<String>,
    pub php_enabled: bool,
    pub php_cgi_path: String,
    pub php_exe_path: String,
    pub php_root_dir: String,
    pub php_timeout: u64,
}

/// What a `ServerConfig` holds, as mathematical values.
#[verifier::ext_equal]
pub struct ServerConfigView {
    pub server_directory: Seq<char>,
    pub port: u16,
    pub timeout: u64,
    pub max_connections: usize,
    pub bind_address: Seq<char>,
    pub cache_enabled: bool,
    pub default_max_age: u32,
    pub file_extension_cache_times: Map<Seq<char>, u32>,
    pub development_mode: bool,
    pub enable_compression: bool,
    pub min_size_to_compress: usize,
    pub static_root: Seq<char>,
    pub max_file_size: usize,
    pub js_minify: bool,
    pub js_root_dir: Seq<char>,
    pub enable_websockets: bool,
    pub websocket_path: Seq<char>,
    pub websocket_max_connections: usize,
    pub websocket_timeout: u64,
    pub custom_error_pages: bool,
    pub error_pages: Map<Seq<char>, Seq<char>>,
    pub php_enabled: bool,
    pub php_cgi_path: Seq<char>,
    pub php_exe_path: Seq<char>,
    pub php_root_dir: Seq<char>,
    pub php_timeout: u64,
}

impl View for ServerConfig {
    type V = ServerConfigView;

    open spec fn view(&self) -> ServerConfigView {
        ServerConfigView {
            server_directory: self.server_directory@,
            port: self.port,
            timeout: self.timeout,
            max_connections: self.max_connections,
            bind_address: self.bind_address@,
            cache_enabled: self.cache_enabled,
            default_max_age: self.default_max_age,
            file_extension_cache_times: self.file_extension_cache_times@,
            development_mode: self.development_mode,
            enable_compression: self.enable_compression,
            min_size_to_compress: self.min_size_to_compress,
            static_root: self.static_root@,
            max_file_size: self.max_file_size,
            js_minify: self.js_minify,
            js_root_dir: self.js_root_dir@,
            enable_websockets: self.enable_websockets,
            websocket_path: self.websocket_path@,
            websocket_max_connections: self.websocket_max_connections,
            websocket_timeout: self.websocket_timeout,
            custom_error_pages: self.custom_error_pages,
            error_pages: self.error_pages@,
            php_enabled: self.php_enabled,
            php_cgi_path: self.php_cgi_path@,
            php_exe_path: self.php_exe_path@,
            php_root_dir: self.php_root_dir@,
            php_timeout: self.php_timeout,
        }
    }
}

/// The cache lifetimes, in seconds, that a default configuration gives to
/// file extensions.
pub open spec fn default_extension_times() -> Map<Seq<char>, u32> {
    Map::<Seq<char>, u32>::empty().insert("html"@, 3600).insert("htm"@, 3600).insert(
        "css"@,
        604800,
    ).insert("js"@, 604800).insert("woff2"@, 2592000).insert("woff"@, 2592000).insert(
        "ttf"@,
        2592000,
    ).insert("eot"@, 2592000).insert("otf"@, 2592000).insert("jpg"@, 31536000).insert(
        "jpeg"@,
        31536000,
    ).insert("png"@, 31536000).insert("gif"@, 31536000).insert("ico"@, 31536000).insert(
        "svg"@,
        31536000,
    ).insert("webp"@, 31536000)
}

/// The status codes for which a default configuration names an error page.
pub open spec fn error_page_codes() -> Seq<u16> {
    seq![
        400u16,
        401u16,
        402u16,
        403u16,
        404u16,
        405u16,
        406u16,
        407u16,
        408u16,
        409u16,
        410u16,
        411u16,
        412u16,
        413u16,
        414u16,
        415u16,
        416u16,
        417u16,
        418u16,
        421u16,
        422u16,
        423u16,
        424u16,
        425u16,
        426u16,
        428u16,
        429u16,
        431u16,
        451u16,
        500u16,
        501u16,
        502u16,
        503u16,
        504u16,
        505u16,
        506u16,
        507u16,
        508u16,
        510u16,
        511u16,
    ]
}

/// The page that a default configuration names for status `code`.
pub open spec fn default_error_page(code: u16) -> Seq<char> {
    "errors/"@ + decimal(code as nat) + ".html"@
}

/// The error pages of a default configuration for the status codes `codes`:
/// each code, written in decimal, is mapped to its page.
pub open spec fn error_pages_for(codes: Seq<u16>) -> Map<Seq<char>, Seq<char>>
    decreases codes.len(),
{
    if codes.len() == 0 {
        Map::empty()
    } else {
        error_pages_for(codes.drop_last()).insert(
            decimal(codes.last() as nat),
            default_error_page(codes.last()),
        )
    }
}

/// The configuration that is used where none has been persisted.
pub open spec fn default_config() -> ServerConfigView {
    ServerConfigView {
        server_directory: "server"@,
        port: 8080,
        timeout: 30,
        max_connections: 1000,
        bind_address: "0.0.0.0"@,
        cache_enabled: true,
        default_max_age: 86400,
        file_extension_cache_times: default_extension_times(),
        development_mode: false,
        enable_compression: true,
        min_size_to_compress: 1024,
        static_root: "static"@,
        max_file_size: 10485760,
        js_minify: true,
        js_root_dir: "static/js"@,
        enable_websockets: false,
        websocket_path: "/ws"@,
        websocket_max_connections: 1000,
        websocket_timeout: 60,
        custom_error_pages: false,
        error_pages: error_pages_for(error_page_codes()),
        php_enabled: true,
        php_cgi_path: "php/php-cgi.exe"@,
        php_exe_path: "php/php.exe"@,
        php_root_dir: "web"@,
        php_timeout: 30,
    }
}

/// The cache lifetime, in seconds, of a file with extension `extension`:
/// zero where caching is off or the server runs in development mode, else the
/// entry of the extension table, else the default lifetime.
pub open spec fn cache_duration(config: ServerConfigView, extension: Seq<char>) -> u32 {
    if !config.cache_enabled || config.development_mode {
        0
    } else if config.file_extension_cache_times.contains_key(extension) {
        config.file_extension_cache_times[extension]
    } else {
        config.default_max_age
    }
}

fn default_extension_table() -> (m: StringMap<u32>)
    ensures
        m@ == default_extension_times(),
{
    let mut m: StringMap<u32> = StringMap::new();
    m.insert("html".to_owned(), 3600);
    m.insert("htm".to_owned(), 3600);
    m.insert("css".to_owned(), 604800);
    m.insert("js".to_owned(), 604800);
    m.insert("woff2".to_owned(), 2592000);
    m.insert("woff".to_owned(), 2592000);
    m.insert("ttf".to_owned(), 2592000);
    m.insert("eot".to_owned(), 2592000);
    m.insert("otf".to_owned(), 2592000);
    m.insert("jpg".to_owned(), 31536000);
    m.insert("jpeg".to_owned(), 31536000);
    m.insert("png".to_owned(), 31536000);
    m.insert("gif".to_owned(), 31536000);
    m.insert("ico".to_owned(), 31536000);
    m.insert("svg".to_owned(), 31536000);
    m.insert("webp".to_owned(), 31536000);
    m
}

fn default_error_page_table() -> (m: StringMap<String>)
    ensures
        m@ == error_pages_for(error_page_codes()),
{
    let codes: [u16; 40] = [
        400,
        401,
        402,
        403,
        404,
        405,
        406,
        407,
        408,
        409,
        410,
        411,
        412,
        413,
        414,
        415,
        416,
        417,
        418,
        421,
        422,
        423,
        424,
        425,
        426,
        428,
        429,
        431,
        451,
        500,
        501,
        502,
        503,
        504,
        505,
        506,
        507,
        508,
        510,
        511,
    ];
    assert(codes@ == error_page_codes());
    let mut m: StringMap<String> = StringMap::new();
    let mut i: usize = 0;
    while i < 40
        invariant
            i <= 40,
            codes@ == error_page_codes(),
            m@ == error_pages_for(codes@.take(i as int)),
        decreases 40 - i,
    {
        let code: u16 = codes[i];
        let mut key: Vec<char> = Vec::new();
        push_decimal(&mut key, code as u64);
        let mut page: Vec<char> = Vec::new();
        append_str(&mut page, "errors/");
        append(&mut page, key.as_slice());
        append_str(&mut page, ".html");
        proof {
            assert(codes@.take(i + 1).drop_last() == codes@.take(i as int));
            assert(key@ == decimal(code as nat));
            assert(page@ == default_error_page(code));
        }
        m.insert(from_chars(key.as_slice()), from_chars(page.as_slice()));
        i += 1;
    }
    assert(codes@.take(40) == codes@);
    m
}

impl Default for ServerConfig {
    fn default() -> (config: Self)
        ensures
            config@ == default_config(),
    {
        ServerConfig {
            server_directory: "server".to_owned(),
            port: 8080,
            timeout: 30,
            max_connections: 1000,
            bind_address: "0.0.0.0".to_owned(),
            cache_enabled: true,
            default_max_age: 86400,
            file_extension_cache_times: default_extension_table(),
            development_mode: false,
            enable_compression: true,
            min_size_to_compress: 1024,
            static_root: "static".to_owned(),
            max_file_size: 10485760,
            js_minify: true,
            js_root_dir: "static/js".to_owned(),
            enable_websockets: false,
            websocket_path: "/ws".to_owned(),
            websocket_max_connections: 1000,
            websocket_timeout: 60,
            custom_error_pages: false,
            error_pages: default_error_page_table(),
            php_enabled: true,
            php_cgi_path: "php/php-cgi.exe".to_owned(),
            php_exe_path: "php/php.exe".to_owned(),
            php_root_dir: "web".to_owned(),
            php_timeout: 30,
        }
    }
}

impl Clone for ServerConfig {
    fn clone(&self) -> (copy: Self)
        ensures
            copy@ == self@,
    {
        ServerConfig {
            server_directory: self.server_directory.clone(),
            port: self.port,
            timeout: self.timeout,
            max_connections: self.max_connections,
            bind_address: self.bind_address.clone(),
            cache_enabled: self.cache_enabled,
            default_max_age: self.default_max_age,
            file_extension_cache_times: self.file_extension_cache_times.clone(),
            development_mode: self.development_mode,
            enable_compression: self.enable_compression,
            min_size_to_compress: self.min_size_to_compress,
            static_root: self.static_root.clone(),
            max_file_size: self.max_file_size,
            js_minify: self.js_minify,
            js_root_dir: self.js_root_dir.clone(),
            enable_websockets: self.enable_websockets,
            websocket_path: self.websocket_path.clone(),
            websocket_max_connections: self.websocket_max_connections,
            websocket_timeout: self.websocket_timeout,
            custom_error_pages: self.custom_error_pages,
            error_pages: self.error_pages.clone(),
            php_enabled: self.php_enabled,
            php_cgi_path: self.php_cgi_path.clone(),
            php_exe_path: self.php_exe_path.clone(),
            php_root_dir: self.php_root_dir.clone(),
            php_timeout: self.php_timeout,
        }
    }
}

/// A configuration to start with, and whether it has yet to be persisted.
#[derive(Debug)]
pub struct LoadedConfig {
    pub config: ServerConfig,
    pub persist: bool,
}

/// The configuration to start with, given what the persisted state gave:
/// nothing where there is none, else the value read from it or the message
/// of what went wrong. Where nothing is persisted the default configuration
/// is used and is to be persisted before the store becomes readable.
pub open spec fn load_spec(persisted: Option<Result<ServerConfigView, Seq<char>>>) -> Result<
    (ServerConfigView, bool),
    Seq<char>,
> {
    match persisted {
        None => Ok((default_config(), true)),
        Some(Ok(config)) => Ok((config, false)),
        Some(Err(message)) => Err(message),
    }
}

impl ServerConfig {
    /// The configuration to start with, given what the persisted state gave.
    pub fn load(persisted: Option<Result<ServerConfig, String>>) -> (loaded: Result<
        LoadedConfig,
        String,
    >)
        ensures
            match load_spec(
                match persisted {
                    Some(read) => Some(loaded_view(read)),
                    None => None,
                },
            ) {
                Ok((config, persist)) => loaded matches Ok(l) && l.config@ == config && l.persist
                    == persist,
                Err(message) => loaded matches Err(m) && m@ == message,
            },
    {
        match persisted {
            None => Ok(LoadedConfig { config: ServerConfig::default(), persist: true }),
            Some(Ok(config)) => Ok(LoadedConfig { config: config, persist: false }),
            Some(Err(message)) => Err(message),
        }
    }

    /// The cache lifetime, in seconds, of a file with extension `extension`.
    pub fn get_cache_duration(&self, extension: &str) -> (seconds: u32)
        ensures
            seconds == cache_duration(self@, extension@),
            self.development_mode ==> seconds == 0,
            !self.cache_enabled ==> seconds == 0,
            self.cache_enabled && !self.development_mode ==> seconds == match self@
                .file_extension_cache_times
                .get(extension@) {
                Some(lifetime) => lifetime,
                None => self.default_max_age,
            },
    {
        if !self.cache_enabled || self.development_mode {
            return 0;
        }
        match self.file_extension_cache_times.get(extension) {
            Some(seconds) => *seconds,
            None => self.default_max_age,
        }
    }
}

/// The store of the live configuration: the value itself, the path it was
/// loaded from, and the time of the last reload.
///
/// The store is an ordinary value. A server shares it between request
/// handlers behind a lock of its own and takes that lock only for the calls
/// below, none of which does any input or output.
#[derive(Debug)]
pub struct ConfigManager {
    config: ServerConfig,
    config_path: String,
    last_reload: u64,
}

/// What a `ConfigManager` holds, as mathematical values.
#[verifier::ext_equal]
pub struct ConfigManagerView {
    pub config: ServerConfigView,
    pub config_path: Seq<char>,
    pub last_reload: u64,
}

impl View for ConfigManager {
    type V = ConfigManagerView;

    closed spec fn view(&self) -> ConfigManagerView {
        ConfigManagerView {
            config: self.config@,
            config_path: self.config_path@,
            last_reload: self.last_reload,
        }
    }
}

/// The outcome of reading and parsing the configuration's source, as the
/// store sees it: the new value, or the message of what went wrong.
pub open spec fn loaded_view(loaded: Result<ServerConfig, String>) -> Result<
    ServerConfigView,
    Seq<char>,
> {
    match loaded {
        Ok(config) => Ok(config@),
        Err(message) => Err(message@),
    }
}

/// The store after a reload at time `now` whose source gave `loaded`: a
/// value that was read replaces the live one and sets the time of the last
/// reload; a failure changes nothing.
pub open spec fn reload_spec(
    store: ConfigManagerView,
    loaded: Result<ServerConfigView, Seq<char>>,
    now: u64,
) -> ConfigManagerView {
    match loaded {
        Ok(config) => ConfigManagerView {
            config: config,
            config_path: store.config_path,
            last_reload: now,
        },
        Err(_) => store,
    }
}

/// A reload that fails leaves the snapshot as it was; one that succeeds makes
/// the loaded value the snapshot.
pub proof fn lemma_reload_snapshot(
    store: ConfigManagerView,
    loaded: Result<ServerConfigView, Seq<char>>,
    now: u64,
)
    ensures
        loaded is Err ==> reload_spec(store, loaded, now).config == store.config,
        loaded is Err ==> reload_spec(store, loaded, now) == store,
        loaded matches Ok(config) ==> reload_spec(store, loaded, now).config == config,
{
}

impl ConfigManager {
    /// A store whose live configuration is `config`, loaded from
    /// `config_path` at time `now`.
    pub fn new(config_path: &str, config: ServerConfig, now: u64) -> (manager: Self)
        ensures
            manager@ == (ConfigManagerView {
                config: config@,
                config_path: config_path@,
                last_reload: now,
            }),
    {
        ConfigManager { config: config, config_path: config_path.to_owned(), last_reload: now }
    }

    /// A snapshot of the live configuration.
    pub fn get_config(&self) -> (snapshot: ServerConfig)
        ensures
            snapshot@ == self@.config,
    {
        self.config.clone()
    }

    /// Finishes a reload at time `now`. `loaded` is what reading and parsing
    /// the source gave. A value replaces the live configuration; an error is
    /// handed back and the store stays as it was.
    pub fn reload(&mut self, loaded: Result<ServerConfig, String>, now: u64) -> (result: Result<
        (),
        String,
    >)
        ensures
            final(self)@ == reload_spec(old(self)@, loaded_view(loaded), now),
            match loaded {
                Ok(_) => result is Ok,
                Err(message) => result matches Err(text) && text@ == message@,
            },
    {
        match loaded {
            Ok(config) => {
                self.config = config;
                self.last_reload = now;
                Ok(())
            },
            Err(message) => Err(message),
        }
    }

    /// The path that the configuration was loaded from.
    pub fn get_config_path(&self) -> (path: String)
        ensures
            path@ == self@.config_path,
    {
        self.config_path.clone()
    }

    /// The time of the last reload.
    pub fn last_reload(&self) -> (time: u64)
        ensures
            time == self@.last_reload,
    {
        self.last_reload
    }
}

} // verus!
