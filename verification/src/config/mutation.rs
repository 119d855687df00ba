//! Updates of single configuration fields: a closed set of typed mutations,
//! read from a section, a key and a value given as text, and applied to a
//! configuration.

use crate::config::server_config::{ServerConfig, ServerConfigView};
use crate::text::{
    concat_str, from_chars, parse_number, parse_unsigned, split, split_on, str_eq, to_chars,
};
use vstd::prelude::*;

verus! {

/// One update of one configuration field.
#[derive(Debug, Clone, PartialEq, Eq)]
pub enum ConfigMutation {
    Port(u16),
    Timeout(u64),
    MaxConnections(usize),
    BindAddress(String),
    CacheEnabled(bool),
    DefaultMaxAge(u32),
    ExtensionCacheTime(String, u32),
    DevelopmentMode(bool),
    EnableCompression(bool),
    MinSizeToCompress(usize),
    PhpEnabled(bool),
    PhpCgiPath(String),
    PhpExePath(String),
    PhpRootDir(String),
    PhpTimeout(u64),
    StaticRoot(String),
    MaxFileSize(usize),
    JsMinify(bool),
    JsRootDir(String),
}

/// What a `ConfigMutation` holds, as mathematical values.
pub enum MutationView {
    Port(u16),
    Timeout(u64),
    MaxConnections(usize),
    BindAddress(Seq<char>),
    CacheEnabled(bool),
    DefaultMaxAge(u32),
    ExtensionCacheTime(Seq<char>, u32),
    DevelopmentMode(bool),
    EnableCompression(bool),
    MinSizeToCompress(usize),
    PhpEnabled(bool),
    PhpCgiPath(Seq<char>),
    PhpExePath(Seq<char>),
    PhpRootDir(Seq<char>),
    PhpTimeout(u64),
    StaticRoot(Seq<char>),
    MaxFileSize(usize),
    JsMinify(bool),
    JsRootDir(Seq<char>),
}

impl View for ConfigMutation {
    type V = MutationView;

    open spec fn view(&self) -> MutationView {
        match *self {
            ConfigMutation::Port(v) => MutationView::Port(v),
            ConfigMutation::Timeout(v) => MutationView::Timeout(v),
            ConfigMutation::MaxConnections(v) => MutationView::MaxConnections(v),
            ConfigMutation::BindAddress(v) => MutationView::BindAddress(v@),
            ConfigMutation::CacheEnabled(v) => MutationView::CacheEnabled(v),
            ConfigMutation::DefaultMaxAge(v) => MutationView::DefaultMaxAge(v),
            ConfigMutation::ExtensionCacheTime(e, v) => MutationView::ExtensionCacheTime(e@, v),
            ConfigMutation::DevelopmentMode(v) => MutationView::DevelopmentMode(v),
            ConfigMutation::EnableCompression(v) => MutationView::EnableCompression(v),
            ConfigMutation::MinSizeToCompress(v) => MutationView::MinSizeToCompress(v),
            ConfigMutation::PhpEnabled(v) => MutationView::PhpEnabled(v),
            ConfigMutation::PhpCgiPath(v) => MutationView::PhpCgiPath(v@),
            ConfigMutation::PhpExePath(v) => MutationView::PhpExePath(v@),
            ConfigMutation::PhpRootDir(v) => MutationView::PhpRootDir(v@),
            ConfigMutation::PhpTimeout(v) => MutationView::PhpTimeout(v),
            ConfigMutation::StaticRoot(v) => MutationView::StaticRoot(v@),
            ConfigMutation::MaxFileSize(v) => MutationView::MaxFileSize(v),
            ConfigMutation::JsMinify(v) => MutationView::JsMinify(v),
            ConfigMutation::JsRootDir(v) => MutationView::JsRootDir(v@),
        }
    }
}

/// The truth value that `value` spells: `true` or `false`, nothing else.
pub open spec fn parse_flag(value: Seq<char>) -> Option<bool> {
    if value == "true"@ {
        Some(true)
    } else if value == "false"@ {
        Some(false)
    } else {
        None
    }
}

/// The extension and lifetime that `value` spells in the form
/// `extension:seconds`, or the message that says what is wrong with it.
pub open spec fn parse_extension_time(value: Seq<char>) -> Result<MutationView, Seq<char>> {
    let parts = split(value, ':');
    if parts.len() != 2 {
        Err("neplatny format pro extension_cache_time, ocekavany format: ext:seconds"@)
    } else {
        match parse_unsigned(parts[1], u32::MAX as nat) {
            Some(seconds) => Ok(MutationView::ExtensionCacheTime(parts[0], seconds as u32)),
            None => Err("neplatna hodnota pro seconds"@),
        }
    }
}

/// The mutation that `section`, `key` and `value` spell, or the message that
/// says why they spell none: the section is unknown, the key is unknown in
/// its section, or the value is not of the kind that the field takes.
/// Numbers are decimal, with an optional plus sign, and must fit the field;
/// flags are `true` or `false`; text is taken as it is.
pub open spec fn parse_mutation(section: Seq<char>, key: Seq<char>, value: Seq<char>) -> Result<
    MutationView,
    Seq<char>,
> {
    if section == "server"@ {
        if key == "port"@ {
            match parse_unsigned(value, u16::MAX as nat) {
                Some(n) => Ok(MutationView::Port(n as u16)),
                None => Err("chybny port"@),
            }
        } else if key == "timeout"@ {
            match parse_unsigned(value, u64::MAX as nat) {
                Some(n) => Ok(MutationView::Timeout(n as u64)),
                None => Err("chybny timeout"@),
            }
        } else if key == "max_connections"@ {
            match parse_unsigned(value, usize::MAX as nat) {
                Some(n) => Ok(MutationView::MaxConnections(n as usize)),
                None => Err("chybny max_connections"@),
            }
        } else if key == "bind_address"@ {
            Ok(MutationView::BindAddress(value))
        } else {
            Err("neplatny nastaveni serveru: "@ + key)
        }
    } else if section == "cache"@ {
        if key == "cache_enabled"@ {
            match parse_flag(value) {
                Some(b) => Ok(MutationView::CacheEnabled(b)),
                None => Err("neplatna hodnota pro cache_enabled"@),
            }
        } else if key == "default_max_age"@ {
            match parse_unsigned(value, u32::MAX as nat) {
                Some(n) => Ok(MutationView::DefaultMaxAge(n as u32)),
                None => Err("neplatna hodnota pro default_max_age"@),
            }
        } else if key == "extension_cache_time"@ {
            parse_extension_time(value)
        } else {
            Err("neplatny nastaveni cache: "@ + key)
        }
    } else if section == "development"@ {
        if key == "development_mode"@ {
            match parse_flag(value) {
                Some(b) => Ok(MutationView::DevelopmentMode(b)),
                None => Err("neplatna hodnota pro development_mode"@),
            }
        } else {
            Err("neplatny nastaveni development: "@ + key)
        }
    } else if section == "compression"@ {
        if key == "enable_compression"@ {
            match parse_flag(value) {
                Some(b) => Ok(MutationView::EnableCompression(b)),
                None => Err("neplatna hodnota pro enable_compression"@),
            }
        } else if key == "min_size_to_compress"@ {
            match parse_unsigned(value, usize::MAX as nat) {
                Some(n) => Ok(MutationView::MinSizeToCompress(n as usize)),
                None => Err("neplatna hodnota pro min_size_to_compress"@),
            }
        } else {
            Err("neplatny nastaveni compression: "@ + key)
        }
    } else if section == "php"@ {
        if key == "php_enabled"@ {
            match parse_flag(value) {
                Some(b) => Ok(MutationView::PhpEnabled(b)),
                None => Err("neplatna hodnota pro php_enabled"@),
            }
        } else if key == "php_cgi_path"@ {
            Ok(MutationView::PhpCgiPath(value))
        } else if key == "php_exe_path"@ {
            Ok(MutationView::PhpExePath(value))
        } else if key == "php_root_dir"@ {
            Ok(MutationView::PhpRootDir(value))
        } else if key == "php_timeout"@ {
            match parse_unsigned(value, u64::MAX as nat) {
                Some(n) => Ok(MutationView::PhpTimeout(n as u64)),
                None => Err("neplatna hodnota pro php_timeout"@),
            }
        } else {
            Err("neplatny nastaveni php: "@ + key)
        }
    } else if section == "static"@ {
        if key == "static_root"@ {
            Ok(MutationView::StaticRoot(value))
        } else if key == "max_file_size"@ {
            match parse_unsigned(value, usize::MAX as nat) {
                Some(n) => Ok(MutationView::MaxFileSize(n as usize)),
                None => Err("neplatna hodnota pro max_file_size"@),
            }
        } else {
            Err("neplatny nastaveni static souboru: "@ + key)
        }
    } else if section == "javascript"@ {
        if key == "js_minify"@ {
            match parse_flag(value) {
                Some(b) => Ok(MutationView::JsMinify(b)),
                None => Err("neplatna hodnota pro js_minify"@),
            }
        } else if key == "js_root_dir"@ {
            Ok(MutationView::JsRootDir(value))
        } else {
            Err("neplatny nastaveni javascriptu: "@ + key)
        }
    } else {
        Err("neplatny nastaveni: "@ + section)
    }
}

/// The configuration `config` with the field that `mutation` names set to
/// the value that it carries; every other field is as before.
pub open spec fn apply_mutation(
    config: ServerConfigView,
    mutation: MutationView,
) -> ServerConfigView {
    match mutation {
        MutationView::Port(v) => ServerConfigView { port: v, ..config },
        MutationView::Timeout(v) => ServerConfigView { timeout: v, ..config },
        MutationView::MaxConnections(v) => ServerConfigView { max_connections: v, ..config },
        MutationView::BindAddress(v) => ServerConfigView { bind_address: v, ..config },
        MutationView::CacheEnabled(v) => ServerConfigView { cache_enabled: v, ..config },
        MutationView::DefaultMaxAge(v) => ServerConfigView { default_max_age: v, ..config },
        MutationView::ExtensionCacheTime(extension, seconds) => ServerConfigView {
            file_extension_cache_times: config.file_extension_cache_times.insert(
                extension,
                seconds,
            ),
            ..config
        },
        MutationView::DevelopmentMode(v) => ServerConfigView { development_mode: v, ..config },
        MutationView::EnableCompression(v) => ServerConfigView { enable_compression: v, ..config },
        MutationView::MinSizeToCompress(v) => ServerConfigView {
            min_size_to_compress: v,
            ..config
        },
        MutationView::PhpEnabled(v) => ServerConfigView { php_enabled: v, ..config },
        MutationView::PhpCgiPath(v) => ServerConfigView { php_cgi_path: v, ..config },
        MutationView::PhpExePath(v) => ServerConfigView { php_exe_path: v, ..config },
        MutationView::PhpRootDir(v) => ServerConfigView { php_root_dir: v, ..config },
        MutationView::PhpTimeout(v) => ServerConfigView { php_timeout: v, ..config },
        MutationView::StaticRoot(v) => ServerConfigView { static_root: v, ..config },
        MutationView::MaxFileSize(v) => ServerConfigView { max_file_size: v, ..config },
        MutationView::JsMinify(v) => ServerConfigView { js_minify: v, ..config },
        MutationView::JsRootDir(v) => ServerConfigView { js_root_dir: v, ..config },
    }
}

/// What a parsed mutation or its error message holds, as mathematical values.
pub open spec fn parsed_view(parsed: Result<ConfigMutation, String>) -> Result<
    MutationView,
    Seq<char>,
> {
    match parsed {
        Ok(mutation) => Ok(mutation@),
        Err(message) => Err(message@),
    }
}

fn read_flag(value: &str) -> (flag: Option<bool>)
    ensures
        flag == parse_flag(value@),
{
    if str_eq(value, "true") {
        Some(true)
    } else if str_eq(value, "false") {
        Some(false)
    } else {
        None
    }
}

fn read_number(value: &str, max: u64) -> (number: Option<u64>)
    ensures
        match number {
            Some(n) => parse_unsigned(value@, max as nat) == Some(n as nat),
            None => parse_unsigned(value@, max as nat) is None,
        },
{
    let chars = to_chars(value);
    parse_number(chars.as_slice(), max)
}

fn read_extension_time(value: &str) -> (parsed: Result<ConfigMutation, String>)
    ensures
        parsed_view(parsed) == parse_extension_time(value@),
{
    let chars = to_chars(value);
    let parts = split_on(chars.as_slice(), ':');
    if parts.len() != 2 {
        return Err(
            "neplatny format pro extension_cache_time, ocekavany format: ext:seconds".to_owned(),
        );
    }
    match parse_number(parts[1].as_slice(), u32::MAX as u64) {
        Some(seconds) => Ok(
            ConfigMutation::ExtensionCacheTime(from_chars(parts[0].as_slice()), seconds as u32),
        ),
        None => Err("neplatna hodnota pro seconds".to_owned()),
    }
}

impl ConfigMutation {
    /// Reads a mutation from a section, a key and a value given as text.
    pub fn parse(section: &str, key: &str, value: &str) -> (parsed: Result<ConfigMutation, String>)
        ensures
            parsed_view(parsed) == parse_mutation(section@, key@, value@),
    {
        if str_eq(section, "server") {
            if str_eq(key, "port") {
                match read_number(value, u16::MAX as u64) {
                    Some(n) => Ok(ConfigMutation::Port(n as u16)),
                    None => Err("chybny port".to_owned()),
                }
            } else if str_eq(key, "timeout") {
                match read_number(value, u64::MAX) {
                    Some(n) => Ok(ConfigMutation::Timeout(n)),
                    None => Err("chybny timeout".to_owned()),
                }
            } else if str_eq(key, "max_connections") {
                match read_number(value, usize::MAX as u64) {
                    Some(n) => Ok(ConfigMutation::MaxConnections(n as usize)),
                    None => Err("chybny max_connections".to_owned()),
                }
            } else if str_eq(key, "bind_address") {
                Ok(ConfigMutation::BindAddress(value.to_owned()))
            } else {
                Err(concat_str("neplatny nastaveni serveru: ", key))
            }
        } else if str_eq(section, "cache") {
            if str_eq(key, "cache_enabled") {
                match read_flag(value) {
                    Some(b) => Ok(ConfigMutation::CacheEnabled(b)),
                    None => Err("neplatna hodnota pro cache_enabled".to_owned()),
                }
            } else if str_eq(key, "default_max_age") {
                match read_number(value, u32::MAX as u64) {
                    Some(n) => Ok(ConfigMutation::DefaultMaxAge(n as u32)),
                    None => Err("neplatna hodnota pro default_max_age".to_owned()),
                }
            } else if str_eq(key, "extension_cache_time") {
                read_extension_time(value)
            } else {
                Err(concat_str("neplatny nastaveni cache: ", key))
            }
        } else if str_eq(section, "development") {
            if str_eq(key, "development_mode") {
                match read_flag(value) {
                    Some(b) => Ok(ConfigMutation::DevelopmentMode(b)),
                    None => Err("neplatna hodnota pro development_mode".to_owned()),
                }
            } else {
                Err(concat_str("neplatny nastaveni development: ", key))
            }
        } else if str_eq(section, "compression") {
            if str_eq(key, "enable_compression") {
                match read_flag(value) {
                    Some(b) => Ok(ConfigMutation::EnableCompression(b)),
                    None => Err("neplatna hodnota pro enable_compression".to_owned()),
                }
            } else if str_eq(key, "min_size_to_compress") {
                match read_number(value, usize::MAX as u64) {
                    Some(n) => Ok(ConfigMutation::MinSizeToCompress(n as usize)),
                    None => Err("neplatna hodnota pro min_size_to_compress".to_owned()),
                }
            } else {
                Err(concat_str("neplatny nastaveni compression: ", key))
            }
        } else if str_eq(section, "php") {
            if str_eq(key, "php_enabled") {
                match read_flag(value) {
                    Some(b) => Ok(ConfigMutation::PhpEnabled(b)),
                    None => Err("neplatna hodnota pro php_enabled".to_owned()),
                }
            } else if str_eq(key, "php_cgi_path") {
                Ok(ConfigMutation::PhpCgiPath(value.to_owned()))
            } else if str_eq(key, "php_exe_path") {
                Ok(ConfigMutation::PhpExePath(value.to_owned()))
            } else if str_eq(key, "php_root_dir") {
                Ok(ConfigMutation::PhpRootDir(value.to_owned()))
            } else if str_eq(key, "php_timeout") {
                match read_number(value, u64::MAX) {
                    Some(n) => Ok(ConfigMutation::PhpTimeout(n)),
                    None => Err("neplatna hodnota pro php_timeout".to_owned()),
                }
            } else {
                Err(concat_str("neplatny nastaveni php: ", key))
            }
        } else if str_eq(section, "static") {
            if str_eq(key, "static_root") {
                Ok(ConfigMutation::StaticRoot(value.to_owned()))
            } else if str_eq(key, "max_file_size") {
                match read_number(value, usize::MAX as u64) {
                    Some(n) => Ok(ConfigMutation::MaxFileSize(n as usize)),
                    None => Err("neplatna hodnota pro max_file_size".to_owned()),
                }
            } else {
                Err(concat_str("neplatny nastaveni static souboru: ", key))
            }
        } else if str_eq(section, "javascript") {
            if str_eq(key, "js_minify") {
                match read_flag(value) {
                    Some(b) => Ok(ConfigMutation::JsMinify(b)),
                    None => Err("neplatna hodnota pro js_minify".to_owned()),
                }
            } else if str_eq(key, "js_root_dir") {
                Ok(ConfigMutation::JsRootDir(value.to_owned()))
            } else {
                Err(concat_str("neplatny nastaveni javascriptu: ", key))
            }
        } else {
            Err(concat_str("neplatny nastaveni: ", section))
        }
    }
}

impl ServerConfig {
    /// Sets the field that `mutation` names to the value that it carries.
    pub fn apply(&mut self, mutation: ConfigMutation)
        ensures
            final(self)@ == apply_mutation(old(self)@, mutation@),
    {
        match mutation {
            ConfigMutation::Port(v) => {
                self.port = v;
            },
            ConfigMutation::Timeout(v) => {
                self.timeout = v;
            },
            ConfigMutation::MaxConnections(v) => {
                self.max_connections = v;
            },
            ConfigMutation::BindAddress(v) => {
                self.bind_address = v;
            },
            ConfigMutation::CacheEnabled(v) => {
                self.cache_enabled = v;
            },
            ConfigMutation::DefaultMaxAge(v) => {
                self.default_max_age = v;
            },
            ConfigMutation::ExtensionCacheTime(extension, seconds) => {
                self.file_extension_cache_times.insert(extension, seconds);
            },
            ConfigMutation::DevelopmentMode(v) => {
                self.development_mode = v;
            },
            ConfigMutation::EnableCompression(v) => {
                self.enable_compression = v;
            },
            ConfigMutation::MinSizeToCompress(v) => {
                self.min_size_to_compress = v;
            },
            ConfigMutation::PhpEnabled(v) => {
                self.php_enabled = v;
            },
            ConfigMutation::PhpCgiPath(v) => {
                self.php_cgi_path = v;
            },
            ConfigMutation::PhpExePath(v) => {
                self.php_exe_path = v;
            },
            ConfigMutation::PhpRootDir(v) => {
                self.php_root_dir = v;
            },
            ConfigMutation::PhpTimeout(v) => {
                self.php_timeout = v;
            },
            ConfigMutation::StaticRoot(v) => {
                self.static_root = v;
            },
            ConfigMutation::MaxFileSize(v) => {
                self.max_file_size = v;
            },
            ConfigMutation::JsMinify(v) => {
                self.js_minify = v;
            },
            ConfigMutation::JsRootDir(v) => {
                self.js_root_dir = v;
            },
        }
    }
}

} // verus!
