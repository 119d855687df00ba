//! The script handler: JavaScript files below the script root, minified
//! outside development mode.

use crate::config::server_config::{cache_duration, ServerConfig, ServerConfigView};
use crate::handlers::static_files::{
    cache_control, cache_control_value, get_last_modified, last_modified_text,
    push_optional_header, with_optional_header,
};
use crate::path::{extension, extension_of, join_path, joined, normalize_chars, normalized};
use crate::response::{
    header_views, optional_text, text_response, ResponseDescriptor, ResponseView,
};
use crate::text::{concat_str, from_chars, strip_prefixes, to_chars, without_prefixes};
use vstd::prelude::*;
use vstd::utf8::encode_utf8;

verus! {

/// A script file as the handler sees it: its text and the time of its last
/// modification in seconds after the start of 1970, where known.
#[derive(Debug, Clone, PartialEq, Eq)]
pub struct JsFile {
    pub source: String,
    pub modified: Option<u64>,
}

/// The path of the file, relative to the script root, that the request path
/// `path` names: what follows the `/js/` prefix, reduced to its ordinary
/// components.
pub open spec fn js_relative_path(path: Seq<char>) -> Seq<char> {
    normalized(strip_prefixes(path, "/js/"@))
}

/// The path of the file, relative to the script root, that the request path
/// `path` names. It never leads out of the root.
pub fn relative_path(path: &str) -> (relative: String)
    ensures
        relative@ == js_relative_path(path@),
{
    let chars = to_chars(path);
    let prefix = to_chars("/js/");
    let stripped = without_prefixes(chars.as_slice(), prefix.as_slice());
    let relative = normalize_chars(stripped.as_slice());
    from_chars(relative.as_slice())
}

/// The path of the file that the request path `path` names.
pub fn file_path(config: &ServerConfig, path: &str) -> (full: String)
    ensures
        full@ == joined(config@.js_root_dir, js_relative_path(path@)),
{
    let relative = relative_path(path);
    join_path(config.js_root_dir.as_str(), relative.as_str())
}

/// Whether scripts are minified: outside development mode, where the
/// configuration asks for it.
pub open spec fn minifies(config: ServerConfigView) -> bool {
    !config.development_mode && config.js_minify
}

/// Whether scripts are minified under `config`.
pub fn should_minify(config: &ServerConfig) -> (minify: bool)
    ensures
        minify == minifies(config@),
{
    !config.development_mode && config.js_minify
}

/// The `Cache-Control` value for the script at `relative`: never to be
/// stored in development mode or where caching is off; else the lifetime of
/// the cache policy, and no header at all where that lifetime is zero.
pub open spec fn js_cache_control(config: ServerConfigView, relative: Seq<char>) -> Option<
    Seq<char>,
> {
    if !config.development_mode && config.cache_enabled {
        let seconds = cache_duration(config, extension(relative));
        if seconds > 0 {
            Some(cache_control_value(seconds))
        } else {
            None
        }
    } else {
        Some("no-store, max-age=0"@)
    }
}

fn cache_header(config: &ServerConfig, relative: &str) -> (value: Option<String>)
    ensures
        optional_text(value) == js_cache_control(config@, relative@),
{
    if !config.development_mode && config.cache_enabled {
        let ext = extension_of(relative);
        let seconds = config.get_cache_duration(ext.as_str());
        if seconds > 0 {
            Some(cache_control(seconds))
        } else {
            None
        }
    } else {
        Some("no-store, max-age=0".to_owned())
    }
}

/// The answer to a request for the script `path`. `file` is the file found
/// at the resolved path, if there is one; `minified` is its minified text,
/// where minifying was asked for and succeeded. The minified text is sent
/// only where `minifies` holds; a failed minification sends the source.
pub open spec fn js_response(
    config: ServerConfigView,
    path: Seq<char>,
    file: Option<(Seq<char>, Option<u64>)>,
    minified: Option<Seq<char>>,
) -> ResponseView {
    let relative = js_relative_path(path);
    match file {
        None => text_response(404, "JavaScript file not found: "@ + relative),
        Some((source, modified)) => {
            let text = if minifies(config) && minified is Some {
                minified->0
            } else {
                source
            };
            let last_modified = match modified {
                Some(seconds) => last_modified_text(seconds),
                None => None,
            };
            ResponseView {
                status: 200,
                content_type: Some("application/javascript"@),
                headers: with_optional_header(
                    with_optional_header(
                        Seq::empty(),
                        "Cache-Control"@,
                        js_cache_control(config, relative),
                    ),
                    "Last-Modified"@,
                    last_modified,
                ),
                body: encode_utf8(text),
            }
        },
    }
}

/// What an optional script file holds, as mathematical values.
pub open spec fn optional_js_file(file: Option<JsFile>) -> Option<(Seq<char>, Option<u64>)> {
    match file {
        Some(found) => Some((found.source@, found.modified)),
        None => None,
    }
}

/// Answers a request for the script `path`.
pub fn handle_js(
    config: &ServerConfig,
    path: &str,
    file: Option<JsFile>,
    minified: Option<String>,
) -> (response: ResponseDescriptor)
    ensures
        response@ == js_response(config@, path@, optional_js_file(file), optional_text(minified)),
{
    let relative = relative_path(path);
    let found = match file {
        Some(found) => found,
        None => {
            let message = concat_str("JavaScript file not found: ", relative.as_str());
            return ResponseDescriptor::text(404, message.as_str());
        },
    };
    let text = match minified {
        Some(small) => if should_minify(config) {
            small
        } else {
            found.source
        },
        None => found.source,
    };
    let last_modified = match found.modified {
        Some(seconds) => get_last_modified(seconds),
        None => None,
    };
    let mut headers: Vec<(String, String)> = Vec::new();
    assert(header_views(headers@) == Seq::<(Seq<char>, Seq<char>)>::empty());
    push_optional_header(&mut headers, "Cache-Control", cache_header(config, relative.as_str()));
    push_optional_header(&mut headers, "Last-Modified", last_modified);
    ResponseDescriptor {
        status: 200,
        content_type: Some("application/javascript".to_owned()),
        headers: headers,
        body: text.as_str().as_bytes_vec(),
    }
}

/// The answer to a request for a script that could not be read.
pub fn read_failed(relative: &str) -> (response: ResponseDescriptor)
    ensures
        response@ == text_response(500, "Failed to read JavaScript file: "@ + relative@),
{
    let message = concat_str("Failed to read JavaScript file: ", relative);
    ResponseDescriptor::text(500, message.as_str())
}

} // verus!
