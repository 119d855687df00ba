//! The logic of a small web server: a configuration store, a static asset
//! pipeline and a CGI gateway to a script interpreter.
//!
//! Every function here is a function from values to values. Reading files,
//! listening on sockets and running processes is left to the program around
//! this library, which hands in what it read and does what comes back.
//!
//! - `config` holds the configuration value, its typed updates, and the
//!   store of the live value.
//! - `path` resolves untrusted request paths below a root directory.
//! - `handlers` holds the pipelines: static files, the CGI gateway, scripts,
//!   the configuration endpoints and the WebSocket session.
//! - `server` and `middleware` hold the index and error pages.
//! - `response` describes responses; `text` and `string_map` are the text
//!   and map operations that the rest is built on.

pub mod config;
pub mod handlers;
pub mod middleware;
pub mod path;
pub mod response;
pub mod server;
pub mod string_map;
pub mod text;
pub mod utils;
