//! Substitution of a configured page for the answer to a failed request.

use crate::config::server_config::{ServerConfig, ServerConfigView};
use crate::response::{typed_text_response, ResponseDescriptor};
use crate::server::http::{error_page, error_page_path};
use vstd::prelude::*;

verus! {

/// The path of the page to send in place of the answer to a request:
/// nothing for a request that succeeded, and for one that failed the page
/// configured for `500`, where there is one.
pub open spec fn substitute_page(config: ServerConfigView, failed: bool) -> Option<Seq<char>> {
    if failed {
        error_page(config, 500)
    } else {
        None
    }
}

/// The path of the page to send in place of the answer to a request that
/// failed or not.
pub fn error_handler(config: &ServerConfig, failed: bool) -> (path: Option<String>)
    ensures
        match path {
            Some(p) => substitute_page(config@, failed) == Some(p@),
            None => substitute_page(config@, failed) is None,
        },
{
    if failed {
        error_page_path(config, 500)
    } else {
        None
    }
}

/// The answer that carries the configured page with text `page`.
pub fn custom_error_response(page: &str) -> (response: ResponseDescriptor)
    ensures
        response@ == typed_text_response(500, "text/html"@, page@),
{
    ResponseDescriptor::typed_text(500, "text/html", page)
}

} // verus!
