//! What the server answers outside the two pipelines: the index page, and
//! the page for what is not found.

use crate::config::server_config::{ServerConfig, ServerConfigView};
use crate::handlers::php_handler::{
    begins_with_open_tag, check_php_tags, interpret_outcome, interpreted, ExecutionMode,
    ProcessOutcome, ProcessPlan, ProcessPlanView,
};
use crate::handlers::static_files::{content_type_of, get_content_type};
use crate::path::{join_path, joined};
use crate::response::{typed_text_response, ResponseDescriptor, ResponseView};
use crate::string_map::StringMap;
use crate::text::{decimal, from_chars, push_decimal};
use vstd::prelude::*;

verus! {

/// The page that is sent where nothing is found and no page is configured.
pub const NOT_FOUND_PAGE: &'static str =
    "\n                <!DOCTYPE html>\n                <html>\n                <head>\n                    <title>404 Not Found</title>\n                </head>\n                <body>\n                    <center><h1>404 Not Found</h1></center>\n                    <hr>\n                    <center>Qlira/0.1.1</center>\n                </body>\n                </html>\n            ";

/// The path of the page that is configured for status `status`: the entry
/// of the error page table, below the static root. There is none where
/// custom error pages are off or the table has no entry for the status.
pub open spec fn error_page(config: ServerConfigView, status: u16) -> Option<Seq<char>> {
    if config.custom_error_pages && config.error_pages.contains_key(decimal(status as nat)) {
        Some(joined(config.static_root, config.error_pages[decimal(status as nat)]))
    } else {
        None
    }
}

/// The path of the page that is configured for status `status`.
pub fn error_page_path(config: &ServerConfig, status: u16) -> (path: Option<String>)
    ensures
        match path {
            Some(p) => error_page(config@, status) == Some(p@),
            None => error_page(config@, status) is None,
        },
{
    if !config.custom_error_pages {
        return None;
    }
    let mut key: Vec<char> = Vec::new();
    push_decimal(&mut key, status as u64);
    assert(key@ == decimal(status as nat));
    let key_text = from_chars(key.as_slice());
    match config.error_pages.get(key_text.as_str()) {
        Some(page) => Some(join_path(config.static_root.as_str(), page.as_str())),
        None => None,
    }
}

/// The answer where nothing is found: the configured page where it could be
/// read, else the built-in one.
pub open spec fn not_found_page(custom_page: Option<Seq<char>>) -> ResponseView {
    typed_text_response(
        404,
        "text/html"@,
        match custom_page {
            Some(page) => page,
            None => NOT_FOUND_PAGE@,
        },
    )
}

/// Answers a request that no route serves. `custom_page` is the text of the
/// page configured for `404`, where there is one and it could be read.
pub fn handle_404(custom_page: Option<String>) -> (response: ResponseDescriptor)
    ensures
        response@ == not_found_page(
            match custom_page {
                Some(page) => Some(page@),
                None => None,
            },
        ),
{
    match custom_page {
        Some(page) => ResponseDescriptor::typed_text(404, "text/html", page.as_str()),
        None => ResponseDescriptor::typed_text(404, "text/html", NOT_FOUND_PAGE),
    }
}

/// The index file found in the server directory: the script where it could
/// be read, else the page where it could be read.
#[derive(Debug, Clone, PartialEq, Eq)]
pub enum IndexFile {
    Php { source: String },
    Html { source: String },
    Absent,
}

/// The paths of the two index files that are looked for, the script first.
pub fn index_candidates(config: &ServerConfig) -> (paths: (String, String))
    ensures
        paths.0@ == joined(config@.server_directory, "index.php"@),
        paths.1@ == joined(config@.server_directory, "index.html"@),
{
    (
        join_path(config.server_directory.as_str(), "index.php"),
        join_path(config.server_directory.as_str(), "index.html"),
    )
}

/// Whether the index script with text `source` is run by the interpreter:
/// only where it begins with the open tag and the gateway is enabled.
pub open spec fn runs_index_script(config: ServerConfigView, source: Seq<char>) -> bool {
    begins_with_open_tag(source) && config.php_enabled
}

/// Whether the index script with text `source` is run by the interpreter.
pub fn index_runs_script(config: &ServerConfig, source: &str) -> (runs: bool)
    ensures
        runs == runs_index_script(config@, source@),
{
    check_php_tags(source) && config.php_enabled
}

/// The plan for running the index script at `file_path`: the interpreter
/// binary with the script as its argument, no input, an environment of its
/// own, and the configured deadline.
pub fn execute_php_file(config: &ServerConfig, file_path: &str) -> (plan: ProcessPlan)
    ensures
        plan@ == (ProcessPlanView {
            mode: ExecutionMode::DirectExecute,
            program: config@.php_exe_path,
            arguments: seq![file_path@],
            script: file_path@,
            environment: Map::empty(),
            stdin: Seq::empty(),
            timeout_seconds: config.php_timeout,
        }),
{
    let mut arguments: Vec<String> = Vec::new();
    arguments.push(file_path.to_owned());
    let plan = ProcessPlan {
        mode: ExecutionMode::DirectExecute,
        program: config.php_exe_path.clone(),
        arguments: arguments,
        script: file_path.to_owned(),
        environment: StringMap::new(),
        stdin: Vec::new(),
        timeout_seconds: config.php_timeout,
    };
    assert(plan@.arguments =~= seq![file_path@]);
    plan
}

/// The answer to a request for the index. A script that was run and
/// succeeded is answered with its output; a script that was not run, or
/// whose run failed, with its own text; a page with its text; and where
/// there is neither, the answer is that of `handle_404`.
pub open spec fn index_response(
    found: IndexFile,
    run: Option<ProcessOutcome>,
    custom_page: Option<Seq<char>>,
) -> ResponseView {
    match found {
        IndexFile::Php { source } => {
            let output = match run {
                Some(outcome) => interpreted(ExecutionMode::DirectExecute, outcome),
                None => Ok(source@),
            };
            typed_text_response(
                200,
                "text/html"@,
                match output {
                    Ok(text) => text,
                    Err(_) => source@,
                },
            )
        },
        IndexFile::Html { source } => typed_text_response(
            200,
            content_type_of("index.html"@),
            source@,
        ),
        IndexFile::Absent => not_found_page(custom_page),
    }
}

/// Answers a request for the index. `run` is the outcome of running the
/// script, where it was run; `custom_page` is the text of the page
/// configured for `404`, where there is one and it could be read.
pub fn index(
    found: IndexFile,
    run: Option<ProcessOutcome>,
    custom_page: Option<String>,
) -> (response: ResponseDescriptor)
    ensures
        response@ == index_response(
            found,
            run,
            match custom_page {
                Some(page) => Some(page@),
                None => None,
            },
        ),
{
    match found {
        IndexFile::Php { source } => {
            let output = match run {
                Some(outcome) => match interpret_outcome(ExecutionMode::DirectExecute, outcome) {
                    Ok(text) => Some(text),
                    Err(_) => None,
                },
                None => None,
            };
            match output {
                Some(text) => ResponseDescriptor::typed_text(200, "text/html", text.as_str()),
                None => ResponseDescriptor::typed_text(200, "text/html", source.as_str()),
            }
        },
        IndexFile::Html { source } => {
            let content_type = get_content_type("index.html");
            ResponseDescriptor::typed_text(200, content_type.as_str(), source.as_str())
        },
        IndexFile::Absent => handle_404(custom_page),
    }
}

} // verus!
