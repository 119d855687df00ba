//! The CGI process gateway: which script a request names, the environment
//! and plan for running it, what the outcome of the run means, and how the
//! output of a CGI program is read as a response.
//!
//! The gateway itself starts no process. It plans the run and reads its
//! outcome; the caller starts the interpreter, enforces the deadline of the
//! plan by killing the process, and reports what happened.

use crate::config::server_config::{ServerConfig, ServerConfigView};
use crate::path::{normalize_chars, normalized};
use crate::response::{
    find_header, header_value, header_views, text_response, typed_text_response,
    ResponseDescriptor, ResponseView,
};
use crate::string_map::StringMap;
use crate::text::{
    append, append_str, ascii_lower, ascii_upper, concat_str, decimal, eq_ignore_ascii_case, find,
    find_first, from_chars, leading_whitespace, lines, lines_of, parse_number,
    parse_unsigned, push_decimal, push_signed_decimal, second_word, second_word_of,
    signed_decimal, starts_with_str, strip_prefixes, subrange, to_ascii_upper, to_chars, trim,
    trim_start, trimmed, views, without_prefixes,
};
use vstd::prelude::*;
use vstd::utf8::{decode_utf8, encode_utf8, valid_utf8};

verus! {

/// The largest request body, in bytes, that is handed to a script.
pub const MAX_REQUEST_SIZE: usize = 8388608;

/// The error of `String::from_utf8`.
#[verifier::external_type_specification]
#[verifier::external_body]
pub struct ExFromUtf8Error(std::string::FromUtf8Error);

/// `String::from_utf8` gives the text that the bytes encode, and fails
/// exactly where they are not valid UTF-8.
pub assume_specification[ String::from_utf8 ](vec: Vec<u8>) -> (r: Result<
    String,
    std::string::FromUtf8Error,
>)
    ensures
        r is Ok <==> valid_utf8(vec@),
        r matches Ok(s) ==> s@ == decode_utf8(vec@),
;

// ----------------------------------------------------------------------
// Requests
// ----------------------------------------------------------------------

/// A request as the gateway sees it.
#[derive(Debug, Clone, PartialEq, Eq)]
pub struct CgiRequest {
    pub method: String,
    pub path: String,
    pub query_string: String,
    pub uri: String,
    pub host: String,
    pub headers: Vec<(String, String)>,
    pub body: Vec<u8>,
}

/// What a `CgiRequest` holds, as mathematical values.
#[verifier::ext_equal]
pub struct CgiRequestView {
    pub method: Seq<char>,
    pub path: Seq<char>,
    pub query_string: Seq<char>,
    pub uri: Seq<char>,
    pub host: Seq<char>,
    pub headers: Seq<(Seq<char>, Seq<char>)>,
    pub body: Seq<u8>,
}

impl View for CgiRequest {
    type V = CgiRequestView;

    open spec fn view(&self) -> CgiRequestView {
        CgiRequestView {
            method: self.method@,
            path: self.path@,
            query_string: self.query_string@,
            uri: self.uri@,
            host: self.host@,
            headers: header_views(self.headers@),
            body: self.body@,
        }
    }
}

/// Adds `chunk` to the body collected so far and says whether the body is
/// still within `MAX_REQUEST_SIZE`. A caller that reads a request in chunks
/// stops, and answers with `body_too_large`, as soon as this says no.
pub fn accept_body_chunk(body: &mut Vec<u8>, chunk: &[u8]) -> (within_limit: bool)
    ensures
        final(body)@ == old(body)@ + chunk@,
        within_limit == (final(body)@.len() <= MAX_REQUEST_SIZE),
{
    body.extend_from_slice(chunk);
    body.len() <= MAX_REQUEST_SIZE
}

/// The answer to a request whose body is larger than `MAX_REQUEST_SIZE`.
pub open spec fn body_too_large_response() -> ResponseView {
    text_response(413, "request body je prilis velky"@)
}

/// The answer to a request whose body is larger than `MAX_REQUEST_SIZE`.
pub fn body_too_large() -> (response: ResponseDescriptor)
    ensures
        response@ == body_too_large_response(),
{
    ResponseDescriptor::text(413, "request body je prilis velky")
}

/// The answer to a request whose body could not be read.
pub fn body_unreadable() -> (response: ResponseDescriptor)
    ensures
        response@ == text_response(400, "chyba pri zpracovani requestu"@),
{
    ResponseDescriptor::text(400, "chyba pri zpracovani requestu")
}

// ----------------------------------------------------------------------
// The script
// ----------------------------------------------------------------------

/// The path of the script, relative to the script root, that the request
/// path `path` names: what follows the `/php/` prefix, reduced to its
/// ordinary components, and `index.php` where nothing is left.
pub open spec fn script_relative_path(path: Seq<char>) -> Seq<char> {
    let relative = normalized(strip_prefixes(path, "/php/"@));
    if relative.len() == 0 {
        "index.php"@
    } else {
        relative
    }
}

/// The file name of the script that the request path `path` names.
pub open spec fn script_filename_spec(config: ServerConfigView, path: Seq<char>) -> Seq<char> {
    config.php_root_dir + seq!['/'] + script_relative_path(path)
}

/// The file name of the script that the request path `path` names: a path
/// below the script root, whatever the request says.
pub fn script_filename(config: &ServerConfig, path: &str) -> (filename: String)
    ensures
        filename@ == script_filename_spec(config@, path@),
{
    let chars = to_chars(path);
    let prefix = to_chars("/php/");
    let stripped = without_prefixes(chars.as_slice(), prefix.as_slice());
    let relative = normalize_chars(stripped.as_slice());
    let mut out: Vec<char> = to_chars(config.php_root_dir.as_str());
    out.push('/');
    if relative.len() == 0 {
        append_str(&mut out, "index.php");
    } else {
        append(&mut out, relative.as_slice());
    }
    from_chars(out.as_slice())
}

/// Whether the text of a script, leading white space aside, begins with the
/// interpreter's open tag.
pub open spec fn begins_with_open_tag(script: Seq<char>) -> bool {
    "<?php"@.is_prefix_of(trim_start(script))
}

/// Whether the text of a script, leading white space aside, begins with the
/// interpreter's open tag.
pub fn check_php_tags(script: &str) -> (tagged: bool)
    ensures
        tagged == begins_with_open_tag(script@),
{
    let chars = to_chars(script);
    let start = leading_whitespace(chars.as_slice());
    let rest = subrange(chars.as_slice(), start, chars.len());
    starts_with_str(rest.as_slice(), "<?php")
}

/// What looking for the script on disk gave.
#[derive(Debug, Clone, PartialEq, Eq)]
pub enum ScriptProbe {
    /// There is no regular file of that name.
    Missing,
    /// There is one; `text` is its content where it could be read as text.
    Found { text: Option<String> },
}

/// How the interpreter is run.
#[derive(Debug, Clone, Copy, PartialEq, Eq)]
pub enum ExecutionMode {
    /// The interpreter binary is given the script as its argument.
    DirectExecute,
    /// The CGI binary finds the script through the environment.
    Cgi,
}

/// The mode in which a probed script is run: direct execution where its
/// text begins with the open tag, CGI otherwise.
pub open spec fn execution_mode(probe: ScriptProbe) -> ExecutionMode {
    match probe {
        ScriptProbe::Found { text: Some(text) } => if begins_with_open_tag(text@) {
            ExecutionMode::DirectExecute
        } else {
            ExecutionMode::Cgi
        },
        _ => ExecutionMode::Cgi,
    }
}

// ----------------------------------------------------------------------
// The environment
// ----------------------------------------------------------------------

/// `name` with every hyphen replaced by an underscore.
pub open spec fn underscored(name: Seq<char>) -> Seq<char> {
    name.map_values(
        |c: char|
            if c == '-' {
                '_'
            } else {
                c
            },
    )
}

/// The name of the environment variable that carries the request header
/// `name`: `HTTP_`, then the name in upper case with underscores for
/// hyphens.
pub open spec fn header_variable(name: Seq<char>) -> Seq<char> {
    "HTTP_"@ + ascii_upper(underscored(name))
}

/// The name of the environment variable that carries the request header
/// `name`.
pub fn header_variable_name(name: &str) -> (variable: String)
    ensures
        variable@ == header_variable(name@),
{
    let chars = to_chars(name);
    let mut replaced: Vec<char> = Vec::new();
    let mut i: usize = 0;
    while i < chars.len()
        invariant
            i <= chars.len(),
            replaced@ == underscored(chars@.take(i as int)),
        decreases chars.len() - i,
    {
        assert(chars@.take(i + 1) == chars@.take(i as int).push(chars@[i as int]));
        if chars[i] == '-' {
            replaced.push('_');
        } else {
            replaced.push(chars[i]);
        }
        i += 1;
    }
    assert(chars@.take(chars.len() as int) == chars@);
    let upper = to_ascii_upper(replaced.as_slice());
    let mut out: Vec<char> = to_chars("HTTP_");
    append(&mut out, upper.as_slice());
    from_chars(out.as_slice())
}

/// `environment` with one variable for each of `headers`, set in order, so
/// that of two headers with one variable name the later one counts.
pub open spec fn with_headers(
    environment: Map<Seq<char>, Seq<char>>,
    headers: Seq<(Seq<char>, Seq<char>)>,
) -> Map<Seq<char>, Seq<char>>
    decreases headers.len(),
{
    if headers.len() == 0 {
        environment
    } else {
        with_headers(environment, headers.drop_last()).insert(
            header_variable(headers.last().0),
            headers.last().1,
        )
    }
}

/// The variables that every request gets.
pub open spec fn base_environment(
    request: CgiRequestView,
    script_filename: Seq<char>,
) -> Map<Seq<char>, Seq<char>> {
    Map::<Seq<char>, Seq<char>>::empty().insert("SCRIPT_FILENAME"@, script_filename).insert(
        "SCRIPT_NAME"@,
        "/php/"@ + script_filename,
    ).insert("REQUEST_METHOD"@, request.method).insert(
        "QUERY_STRING"@,
        request.query_string,
    ).insert("REQUEST_URI"@, request.uri).insert("SERVER_NAME"@, request.host).insert(
        "SERVER_PROTOCOL"@,
        "HTTP/1.1"@,
    ).insert("GATEWAY_INTERFACE"@, "CGI/1.1"@)
}

/// The variables that say what kind of body a request has: its length, and
/// its type where the request names one. A request without body has
/// neither.
pub open spec fn with_body_variables(
    environment: Map<Seq<char>, Seq<char>>,
    request: CgiRequestView,
) -> Map<Seq<char>, Seq<char>> {
    if request.body.len() > 0 {
        let with_length = environment.insert("CONTENT_LENGTH"@, decimal(request.body.len()));
        match header_value(request.headers, "content-type"@) {
            Some(content_type) => with_length.insert("CONTENT_TYPE"@, content_type),
            None => with_length,
        }
    } else {
        environment
    }
}

/// The environment of the interpreter for `request`.
pub open spec fn environment_spec(
    config: ServerConfigView,
    request: CgiRequestView,
    script_filename: Seq<char>,
) -> Map<Seq<char>, Seq<char>> {
    let base = base_environment(request, script_filename);
    let marked = if config.development_mode {
        base.insert("DEVELOPMENT_MODE"@, "1"@)
    } else {
        base
    };
    with_body_variables(with_headers(marked, request.headers), request)
}

/// The environment of the interpreter for `request`: the standard CGI
/// variables, a marker in development mode, one `HTTP_` variable for each
/// header, and the body's length and type where there is a body.
pub fn build_environment(
    config: &ServerConfig,
    request: &CgiRequest,
    script_filename: &str,
) -> (environment: StringMap<String>)
    ensures
        environment@ == environment_spec(config@, request@, script_filename@),
{
    let mut env: StringMap<String> = StringMap::new();
    env.insert("SCRIPT_FILENAME".to_owned(), script_filename.to_owned());
    env.insert("SCRIPT_NAME".to_owned(), concat_str("/php/", script_filename));
    env.insert("REQUEST_METHOD".to_owned(), request.method.clone());
    env.insert("QUERY_STRING".to_owned(), request.query_string.clone());
    env.insert("REQUEST_URI".to_owned(), request.uri.clone());
    env.insert("SERVER_NAME".to_owned(), request.host.clone());
    env.insert("SERVER_PROTOCOL".to_owned(), "HTTP/1.1".to_owned());
    env.insert("GATEWAY_INTERFACE".to_owned(), "CGI/1.1".to_owned());
    if config.development_mode {
        env.insert("DEVELOPMENT_MODE".to_owned(), "1".to_owned());
    }
    let ghost marked = env@;
    let mut i: usize = 0;
    while i < request.headers.len()
        invariant
            i <= request.headers.len(),
            env@ == with_headers(marked, header_views(request.headers@).take(i as int)),
        decreases request.headers.len() - i,
    {
        proof {
            assert(header_views(request.headers@).take(i + 1).drop_last() == header_views(
                request.headers@,
            ).take(i as int));
        }
        let variable = header_variable_name(request.headers[i].0.as_str());
        env.insert(variable, request.headers[i].1.clone());
        i += 1;
    }
    assert(header_views(request.headers@).take(request.headers.len() as int) == header_views(
        request.headers@,
    ));
    if request.body.len() > 0 {
        let mut length: Vec<char> = Vec::new();
        push_decimal(&mut length, request.body.len() as u64);
        assert(length@ == decimal(request.body@.len()));
        env.insert("CONTENT_LENGTH".to_owned(), from_chars(length.as_slice()));
        match find_header(&request.headers, "content-type") {
            Some(content_type) => {
                env.insert("CONTENT_TYPE".to_owned(), content_type.clone());
            },
            None => {},
        }
    }
    env
}

/// Once the variables of `headers` are set, the variable of a header holds
/// that header's value unless a later header has the same variable.
proof fn lemma_with_headers_last_wins(
    environment: Map<Seq<char>, Seq<char>>,
    headers: Seq<(Seq<char>, Seq<char>)>,
    i: int,
)
    requires
        0 <= i < headers.len(),
        forall|j: int|
            i < j < headers.len() ==> header_variable(#[trigger] headers[j].0) != header_variable(
                headers[i].0,
            ),
    ensures
        with_headers(environment, headers).contains_key(header_variable(headers[i].0)),
        with_headers(environment, headers)[header_variable(headers[i].0)] == headers[i].1,
    decreases headers.len(),
{
    if i < headers.len() - 1 {
        let front = headers.drop_last();
        assert(front[i] == headers[i]);
        assert forall|j: int| i < j < front.len() implies header_variable(#[trigger] front[j].0)
            != header_variable(front[i].0) by {
            assert(front[j] == headers[j]);
        }
        lemma_with_headers_last_wins(environment, front, i);
        assert(header_variable(headers[headers.len() - 1].0) != header_variable(headers[i].0));
    }
}

/// Every header of a request reaches the interpreter: the environment maps
/// the variable of a header to that header's value, unless a later header
/// has the same variable name, in which case the later one counts.
pub proof fn lemma_header_in_environment(
    config: ServerConfigView,
    request: CgiRequestView,
    script_filename: Seq<char>,
    i: int,
)
    requires
        0 <= i < request.headers.len(),
        forall|j: int|
            i < j < request.headers.len() ==> header_variable(#[trigger] request.headers[j].0)
                != header_variable(request.headers[i].0),
    ensures
        environment_spec(config, request, script_filename).contains_key(
            header_variable(request.headers[i].0),
        ),
        environment_spec(config, request, script_filename)[header_variable(request.headers[i].0)]
            == request.headers[i].1,
{
    let base = base_environment(request, script_filename);
    let marked = if config.development_mode {
        base.insert("DEVELOPMENT_MODE"@, "1"@)
    } else {
        base
    };
    lemma_with_headers_last_wins(marked, request.headers, i);
    let variable = header_variable(request.headers[i].0);
    reveal_strlit("HTTP_");
    reveal_strlit("CONTENT_LENGTH");
    reveal_strlit("CONTENT_TYPE");
    assert("HTTP_"@.len() == 5);
    assert(variable[0] == 'H');
    assert("CONTENT_LENGTH"@[0] == 'C');
    assert("CONTENT_TYPE"@[0] == 'C');
}

/// Setting the variables of `headers` changes no variable whose name does
/// not begin as theirs do.
proof fn lemma_with_headers_keeps(
    environment: Map<Seq<char>, Seq<char>>,
    headers: Seq<(Seq<char>, Seq<char>)>,
    key: Seq<char>,
)
    requires
        key.len() > 0,
        key[0] != 'H',
    ensures
        with_headers(environment, headers).contains_key(key) == environment.contains_key(key),
        with_headers(environment, headers)[key] == environment[key],
    decreases headers.len(),
{
    if headers.len() > 0 {
        lemma_with_headers_keeps(environment, headers.drop_last(), key);
        reveal_strlit("HTTP_");
        assert("HTTP_"@.len() == 5);
        assert(header_variable(headers.last().0)[0] == 'H');
    }
}

/// No request header can set or change a standard variable: whatever the
/// headers of a request are, the environment holds the standard variables
/// with the values that the gateway gave them.
pub proof fn lemma_standard_variables_kept(
    config: ServerConfigView,
    request: CgiRequestView,
    script_filename: Seq<char>,
    key: Seq<char>,
)
    requires
        base_environment(request, script_filename).contains_key(key),
    ensures
        environment_spec(config, request, script_filename).contains_key(key),
        environment_spec(config, request, script_filename)[key] == base_environment(
            request,
            script_filename,
        )[key],
{
    reveal_strlit("SCRIPT_FILENAME");
    reveal_strlit("SCRIPT_NAME");
    reveal_strlit("REQUEST_METHOD");
    reveal_strlit("QUERY_STRING");
    reveal_strlit("REQUEST_URI");
    reveal_strlit("SERVER_NAME");
    reveal_strlit("SERVER_PROTOCOL");
    reveal_strlit("GATEWAY_INTERFACE");
    reveal_strlit("DEVELOPMENT_MODE");
    reveal_strlit("CONTENT_LENGTH");
    reveal_strlit("CONTENT_TYPE");
    assert("SCRIPT_FILENAME"@[0] == 'S' && "SCRIPT_FILENAME"@.len() > 0);
    assert("SCRIPT_NAME"@[0] == 'S' && "SCRIPT_NAME"@.len() > 0);
    assert("REQUEST_METHOD"@[0] == 'R' && "REQUEST_METHOD"@.len() > 0);
    assert("QUERY_STRING"@[0] == 'Q' && "QUERY_STRING"@.len() > 0);
    assert("REQUEST_URI"@[0] == 'R' && "REQUEST_URI"@.len() > 0);
    assert("SERVER_NAME"@[0] == 'S' && "SERVER_NAME"@.len() > 0);
    assert("SERVER_PROTOCOL"@[0] == 'S' && "SERVER_PROTOCOL"@.len() > 0);
    assert("GATEWAY_INTERFACE"@[0] == 'G' && "GATEWAY_INTERFACE"@.len() > 0);
    assert("DEVELOPMENT_MODE"@[0] == 'D');
    assert("CONTENT_LENGTH"@[0] == 'C');
    assert("CONTENT_TYPE"@[0] == 'C');
    let base = base_environment(request, script_filename);
    let marked = if config.development_mode {
        base.insert("DEVELOPMENT_MODE"@, "1"@)
    } else {
        base
    };
    assert(key.len() > 0 && key[0] != 'H' && key[0] != 'D' && key[0] != 'C');
    lemma_with_headers_keeps(marked, request.headers, key);
}

// ----------------------------------------------------------------------
// The plan
// ----------------------------------------------------------------------

/// How to run the interpreter for one request. The working directory of
/// the process is the directory that holds `script`.
#[derive(Debug)]
pub struct ProcessPlan {
    pub mode: ExecutionMode,
    pub program: String,
    pub arguments: Vec<String>,
    pub script: String,
    pub environment: StringMap<String>,
    pub stdin: Vec<u8>,
    pub timeout_seconds: u64,
}

/// What a `ProcessPlan` holds, as mathematical values.
#[verifier::ext_equal]
pub struct ProcessPlanView {
    pub mode: ExecutionMode,
    pub program: Seq<char>,
    pub arguments: Seq<Seq<char>>,
    pub script: Seq<char>,
    pub environment: Map<Seq<char>, Seq<char>>,
    pub stdin: Seq<u8>,
    pub timeout_seconds: u64,
}

impl View for ProcessPlan {
    type V = ProcessPlanView;

    open spec fn view(&self) -> ProcessPlanView {
        ProcessPlanView {
            mode: self.mode,
            program: self.program@,
            arguments: self.arguments@.map_values(|a: String| a@),
            script: self.script@,
            environment: self.environment@,
            stdin: self.stdin@,
            timeout_seconds: self.timeout_seconds,
        }
    }
}

/// The plan for running the script `script_filename` in mode `mode`: the
/// interpreter binary with the script as argument, or the CGI binary
/// without arguments; the environment of the request; the body as standard
/// input; the configured deadline.
pub open spec fn plan_spec(
    config: ServerConfigView,
    request: CgiRequestView,
    script_filename: Seq<char>,
    mode: ExecutionMode,
) -> ProcessPlanView {
    ProcessPlanView {
        mode: mode,
        program: match mode {
            ExecutionMode::DirectExecute => config.php_exe_path,
            ExecutionMode::Cgi => config.php_cgi_path,
        },
        arguments: match mode {
            ExecutionMode::DirectExecute => seq![script_filename],
            ExecutionMode::Cgi => Seq::empty(),
        },
        script: script_filename,
        environment: environment_spec(config, request, script_filename),
        stdin: request.body,
        timeout_seconds: config.php_timeout,
    }
}

/// What the gateway does once the script has been looked for: the answer
/// where there is no script or the body is too large, else the plan.
pub open spec fn prepared(
    config: ServerConfigView,
    request: CgiRequestView,
    script_filename: Seq<char>,
    probe: ScriptProbe,
) -> Result<ProcessPlanView, ResponseView> {
    if probe is Missing {
        Err(text_response(404, "PHP script not found: "@ + script_filename))
    } else if request.body.len() > MAX_REQUEST_SIZE {
        Err(body_too_large_response())
    } else {
        Ok(plan_spec(config, request, script_filename, execution_mode(probe)))
    }
}

/// What is decided before the script is looked for: the answer where the
/// gateway is disabled, else the file name of the script.
pub open spec fn located(config: ServerConfigView, request: CgiRequestView) -> Result<
    Seq<char>,
    ResponseView,
> {
    if !config.php_enabled {
        Err(text_response(404, "PHP processing is disabled"@))
    } else {
        Ok(script_filename_spec(config, request.path))
    }
}

/// First step of a request: refuses it where the gateway is disabled, else
/// names the script that the caller is to look for.
pub fn handle_php(config: &ServerConfig, request: &CgiRequest) -> (step: Result<
    String,
    ResponseDescriptor,
>)
    ensures
        match located(config@, request@) {
            Ok(filename) => step matches Ok(name) && name@ == filename,
            Err(response) => step matches Err(r) && r@ == response,
        },
{
    if !config.php_enabled {
        return Err(ResponseDescriptor::text(404, "PHP processing is disabled"));
    }
    Ok(script_filename(config, request.path.as_str()))
}

fn mode_of(probe: &ScriptProbe) -> (mode: ExecutionMode)
    ensures
        mode == execution_mode(*probe),
{
    match probe {
        ScriptProbe::Found { text: Some(text) } => {
            if check_php_tags(text.as_str()) {
                ExecutionMode::DirectExecute
            } else {
                ExecutionMode::Cgi
            }
        },
        _ => ExecutionMode::Cgi,
    }
}

/// Second step of a request: given what looking for the script gave,
/// answers `404` where there is none and `413` where the body is too large,
/// and else plans the run. An oversized body is refused before any process
/// is started.
pub fn prepare_execution(
    config: &ServerConfig,
    request: &CgiRequest,
    script_filename: &str,
    probe: &ScriptProbe,
) -> (step: Result<ProcessPlan, ResponseDescriptor>)
    ensures
        match prepared(config@, request@, script_filename@, *probe) {
            Ok(plan) => step matches Ok(p) && p@ == plan,
            Err(response) => step matches Err(r) && r@ == response,
        },
        step matches Ok(p) ==> p.stdin@.len() <= MAX_REQUEST_SIZE && p.timeout_seconds
            == config.php_timeout,
{
    if let ScriptProbe::Missing = probe {
        let message = concat_str("PHP script not found: ", script_filename);
        return Err(ResponseDescriptor::text(404, message.as_str()));
    }
    if request.body.len() > MAX_REQUEST_SIZE {
        return Err(body_too_large());
    }
    let mode = mode_of(probe);
    let mut arguments: Vec<String> = Vec::new();
    let program = match mode {
        ExecutionMode::DirectExecute => {
            arguments.push(script_filename.to_owned());
            config.php_exe_path.clone()
        },
        ExecutionMode::Cgi => config.php_cgi_path.clone(),
    };
    let plan = ProcessPlan {
        mode: mode,
        program: program,
        arguments: arguments,
        script: script_filename.to_owned(),
        environment: build_environment(config, request, script_filename),
        stdin: request.body.clone(),
        timeout_seconds: config.php_timeout,
    };
    proof {
        let expected = plan_spec(config@, request@, script_filename@, mode);
        assert(plan@.arguments =~= expected.arguments);
    }
    Ok(plan)
}

// ----------------------------------------------------------------------
// The outcome
// ----------------------------------------------------------------------

/// A step of talking to the interpreter at which input or output can fail.
#[derive(Debug, Clone, Copy, PartialEq, Eq)]
pub enum ProcessStage {
    WriteInput,
    Wait,
    ReadOutput,
}

/// How running the interpreter ended.
#[derive(Debug, Clone, PartialEq, Eq)]
pub enum ProcessOutcome {
    /// The process exited within the deadline. `exit_status` is its exit
    /// code, or `None` where a signal ended it.
    Completed { exit_status: Option<i32>, stdout: Vec<u8>, stderr: Vec<u8> },
    /// The deadline passed and the process was killed.
    TimedOut,
    /// The process could not be started.
    SpawnFailed { cause: String },
    /// Input or output failed while talking to the process.
    IoFailed { stage: ProcessStage, cause: String },
}

/// The kinds of failure of a run.
#[derive(Debug, Clone, Copy, PartialEq, Eq)]
pub enum ProcessErrorKind {
    /// The interpreter exceeded the deadline and was killed.
    ProcessTimeout,
    /// The interpreter could not be run, could not be talked to, or exited
    /// with a status other than zero.
    ProcessFailure,
}

/// A failed run: its kind and a message for the diagnostics.
#[derive(Debug, Clone, PartialEq, Eq)]
pub struct ProcessError {
    pub kind: ProcessErrorKind,
    pub message: String,
}

/// What a `ProcessError` holds, as mathematical values.
#[verifier::ext_equal]
pub struct ProcessErrorView {
    pub kind: ProcessErrorKind,
    pub message: Seq<char>,
}

impl View for ProcessError {
    type V = ProcessErrorView;

    open spec fn view(&self) -> ProcessErrorView {
        ProcessErrorView { kind: self.kind, message: self.message@ }
    }
}

/// The name of the interpreter in messages.
pub open spec fn interpreter_label(mode: ExecutionMode) -> Seq<char> {
    match mode {
        ExecutionMode::DirectExecute => "PHP"@,
        ExecutionMode::Cgi => "PHP-CGI"@,
    }
}

/// How an exit status is written in messages.
pub open spec fn exit_status_text(exit_status: Option<i32>) -> Seq<char> {
    match exit_status {
        Some(code) => "exit status: "@ + signed_decimal(code as int),
        None => "signal"@,
    }
}

/// A failure of the kind `ProcessFailure` with the message made of `lead`,
/// the interpreter's label, `middle` and `detail`.
pub open spec fn failure(
    mode: ExecutionMode,
    lead: Seq<char>,
    middle: Seq<char>,
    detail: Seq<char>,
) -> ProcessErrorView {
    ProcessErrorView {
        kind: ProcessErrorKind::ProcessFailure,
        message: lead + interpreter_label(mode) + middle + detail,
    }
}

/// What the outcome of a run means: the text that the interpreter wrote to
/// its standard output where it exited with status zero and that output is
/// valid UTF-8, and else the failure. A run that timed out is a
/// `ProcessTimeout`, whatever else is known of it; what the interpreter
/// wrote to its standard error never makes a failure.
pub open spec fn interpreted(mode: ExecutionMode, outcome: ProcessOutcome) -> Result<
    Seq<char>,
    ProcessErrorView,
> {
    match outcome {
        ProcessOutcome::TimedOut => Err(
            ProcessErrorView {
                kind: ProcessErrorKind::ProcessTimeout,
                message: "chyba: "@ + interpreter_label(mode) + " proces prekrocil timeout"@,
            },
        ),
        ProcessOutcome::SpawnFailed { cause } => Err(
            failure(mode, "chyba pri spousteni "@, ": "@, cause@),
        ),
        ProcessOutcome::IoFailed { stage, cause } => Err(
            match stage {
                ProcessStage::WriteInput => failure(
                    mode,
                    "chyba pri zapisovani do stdin "@,
                    ": "@,
                    cause@,
                ),
                ProcessStage::Wait => failure(mode, "chyba pri cekani na "@, ": "@, cause@),
                ProcessStage::ReadOutput => failure(
                    mode,
                    "chyba pri cteni "@,
                    " stdout: "@,
                    cause@,
                ),
            },
        ),
        ProcessOutcome::Completed { exit_status, stdout, stderr } => {
            if exit_status != Some(0i32) {
                Err(failure(mode, "chyba pri behu "@, ": "@, exit_status_text(exit_status)))
            } else if !valid_utf8(stdout@) {
                Err(
                    failure(
                        mode,
                        "chyba pri cteni "@,
                        " stdout: "@,
                        "stream did not contain valid UTF-8"@,
                    ),
                )
            } else {
                Ok(decode_utf8(stdout@))
            }
        },
    }
}

fn label(mode: ExecutionMode) -> (text: &'static str)
    ensures
        text@ == interpreter_label(mode),
{
    match mode {
        ExecutionMode::DirectExecute => "PHP",
        ExecutionMode::Cgi => "PHP-CGI",
    }
}

fn make_failure(mode: ExecutionMode, lead: &str, middle: &str, detail: &str) -> (error: ProcessError)
    ensures
        error@ == failure(mode, lead@, middle@, detail@),
{
    let mut message: Vec<char> = to_chars(lead);
    append_str(&mut message, label(mode));
    append_str(&mut message, middle);
    append_str(&mut message, detail);
    ProcessError { kind: ProcessErrorKind::ProcessFailure, message: from_chars(message.as_slice()) }
}

fn exit_status_message(exit_status: Option<i32>) -> (text: String)
    ensures
        text@ == exit_status_text(exit_status),
{
    match exit_status {
        Some(code) => {
            let mut text: Vec<char> = to_chars("exit status: ");
            push_signed_decimal(&mut text, code);
            from_chars(text.as_slice())
        },
        None => "signal".to_owned(),
    }
}

/// What an interpreted outcome holds, as mathematical values.
pub open spec fn interpreted_view(result: Result<String, ProcessError>) -> Result<
    Seq<char>,
    ProcessErrorView,
> {
    match result {
        Ok(text) => Ok(text@),
        Err(error) => Err(error@),
    }
}

/// Reads the outcome of a run: the output of the script, or the failure.
pub fn interpret_outcome(mode: ExecutionMode, outcome: ProcessOutcome) -> (result: Result<
    String,
    ProcessError,
>)
    ensures
        interpreted_view(result) == interpreted(mode, outcome),
        outcome is TimedOut ==> (result matches Err(error) && error.kind
            == ProcessErrorKind::ProcessTimeout),
{
    match outcome {
        ProcessOutcome::TimedOut => {
            let mut message: Vec<char> = to_chars("chyba: ");
            append_str(&mut message, label(mode));
            append_str(&mut message, " proces prekrocil timeout");
            Err(
                ProcessError {
                    kind: ProcessErrorKind::ProcessTimeout,
                    message: from_chars(message.as_slice()),
                },
            )
        },
        ProcessOutcome::SpawnFailed { cause } => Err(
            make_failure(mode, "chyba pri spousteni ", ": ", cause.as_str()),
        ),
        ProcessOutcome::IoFailed { stage, cause } => match stage {
            ProcessStage::WriteInput => Err(
                make_failure(mode, "chyba pri zapisovani do stdin ", ": ", cause.as_str()),
            ),
            ProcessStage::Wait => Err(
                make_failure(mode, "chyba pri cekani na ", ": ", cause.as_str()),
            ),
            ProcessStage::ReadOutput => Err(
                make_failure(mode, "chyba pri cteni ", " stdout: ", cause.as_str()),
            ),
        },
        ProcessOutcome::Completed { exit_status, stdout, stderr } => {
            let succeeded = match exit_status {
                Some(code) => code == 0,
                None => false,
            };
            if !succeeded {
                let status = exit_status_message(exit_status);
                return Err(make_failure(mode, "chyba pri behu ", ": ", status.as_str()));
            }
            match String::from_utf8(stdout) {
                Ok(text) => Ok(text),
                Err(_) => Err(
                    make_failure(
                        mode,
                        "chyba pri cteni ",
                        " stdout: ",
                        "stream did not contain valid UTF-8",
                    ),
                ),
            }
        },
    }
}

// ----------------------------------------------------------------------
// Reading the output of a CGI program
// ----------------------------------------------------------------------

/// What the header block of a CGI program's output says.
#[verifier::ext_equal]
pub struct CgiHead {
    pub status: u16,
    pub content_type: Seq<char>,
    pub headers: Seq<(Seq<char>, Seq<char>)>,
}

/// What is assumed until a header line says otherwise.
pub open spec fn default_head() -> CgiHead {
    CgiHead { status: 200, content_type: "text/html"@, headers: Seq::empty() }
}

/// `head` after one more line of the header block. An empty line and a line
/// without colon change nothing. A line that begins with `Status:` sets the
/// status where its second word is a number that fits sixteen bits, and
/// changes nothing otherwise. Any other line is a name and a value around
/// its first colon, both without surrounding white space: it sets the
/// content type where the name is `Content-Type` in any case, and is kept
/// as a header otherwise.
pub open spec fn after_line(head: CgiHead, line: Seq<char>) -> CgiHead {
    if line.len() == 0 {
        head
    } else if "Status:"@.is_prefix_of(line) {
        match second_word(line) {
            Some(word) => match parse_unsigned(word, u16::MAX as nat) {
                Some(code) => CgiHead { status: code as u16, ..head },
                None => head,
            },
            None => head,
        }
    } else {
        match find(line, seq![':']) {
            Some(colon) => {
                let name = trim(line.take(colon));
                let value = trim(line.skip(colon + 1));
                if ascii_lower(name) == ascii_lower("Content-Type"@) {
                    CgiHead { content_type: value, ..head }
                } else {
                    CgiHead { headers: head.headers.push((name, value)), ..head }
                }
            },
            None => head,
        }
    }
}

/// `head` after all of `header_lines`, read in order.
pub open spec fn after_lines(head: CgiHead, header_lines: Seq<Seq<char>>) -> CgiHead
    decreases header_lines.len(),
{
    if header_lines.len() == 0 {
        head
    } else {
        after_line(after_lines(head, header_lines.drop_last()), header_lines.last())
    }
}

/// The status that is sent for the status that a script asked for: that
/// status where it is a valid HTTP status, and `500` otherwise.
pub open spec fn effective_status(status: u16) -> u16 {
    if 100 <= status < 1000 {
        status
    } else {
        500
    }
}

/// The response that the output of a CGI program describes. Where the
/// output holds no blank line, all of it is the body of an HTML page. Else
/// what precedes the first blank line is the header block, read line by
/// line, and what follows it is the body.
pub open spec fn cgi_response(output: Seq<char>) -> ResponseView {
    match find(output, "\r\n\r\n"@) {
        None => typed_text_response(200, "text/html"@, output),
        Some(boundary) => {
            let head = after_lines(default_head(), lines(output.take(boundary)));
            ResponseView {
                status: effective_status(head.status),
                content_type: Some(head.content_type),
                headers: head.headers,
                body: encode_utf8(output.skip(boundary + 4)),
            }
        },
    }
}

/// The head being read, in executable form.
struct HeadState {
    status: u16,
    content_type: String,
    headers: Vec<(String, String)>,
}

impl View for HeadState {
    type V = CgiHead;

    closed spec fn view(&self) -> CgiHead {
        CgiHead {
            status: self.status,
            content_type: self.content_type@,
            headers: header_views(self.headers@),
        }
    }
}

fn read_line(head: &mut HeadState, line: &[char])
    ensures
        final(head)@ == after_line(old(head)@, line@),
{
    if line.len() == 0 {
        return ;
    }
    if starts_with_str(line, "Status:") {
        match second_word_of(line) {
            Some(word) => match parse_number(word.as_slice(), u16::MAX as u64) {
                Some(code) => {
                    head.status = code as u16;
                },
                None => {},
            },
            None => {},
        }
        return ;
    }
    let colon_text: Vec<char> = vec![':'];
    assert(colon_text@ == seq![':']);
    match find_first(line, colon_text.as_slice()) {
        Some(colon) => {
            proof {
                crate::text::lemma_find_from(line@, seq![':'], 0);
            }
            let before = subrange(line, 0, colon);
            let after = subrange(line, colon + 1, line.len());
            assert(before@ == line@.take(colon as int));
            assert(after@ == line@.skip(colon + 1));
            let name = trimmed(before.as_slice());
            let value = trimmed(after.as_slice());
            let wanted = to_chars("Content-Type");
            if eq_ignore_ascii_case(name.as_slice(), wanted.as_slice()) {
                head.content_type = from_chars(value.as_slice());
            } else {
                let ghost old_headers = header_views(head.headers@);
                head.headers.push((from_chars(name.as_slice()), from_chars(value.as_slice())));
                assert(header_views(head.headers@) == old_headers.push((name@, value@)));
            }
        },
        None => {},
    }
}

/// Reads the output of a CGI program as a response. Whatever the program
/// wrote, the status of the response is a valid HTTP status.
pub fn parse_php_response(response: &str) -> (parsed: ResponseDescriptor)
    ensures
        parsed@ == cgi_response(response@),
        100 <= parsed.status < 1000,
{
    let chars = to_chars(response);
    let blank = to_chars("\r\n\r\n");
    match find_first(chars.as_slice(), blank.as_slice()) {
        None => ResponseDescriptor::typed_text(200, "text/html", response),
        Some(boundary) => {
            proof {
                crate::text::lemma_find_from(chars@, blank@, 0);
                reveal_strlit("\r\n\r\n");
                assert(blank@.len() == 4);
            }
            assert(boundary + 4 <= chars.len());
            let block = subrange(chars.as_slice(), 0, boundary);
            assert(block@ == response@.take(boundary as int));
            let body = subrange(chars.as_slice(), boundary + 4, chars.len());
            assert(body@ == response@.skip(boundary + 4));
            let header_lines = lines_of(block.as_slice());
            let mut head = HeadState {
                status: 200,
                content_type: "text/html".to_owned(),
                headers: Vec::new(),
            };
            assert(head@ == default_head());
            let mut i: usize = 0;
            while i < header_lines.len()
                invariant
                    i <= header_lines.len(),
                    head@ == after_lines(default_head(), views(header_lines@).take(i as int)),
                decreases header_lines.len() - i,
            {
                proof {
                    assert(views(header_lines@).take(i + 1).drop_last() == views(
                        header_lines@,
                    ).take(i as int));
                }
                read_line(&mut head, header_lines[i].as_slice());
                i += 1;
            }
            assert(views(header_lines@).take(header_lines.len() as int) == views(header_lines@));
            let body_text = from_chars(body.as_slice());
            let status = if 100 <= head.status && head.status < 1000 {
                head.status
            } else {
                500
            };
            ResponseDescriptor {
                status: status,
                content_type: Some(head.content_type),
                headers: head.headers,
                body: body_text.as_str().as_bytes_vec(),
            }
        },
    }
}

/// The response to a request whose run gave `result`: in CGI mode the
/// response that the output describes, in direct mode the output as an HTML
/// page, and `500` with the failure's message where the run failed.
pub open spec fn gateway_response(
    mode: ExecutionMode,
    result: Result<Seq<char>, ProcessErrorView>,
) -> ResponseView {
    match result {
        Ok(output) => match mode {
            ExecutionMode::DirectExecute => typed_text_response(200, "text/html"@, output),
            ExecutionMode::Cgi => cgi_response(output),
        },
        Err(error) => text_response(500, "php error: "@ + error.message),
    }
}

/// Last step of a request: the response for the outcome of the run.
pub fn finish_execution(
    mode: ExecutionMode,
    outcome: ProcessOutcome,
) -> (response: ResponseDescriptor)
    ensures
        response@ == gateway_response(mode, interpreted(mode, outcome)),
        outcome is TimedOut ==> response.status == 500,
{
    match interpret_outcome(mode, outcome) {
        Ok(output) => match mode {
            ExecutionMode::DirectExecute => ResponseDescriptor::typed_text(
                200,
                "text/html",
                output.as_str(),
            ),
            ExecutionMode::Cgi => parse_php_response(output.as_str()),
        },
        Err(error) => {
            let message = concat_str("php error: ", error.message.as_str());
            ResponseDescriptor::text(500, message.as_str())
        },
    }
}

} // verus!
