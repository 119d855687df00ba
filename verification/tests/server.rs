use qlira_web_server::config::ServerConfig;
use qlira_web_server::handlers::php_handler::{ExecutionMode, ProcessOutcome};
use qlira_web_server::middleware::error_handler::{custom_error_response, error_handler};
use qlira_web_server::server::http::{
    error_page_path, execute_php_file, handle_404, index, index_candidates, index_runs_script,
    IndexFile, NOT_FOUND_PAGE,
};

fn ran(exit_status: Option<i32>, stdout: &[u8]) -> ProcessOutcome {
    ProcessOutcome::Completed {
        exit_status: exit_status,
        stdout: stdout.to_vec(),
        stderr: Vec::new(),
    }
}

#[test]
fn error_pages_are_looked_up_below_the_static_root() {
    let mut config = ServerConfig::default();
    assert_eq!(error_page_path(&config, 404), None);
    config.custom_error_pages = true;
    assert_eq!(error_page_path(&config, 404), Some("static/errors/404.html".to_string()));
    assert_eq!(error_page_path(&config, 500), Some("static/errors/500.html".to_string()));
    assert_eq!(error_page_path(&config, 419), None);
    assert_eq!(error_page_path(&config, 200), None);
    config.error_pages.insert("404".to_string(), "gone.html".to_string());
    config.static_root = "public/".to_string();
    assert_eq!(error_page_path(&config, 404), Some("public/gone.html".to_string()));
}

#[test]
fn built_in_page_is_sent_where_none_is_configured() {
    let response = handle_404(None);
    assert_eq!(response.status, 404);
    assert_eq!(response.content_type, Some("text/html".to_string()));
    assert_eq!(response.body, NOT_FOUND_PAGE.as_bytes().to_vec());
    assert!(NOT_FOUND_PAGE.contains("<center><h1>404 Not Found</h1></center>"));
    assert!(NOT_FOUND_PAGE.contains("<center>Qlira/0.1.1</center>"));
    assert!(NOT_FOUND_PAGE.starts_with("\n                <!DOCTYPE html>\n"));
    assert!(NOT_FOUND_PAGE.ends_with("</html>\n            "));
    let custom = handle_404(Some("<p>nothing here</p>".to_string()));
    assert_eq!(custom.status, 404);
    assert_eq!(custom.body, b"<p>nothing here</p>".to_vec());
}

#[test]
fn index_files_are_looked_for_in_the_server_directory() {
    let config = ServerConfig::default();
    assert_eq!(
        index_candidates(&config),
        ("server/index.php".to_string(), "server/index.html".to_string())
    );
}

#[test]
fn index_script_runs_only_with_open_tag_and_enabled_gateway() {
    let mut config = ServerConfig::default();
    assert!(index_runs_script(&config, " <?php echo 1;"));
    assert!(!index_runs_script(&config, "<h1>plain</h1>"));
    config.php_enabled = false;
    assert!(!index_runs_script(&config, "<?php echo 1;"));
}

#[test]
fn index_script_plan_runs_the_interpreter_on_the_file() {
    let mut config = ServerConfig::default();
    config.php_timeout = 3;
    let plan = execute_php_file(&config, "server/index.php");
    assert_eq!(plan.mode, ExecutionMode::DirectExecute);
    assert_eq!(plan.program, "php/php.exe");
    assert_eq!(plan.arguments, vec!["server/index.php".to_string()]);
    assert_eq!(plan.script, "server/index.php");
    assert_eq!(plan.environment.len(), 0);
    assert!(plan.stdin.is_empty());
    assert_eq!(plan.timeout_seconds, 3);
}

#[test]
fn index_answers_with_output_source_or_page() {
    let script = IndexFile::Php { source: "<?php echo 'hi';".to_string() };
    let run = index(script.clone(), Some(ran(Some(0), b"hi")), None);
    assert_eq!(run.status, 200);
    assert_eq!(run.content_type, Some("text/html".to_string()));
    assert_eq!(run.body, b"hi".to_vec());
    let failed = index(script.clone(), Some(ran(Some(1), b"oops")), None);
    assert_eq!(failed.status, 200);
    assert_eq!(failed.body, b"<?php echo 'hi';".to_vec());
    let timed_out = index(script.clone(), Some(ProcessOutcome::TimedOut), None);
    assert_eq!(timed_out.body, b"<?php echo 'hi';".to_vec());
    let not_run = index(script, None, None);
    assert_eq!(not_run.body, b"<?php echo 'hi';".to_vec());
    let page = index(IndexFile::Html { source: "<h1>home</h1>".to_string() }, None, None);
    assert_eq!(page.status, 200);
    assert_eq!(page.content_type, Some("text/html".to_string()));
    assert_eq!(page.body, b"<h1>home</h1>".to_vec());
    let nothing = index(IndexFile::Absent, None, Some("<p>custom</p>".to_string()));
    assert_eq!(nothing.status, 404);
    assert_eq!(nothing.body, b"<p>custom</p>".to_vec());
    assert_eq!(index(IndexFile::Absent, None, None), handle_404(None));
}

#[test]
fn failed_requests_get_the_configured_page() {
    let mut config = ServerConfig::default();
    assert_eq!(error_handler(&config, true), None);
    config.custom_error_pages = true;
    assert_eq!(error_handler(&config, true), Some("static/errors/500.html".to_string()));
    assert_eq!(error_handler(&config, false), None);
    let response = custom_error_response("<h1>sorry</h1>");
    assert_eq!(response.status, 500);
    assert_eq!(response.content_type, Some("text/html".to_string()));
    assert_eq!(response.body, b"<h1>sorry</h1>".to_vec());
}
