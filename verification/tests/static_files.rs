use qlira_web_server::config::ServerConfig;
use qlira_web_server::handlers::static_files::{
    assemble_response, cache_control, check_file_size, check_not_modified, choose_encoding,
    compute_validators, development_response, full_response, generate_etag, get_content_type,
    get_last_modified, invalid_path, is_compressible, metadata_failed, not_found, read_failed,
    select_encoding, serve_static_file, Encoding, StaticFile, StaticRequest, Validators,
};
use std::io::Read;

fn sample_text() -> Vec<u8> {
    let mut content = Vec::new();
    while content.len() < 2048 {
        content.extend_from_slice(b"The quick brown fox jumps over the lazy dog. ");
    }
    content.truncate(2048);
    content
}

fn plain_request() -> StaticRequest {
    StaticRequest { if_none_match: None, if_modified_since: None, accept_encoding: None }
}

fn accepting(offer: &str) -> StaticRequest {
    StaticRequest {
        if_none_match: None,
        if_modified_since: None,
        accept_encoding: Some(offer.to_string()),
    }
}

fn from_brotli(bytes: &[u8]) -> Vec<u8> {
    let mut out = Vec::new();
    brotli::Decompressor::new(bytes, 4096).read_to_end(&mut out).unwrap();
    out
}

fn from_gzip(bytes: &[u8]) -> Vec<u8> {
    let mut out = Vec::new();
    flate2::read::GzDecoder::new(bytes).read_to_end(&mut out).unwrap();
    out
}

fn from_deflate(bytes: &[u8]) -> Vec<u8> {
    let mut out = Vec::new();
    flate2::read::DeflateDecoder::new(bytes).read_to_end(&mut out).unwrap();
    out
}

#[test]
fn content_type_follows_the_extension() {
    assert_eq!(get_content_type("index.html"), "text/html");
    assert_eq!(get_content_type("css/site.css"), "text/css");
    assert_eq!(get_content_type("app.js"), "text/javascript");
    assert_eq!(get_content_type("data.json"), "application/json");
    assert_eq!(get_content_type("logo.PNG"), "image/png");
    assert_eq!(get_content_type("logo.svg"), "image/svg+xml");
    assert_eq!(get_content_type("notes.txt"), "text/plain");
    assert_eq!(get_content_type("archive.unknown-kind"), "application/octet-stream");
    assert_eq!(get_content_type("README"), "application/octet-stream");
    assert_eq!(get_content_type(".html"), "application/octet-stream");
    assert_eq!(get_content_type("dir.html/file"), "application/octet-stream");
    assert_eq!(get_content_type(""), "application/octet-stream");
}

#[test]
fn etag_is_the_quoted_digest_of_the_content() {
    assert_eq!(
        generate_etag(b""),
        Some("\"e3b0c44298fc1c149afbf4c8996fb92427ae41e4649b934ca495991b7852b855\"".to_string())
    );
    assert_eq!(
        generate_etag(b"hello"),
        Some("\"2cf24dba5fb0a30e26e83b2ac5b9e29e1b161e5c1fa7425e73043362938b9824\"".to_string())
    );
    assert_eq!(
        generate_etag(&sample_text()),
        Some("\"d92d0f847022d0cdf65c056fa52796060333b4f282aed96a79cc718c6fb4f0a8\"".to_string())
    );
}

#[test]
fn etag_is_stable_and_changes_with_one_byte() {
    let content = sample_text();
    let first = generate_etag(&content).unwrap();
    let second = generate_etag(&content.clone()).unwrap();
    assert_eq!(first, second);
    assert_eq!(first.len(), 66);
    let mut changed = content.clone();
    changed[1000] ^= 1;
    assert_ne!(generate_etag(&changed).unwrap(), first);
    assert_eq!(
        generate_etag(b"hellp"),
        Some("\"fdd7585e08c4e2afd71dcabdb4636c89d557a3f42db9e2040c8bbd1708aa4ce7\"".to_string())
    );
    let mut longer = content.clone();
    longer.push(b' ');
    assert_ne!(generate_etag(&longer).unwrap(), first);
}

#[test]
fn last_modified_is_an_http_date() {
    assert_eq!(get_last_modified(0), Some("Thu, 01 Jan 1970 00:00:00 GMT".to_string()));
    assert_eq!(get_last_modified(784111777), Some("Sun, 06 Nov 1994 08:49:37 GMT".to_string()));
    assert_eq!(get_last_modified(951782400), Some("Tue, 29 Feb 2000 00:00:00 GMT".to_string()));
    assert_eq!(get_last_modified(1700000000), Some("Tue, 14 Nov 2023 22:13:20 GMT".to_string()));
    assert_eq!(get_last_modified(253402300799), Some("Fri, 31 Dec 9999 23:59:59 GMT".to_string()));
}

#[test]
fn last_modified_is_absent_beyond_the_calendar() {
    assert_eq!(get_last_modified(u64::MAX), None);
    assert_eq!(get_last_modified(i64::MAX as u64), None);
    assert_eq!(get_last_modified(i64::MAX as u64 + 1), None);
}

#[test]
fn validators_hold_tag_and_date() {
    let validators = compute_validators(b"hello", Some(0));
    assert_eq!(
        validators,
        Validators {
            etag: Some(
                "\"2cf24dba5fb0a30e26e83b2ac5b9e29e1b161e5c1fa7425e73043362938b9824\"".to_string()
            ),
            last_modified: Some("Thu, 01 Jan 1970 00:00:00 GMT".to_string()),
        }
    );
    let undated = compute_validators(b"hello", None);
    assert_eq!(undated.last_modified, None);
    assert_eq!(undated.etag, validators.etag);
}

#[test]
fn compressible_types_are_the_textual_ones() {
    assert!(is_compressible("text/html"));
    assert!(is_compressible("text/plain; charset=utf-8"));
    assert!(is_compressible("application/javascript"));
    assert!(is_compressible("application/json"));
    assert!(is_compressible("application/xml"));
    assert!(is_compressible("application/xhtml+xml"));
    assert!(is_compressible("image/svg+xml"));
    assert!(is_compressible("application/wasm"));
    assert!(!is_compressible("image/png"));
    assert!(!is_compressible("application/octet-stream"));
    assert!(!is_compressible("Text/html"));
    assert!(!is_compressible("text"));
    assert!(!is_compressible(""));
}

#[test]
fn encoding_priority_is_brotli_then_gzip_then_deflate() {
    assert_eq!(select_encoding("gzip, br, deflate"), Some(Encoding::Brotli));
    assert_eq!(select_encoding("deflate, gzip"), Some(Encoding::Gzip));
    assert_eq!(select_encoding("deflate"), Some(Encoding::Deflate));
    assert_eq!(select_encoding("GZIP"), Some(Encoding::Gzip));
    assert_eq!(select_encoding("Br"), Some(Encoding::Brotli));
    assert_eq!(select_encoding("x-gzip;q=0.5"), Some(Encoding::Gzip));
    assert_eq!(select_encoding("identity"), None);
    assert_eq!(select_encoding(""), None);
    assert_eq!(select_encoding("zstd, b r"), None);
    assert_eq!(Encoding::Brotli.name(), "br");
    assert_eq!(Encoding::Gzip.name(), "gzip");
    assert_eq!(Encoding::Deflate.name(), "deflate");
}

#[test]
fn encoding_is_chosen_only_for_large_compressible_content() {
    let mut config = ServerConfig::default();
    let offer = Some("gzip, br".to_string());
    assert_eq!(choose_encoding(&config, "text/plain", 2048, &offer), Some(Encoding::Brotli));
    assert_eq!(choose_encoding(&config, "text/plain", 1025, &offer), Some(Encoding::Brotli));
    assert_eq!(choose_encoding(&config, "text/plain", 1024, &offer), None);
    assert_eq!(choose_encoding(&config, "image/png", 2048, &offer), None);
    assert_eq!(choose_encoding(&config, "text/plain", 2048, &None), None);
    assert_eq!(choose_encoding(&config, "text/plain", 2048, &Some("identity".to_string())), None);
    config.enable_compression = false;
    assert_eq!(choose_encoding(&config, "text/plain", 2048, &offer), None);
}

#[test]
fn cache_control_spells_the_lifetime() {
    assert_eq!(cache_control(3600), "public, max-age=3600");
    assert_eq!(cache_control(1), "public, max-age=1");
    assert_eq!(cache_control(u32::MAX), "public, max-age=4294967295");
    assert_eq!(cache_control(0), "no-store, max-age=0");
}

#[test]
fn missing_file_is_not_found() {
    let config = ServerConfig::default();
    let response = serve_static_file(&config, "../missing.txt", None, &plain_request());
    assert_eq!(response.status, 404);
    assert_eq!(response.body, b"soubor nenalezen: missing.txt".to_vec());
    assert_eq!(response.content_type, None);
    assert!(response.headers.is_empty());
    assert_eq!(response, not_found("missing.txt"));
}

#[test]
fn oversized_file_is_refused() {
    let mut config = ServerConfig::default();
    config.max_file_size = 10;
    let file = StaticFile { modified: Some(0), content: b"12345678901".to_vec() };
    let response = serve_static_file(&config, "big.txt", Some(file), &plain_request());
    assert_eq!(response.status, 413);
    assert_eq!(response.body, b"soubor je prilis velky".to_vec());
    let fits = StaticFile { modified: Some(0), content: b"1234567890".to_vec() };
    assert_eq!(serve_static_file(&config, "big.txt", Some(fits), &plain_request()).status, 200);
    assert!(check_file_size(&config, 10).is_none());
    assert_eq!(check_file_size(&config, 11).unwrap().status, 413);
    assert_eq!(check_file_size(&config, u64::MAX).unwrap().status, 413);
}

#[test]
fn failures_to_read_have_their_answers() {
    assert_eq!(invalid_path().status, 400);
    assert_eq!(invalid_path().body, b"neplatna cesta".to_vec());
    assert_eq!(metadata_failed().status, 500);
    assert_eq!(metadata_failed().body, b"chyba pri ziskavani metadat souboru".to_vec());
    assert_eq!(read_failed().status, 500);
    assert_eq!(read_failed().body, b"chyba pri cteni souboru".to_vec());
}

#[test]
fn development_mode_serves_raw_bytes_without_validators() {
    let mut config = ServerConfig::default();
    config.development_mode = true;
    let content = sample_text();
    let file = StaticFile { modified: Some(0), content: content.clone() };
    let mut request = accepting("gzip, br, deflate");
    request.if_none_match = generate_etag(&content);
    request.if_modified_since = get_last_modified(0);
    let response = serve_static_file(&config, "notes.txt", Some(file), &request);
    assert_eq!(response.status, 200);
    assert_eq!(response.content_type, Some("text/plain".to_string()));
    assert_eq!(
        response.headers,
        vec![("Cache-Control".to_string(), "no-store, max-age=0".to_string())]
    );
    assert_eq!(response.body, content);
    assert_eq!(response, development_response("notes.txt", content));
}

#[test]
fn full_response_carries_cache_policy_and_validators() {
    let config = ServerConfig::default();
    let content = b"body { color: red; }".to_vec();
    let file = StaticFile { modified: Some(784111777), content: content.clone() };
    let response =
        serve_static_file(&config, "/css/../css/site.css", Some(file), &accepting("gzip"));
    assert_eq!(response.status, 200);
    assert_eq!(response.content_type, Some("text/css".to_string()));
    assert_eq!(
        response.headers,
        vec![
            ("Cache-Control".to_string(), "public, max-age=604800".to_string()),
            (
                "ETag".to_string(),
                "\"5de625c36355cce7c1d5408826a0b21abfb49fb6c0e1f16c945a6f2aef38200c\"".to_string()
            ),
            ("Last-Modified".to_string(), "Sun, 06 Nov 1994 08:49:37 GMT".to_string()),
        ]
    );
    assert_eq!(response.body, content);
}

#[test]
fn full_response_without_caching_is_never_stored() {
    let mut config = ServerConfig::default();
    config.cache_enabled = false;
    let file = StaticFile { modified: None, content: b"x".to_vec() };
    let response = serve_static_file(&config, "a.html", Some(file), &plain_request());
    assert_eq!(response.status, 200);
    assert_eq!(response.header("Cache-Control"), Some(&"no-store, max-age=0".to_string()));
    assert!(response.header("ETag").is_some());
    assert_eq!(response.header("Last-Modified"), None);
    assert_eq!(response.headers.len(), 2);
}

#[test]
fn conditional_request_with_the_etag_is_not_modified() {
    let config = ServerConfig::default();
    let content = sample_text();
    let file = StaticFile { modified: Some(1700000000), content: content.clone() };
    let first = serve_static_file(&config, "notes.txt", Some(file.clone()), &accepting("br"));
    assert_eq!(first.status, 200);
    let tag = first.header("ETag").unwrap().clone();
    let again = StaticRequest {
        if_none_match: Some(tag.clone()),
        if_modified_since: None,
        accept_encoding: Some("br".to_string()),
    };
    let second = serve_static_file(&config, "notes.txt", Some(file.clone()), &again);
    assert_eq!(second.status, 304);
    assert!(second.body.is_empty());
    assert_eq!(second.headers, vec![("ETag".to_string(), tag.clone())]);
    assert_eq!(second.content_type, None);
    let third = serve_static_file(&config, "notes.txt", Some(file), &again);
    assert_eq!(third, second);
}

#[test]
fn conditional_request_with_another_etag_gets_the_file() {
    let config = ServerConfig::default();
    let file = StaticFile { modified: Some(0), content: b"hello".to_vec() };
    let stale = StaticRequest {
        if_none_match: Some(
            "\"fdd7585e08c4e2afd71dcabdb4636c89d557a3f42db9e2040c8bbd1708aa4ce7\"".to_string(),
        ),
        if_modified_since: None,
        accept_encoding: None,
    };
    let response = serve_static_file(&config, "a.txt", Some(file.clone()), &stale);
    assert_eq!(response.status, 200);
    assert_eq!(response.body, b"hello".to_vec());
    let unquoted = StaticRequest {
        if_none_match: Some(
            "2cf24dba5fb0a30e26e83b2ac5b9e29e1b161e5c1fa7425e73043362938b9824".to_string(),
        ),
        if_modified_since: None,
        accept_encoding: None,
    };
    assert_eq!(serve_static_file(&config, "a.txt", Some(file), &unquoted).status, 200);
}

#[test]
fn conditional_request_with_the_date_is_not_modified() {
    let config = ServerConfig::default();
    let file = StaticFile { modified: Some(784111777), content: b"hello".to_vec() };
    let request = StaticRequest {
        if_none_match: None,
        if_modified_since: Some("Sun, 06 Nov 1994 08:49:37 GMT".to_string()),
        accept_encoding: None,
    };
    let response = serve_static_file(&config, "a.txt", Some(file.clone()), &request);
    assert_eq!(response.status, 304);
    assert!(response.body.is_empty());
    assert_eq!(
        response.headers,
        vec![("Last-Modified".to_string(), "Sun, 06 Nov 1994 08:49:37 GMT".to_string())]
    );
    let later = StaticRequest {
        if_none_match: None,
        if_modified_since: Some("Mon, 07 Nov 1994 08:49:37 GMT".to_string()),
        accept_encoding: None,
    };
    assert_eq!(serve_static_file(&config, "a.txt", Some(file), &later).status, 200);
}

#[test]
fn validators_that_are_absent_never_match() {
    let validators = Validators { etag: None, last_modified: None };
    let request = StaticRequest {
        if_none_match: Some(String::new()),
        if_modified_since: Some(String::new()),
        accept_encoding: None,
    };
    assert_eq!(check_not_modified(&validators, &request), None);
    let tagged = Validators { etag: Some("\"t\"".to_string()), last_modified: None };
    assert_eq!(check_not_modified(&tagged, &plain_request()), None);
    let both = Validators {
        etag: Some("\"t\"".to_string()),
        last_modified: Some("date".to_string()),
    };
    let matching_both = StaticRequest {
        if_none_match: Some("\"t\"".to_string()),
        if_modified_since: Some("date".to_string()),
        accept_encoding: None,
    };
    let response = check_not_modified(&both, &matching_both).unwrap();
    assert_eq!(response.headers, vec![("ETag".to_string(), "\"t\"".to_string())]);
}

#[test]
fn brotli_is_used_when_the_client_offers_it_with_gzip() {
    let config = ServerConfig::default();
    let content = sample_text();
    let file = StaticFile { modified: Some(0), content: content.clone() };
    let response =
        serve_static_file(&config, "notes.txt", Some(file), &accepting("gzip, br, deflate"));
    assert_eq!(response.status, 200);
    assert_eq!(response.content_type, Some("text/plain".to_string()));
    assert_eq!(response.header("Content-Encoding"), Some(&"br".to_string()));
    assert_ne!(response.header("Content-Encoding"), Some(&"gzip".to_string()));
    assert_eq!(response.header("Cache-Control"), Some(&"public, max-age=86400".to_string()));
    assert_ne!(response.body, content);
    assert!(response.body.len() < content.len());
    assert_eq!(from_brotli(&response.body), content);
}

#[test]
fn gzip_and_deflate_bodies_decode_to_the_content() {
    let config = ServerConfig::default();
    let content = sample_text();
    let file = StaticFile { modified: Some(0), content: content.clone() };
    let zipped = serve_static_file(&config, "notes.txt", Some(file.clone()), &accepting("gzip"));
    assert_eq!(zipped.header("Content-Encoding"), Some(&"gzip".to_string()));
    assert_ne!(zipped.body, content);
    assert_eq!(from_gzip(&zipped.body), content);
    let deflated = serve_static_file(&config, "notes.txt", Some(file), &accepting("deflate"));
    assert_eq!(deflated.header("Content-Encoding"), Some(&"deflate".to_string()));
    assert_ne!(deflated.body, content);
    assert_eq!(from_deflate(&deflated.body), content);
}

#[test]
fn gzip_and_deflate_streams_depend_on_the_content_alone() {
    let config = ServerConfig::default();
    let content = sample_text();
    let file = StaticFile { modified: Some(0), content: content.clone() };
    let first = serve_static_file(&config, "notes.txt", Some(file.clone()), &accepting("gzip"));
    let second = serve_static_file(&config, "notes.txt", Some(file.clone()), &accepting("gzip"));
    assert_eq!(first.body, second.body);
    assert_eq!(first.body[..10].to_vec(), vec![0x1f, 0x8b, 8, 0, 0, 0, 0, 0, 0, 255]);
    let validators = compute_validators(&content, Some(0));
    let direct = full_response(&config, "notes.txt", content.clone(), validators, &accepting("gzip"));
    assert_eq!(direct.body, first.body);
    let deflated = serve_static_file(&config, "notes.txt", Some(file.clone()), &accepting("deflate"));
    let again = serve_static_file(&config, "notes.txt", Some(file), &accepting("deflate"));
    assert_eq!(deflated.body, again.body);
    assert_ne!(deflated.body, first.body);
    let mut changed = content.clone();
    changed[7] = b'X';
    let other = StaticFile { modified: Some(0), content: changed.clone() };
    let third = serve_static_file(&config, "notes.txt", Some(other), &accepting("gzip"));
    assert_ne!(third.body, first.body);
    assert_eq!(from_gzip(&third.body), changed);
}

#[test]
fn content_is_sent_as_it_is_when_compression_is_not_called_for() {
    let config = ServerConfig::default();
    let content = sample_text();
    let image = StaticFile { modified: Some(0), content: content.clone() };
    let response = serve_static_file(&config, "photo.png", Some(image), &accepting("gzip, br"));
    assert_eq!(response.header("Content-Encoding"), None);
    assert_eq!(response.body, content);
    let small = StaticFile { modified: Some(0), content: content[..1024].to_vec() };
    let response = serve_static_file(&config, "notes.txt", Some(small), &accepting("gzip, br"));
    assert_eq!(response.header("Content-Encoding"), None);
    assert_eq!(response.body, content[..1024].to_vec());
    let unasked = StaticFile { modified: Some(0), content: content.clone() };
    let response = serve_static_file(&config, "notes.txt", Some(unasked), &plain_request());
    assert_eq!(response.header("Content-Encoding"), None);
    assert_eq!(response.body, content);
}

#[test]
fn failed_compression_falls_back_to_the_content() {
    let config = ServerConfig::default();
    let content = sample_text();
    let validators = compute_validators(&content, None);
    let request = accepting("gzip");
    let plain = assemble_response(
        &config,
        "notes.txt",
        content.clone(),
        validators.clone(),
        &request,
        None,
    );
    assert_eq!(plain.status, 200);
    assert_eq!(plain.header("Content-Encoding"), None);
    assert_eq!(plain.body, content);
    let packed = assemble_response(
        &config,
        "notes.txt",
        content.clone(),
        validators.clone(),
        &request,
        Some(vec![1, 2, 3]),
    );
    assert_eq!(packed.header("Content-Encoding"), Some(&"gzip".to_string()));
    assert_eq!(packed.body, vec![1, 2, 3]);
    let unwanted = assemble_response(
        &config,
        "notes.txt",
        content.clone(),
        validators,
        &plain_request(),
        Some(vec![1, 2, 3]),
    );
    assert_eq!(unwanted.header("Content-Encoding"), None);
    assert_eq!(unwanted.body, content);
}

#[test]
fn full_response_matches_the_pipeline() {
    let config = ServerConfig::default();
    let content = sample_text();
    let validators = compute_validators(&content, Some(5));
    let direct =
        full_response(&config, "a/notes.txt", content.clone(), validators, &accepting("deflate"));
    let file = StaticFile { modified: Some(5), content: content };
    let piped = serve_static_file(&config, "a/notes.txt", Some(file), &accepting("deflate"));
    assert_eq!(direct, piped);
}
