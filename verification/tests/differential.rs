use qlira_web_server::handlers::php_handler::parse_php_response;
use qlira_web_server::path::{extension_of, join_path, normalize_path};
use qlira_web_server::text::{
    lines_of, parse_number, second_word_of, split_on, trimmed, without_prefixes,
};
use rand::rngs::StdRng;
use rand::{Rng, SeedableRng};
use std::path::{Component, Path, PathBuf};

fn random_text(rng: &mut StdRng, alphabet: &[char], max_len: usize) -> String {
    let len = rng.gen_range(0..=max_len);
    (0..len).map(|_| alphabet[rng.gen_range(0..alphabet.len())]).collect()
}

fn as_chars(s: &str) -> Vec<char> {
    s.chars().collect()
}

fn as_text(v: &[char]) -> String {
    v.iter().collect()
}

#[test]
fn random_paths_normalize_as_the_standard_library_does() {
    let mut rng = StdRng::seed_from_u64(1);
    let alphabet = ['a', 'b', '.', '.', '/', '/', '\\', ' ', 'é'];
    for _ in 0..20000 {
        let requested = random_text(&mut rng, &alphabet, 12);
        let unified = requested.replace('\\', "/");
        let mut expected = PathBuf::new();
        for component in Path::new(&unified).components() {
            if let Component::Normal(part) = component {
                expected.push(part);
            }
        }
        let ours = normalize_path(&requested).unwrap();
        assert_eq!(ours, expected.to_str().unwrap(), "{:?}", requested);
        assert_eq!(normalize_path(&ours).unwrap(), ours, "{:?}", requested);
        let joined = PathBuf::from("root").join(&ours);
        assert_eq!(join_path("root", &ours), joined.to_str().unwrap(), "{:?}", requested);
        let theirs = Path::new(&ours).extension().and_then(|e| e.to_str()).unwrap_or("");
        assert_eq!(extension_of(&ours), theirs, "{:?}", requested);
    }
}

#[test]
fn random_text_is_cut_as_the_standard_library_does() {
    let mut rng = StdRng::seed_from_u64(2);
    let alphabet = ['a', 'S', ':', ' ', '\t', '\n', '\n', '\r', '\r', '\u{3000}', '1'];
    for _ in 0..20000 {
        let s = random_text(&mut rng, &alphabet, 10);
        let chars = as_chars(&s);
        let ours: Vec<String> = lines_of(&chars).iter().map(|l| as_text(l)).collect();
        let theirs: Vec<String> = s.lines().map(|l| l.to_string()).collect();
        assert_eq!(ours, theirs, "lines of {:?}", s);
        assert_eq!(as_text(&trimmed(&chars)), s.trim(), "trim of {:?}", s);
        assert_eq!(
            second_word_of(&chars).map(|w| as_text(&w)),
            s.split_whitespace().nth(1).map(|w| w.to_string()),
            "second word of {:?}",
            s
        );
        let ours: Vec<String> = split_on(&chars, ':').iter().map(|p| as_text(p)).collect();
        let theirs: Vec<String> = s.split(':').map(|p| p.to_string()).collect();
        assert_eq!(ours, theirs, "split of {:?}", s);
        assert_eq!(
            as_text(&without_prefixes(&chars, &as_chars("a:"))),
            s.trim_start_matches("a:"),
            "prefixes of {:?}",
            s
        );
    }
}

#[test]
fn random_numbers_are_read_as_the_standard_library_does() {
    let mut rng = StdRng::seed_from_u64(3);
    let alphabet = ['0', '1', '2', '5', '6', '9', '+', '-', ' ', 'x'];
    for _ in 0..20000 {
        let s = random_text(&mut rng, &alphabet, 7);
        let chars = as_chars(&s);
        assert_eq!(
            parse_number(&chars, u16::MAX as u64),
            s.parse::<u16>().ok().map(|n| n as u64),
            "{:?}",
            s
        );
        assert_eq!(
            parse_number(&chars, u32::MAX as u64),
            s.parse::<u32>().ok().map(|n| n as u64),
            "{:?}",
            s
        );
    }
    for _ in 0..2000 {
        let n: u64 = rng.gen();
        let s = n.to_string();
        assert_eq!(parse_number(&as_chars(&s), u64::MAX), Some(n));
        assert_eq!(parse_number(&as_chars(&s), n), Some(n));
        if n > 0 {
            assert_eq!(parse_number(&as_chars(&s), n - 1), None);
        }
    }
}

fn parsed_by_the_standard_library(
    response: &str,
) -> (u16, String, Vec<(String, String)>, String) {
    let parts: Vec<&str> = response.split("\r\n\r\n").collect();
    if parts.len() < 2 {
        return (200, "text/html".to_string(), Vec::new(), response.to_string());
    }
    let body = parts[1..].join("\r\n\r\n");
    let mut status: u16 = 200;
    let mut content_type = "text/html".to_string();
    let mut headers = Vec::new();
    for line in parts[0].lines() {
        if line.is_empty() {
            continue;
        }
        if line.starts_with("Status:") {
            if let Some(word) = line.split_whitespace().nth(1) {
                if let Ok(code) = word.parse::<u16>() {
                    status = code;
                }
            }
            continue;
        }
        if let Some(colon) = line.find(':') {
            let (name, value) = line.split_at(colon);
            let name = name.trim();
            let value = value[1..].trim();
            if name.eq_ignore_ascii_case("Content-Type") {
                content_type = value.to_string();
            } else {
                headers.push((name.to_string(), value.to_string()));
            }
        }
    }
    let status = if (100..1000).contains(&status) { status } else { 500 };
    (status, content_type, headers, body)
}

#[test]
fn random_cgi_output_is_read_line_by_line() {
    let mut rng = StdRng::seed_from_u64(4);
    let pieces = [
        "Status:", "Status: ", "Content-Type", "content-type", "X-A", ":", ": ", " ", "\r\n",
        "\r\n", "\r\n\r\n", "\n", "\r", "200", "404", "70000", "99", "text/plain", "body", "é",
    ];
    for _ in 0..20000 {
        let count = rng.gen_range(0..10);
        let mut output = String::new();
        for _ in 0..count {
            output.push_str(pieces[rng.gen_range(0..pieces.len())]);
        }
        let ours = parse_php_response(&output);
        let (status, content_type, headers, body) = parsed_by_the_standard_library(&output);
        assert_eq!(ours.status, status, "{:?}", output);
        assert_eq!(ours.content_type, Some(content_type), "{:?}", output);
        assert_eq!(ours.headers, headers, "{:?}", output);
        assert_eq!(ours.body, body.into_bytes(), "{:?}", output);
    }
}
