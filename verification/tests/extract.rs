use tlsn_verifier::extract::{
    find_host, find_score, first_line, is_request_for_score, request_matches_at, split_lines,
    starts_with_host,
};

fn chars(s: &str) -> Vec<char> {
    s.chars().collect()
}

fn text(v: Vec<char>) -> String {
    v.into_iter().collect()
}

fn host(s: &str) -> Option<String> {
    find_host(&chars(s)).map(text)
}

fn score(s: &str) -> Option<String> {
    find_score(&chars(s)).map(text)
}

#[test]
fn lines_agree_with_std() {
    for s in [
        "",
        "\n",
        "a",
        "a\n",
        "a\nb",
        "a\r\nb\r\n",
        "a\rb\n",
        "a\r",
        "\r\n\r\n",
        "GET / HTTP/1.1\r\nHost: x\r\n\r\nbody",
        "one\n\ntwo\n",
        "\r",
        "x\r\r\ny",
    ] {
        let expected: Vec<Vec<char>> = s.lines().map(|l| l.chars().collect()).collect();
        assert_eq!(split_lines(&chars(s)), expected, "{:?}", s);
    }
}

#[test]
fn host_line_is_recognized_in_any_case() {
    assert!(starts_with_host(&chars("host: a")));
    assert!(starts_with_host(&chars("Host: a")));
    assert!(starts_with_host(&chars("HOST:a")));
    assert!(starts_with_host(&chars("hOsT:")));
    assert!(!starts_with_host(&chars("host")));
    assert!(!starts_with_host(&chars(" host: a")));
    assert!(!starts_with_host(&chars("hosts: a")));
    assert!(!starts_with_host(&chars("ho\u{017F}t: a")));
}

#[test]
fn host_value_is_trimmed() {
    assert_eq!(
        host("GET / HTTP/1.1\r\nHost: example.com\r\n\r\n"),
        Some("example.com".to_string())
    );
    assert_eq!(host("host:\t example.com  \n"), Some("example.com".to_string()));
    assert_eq!(host("HOST:example.com"), Some("example.com".to_string()));
    assert_eq!(host("Host:"), Some("".to_string()));
}

#[test]
fn first_host_line_wins() {
    assert_eq!(host("Host: first\nHost: second\n"), Some("first".to_string()));
    assert_eq!(host("X-Host: no\nhost: yes\n"), Some("yes".to_string()));
}

#[test]
fn missing_host_is_none() {
    assert_eq!(host(""), None);
    assert_eq!(host("GET / HTTP/1.1\r\nAccept: */*\r\n"), None);
    assert_eq!(host("X-Forwarded-Host: example.com\n"), None);
}

#[test]
fn first_line_is_the_request_line() {
    assert_eq!(first_line(&chars("")), None);
    assert_eq!(first_line(&chars("a\r\nb")).map(text), Some("a".to_string()));
    assert_eq!(first_line(&chars("\nb")).map(text), Some("".to_string()));
    assert_eq!(first_line(&chars("only")).map(text), Some("only".to_string()));
    assert_eq!(first_line(&chars("cr\r")).map(text), Some("cr\r".to_string()));
}

#[test]
fn request_line_shapes_that_match() {
    for line in [
        "GET /users/42/credit-score HTTP/1.1",
        "GET  \t /users/42/credit-score   HTTP/1.1",
        "GET http://example.com/users/42/credit-score HTTP/1.1",
        "GET https://example.com/users/42/credit-score HTTP/1.1",
        "GET https://example.com:8443/users/a%20b/credit-score HTTP/1.1",
        "xxGET /users/42/credit-score HTTP/1.1yy",
        "GET /users/a b/credit-score HTTP/1.1",
        "GET\u{00A0}/users/42/credit-score\u{2003}HTTP/1.1",
        "GET /x GET /users/1/credit-score HTTP/1.1",
    ] {
        assert!(is_request_for_score(&chars(line)), "{:?}", line);
    }
}

#[test]
fn request_line_shapes_that_do_not_match() {
    for line in [
        "",
        "GET",
        "GET /users/42/credit-score",
        "GET /users/42/credit-score HTTP/1.0",
        "GET/users/42/credit-score HTTP/1.1",
        "GET /users/42/credit-scoreHTTP/1.1",
        "GET /users//credit-score HTTP/1.1",
        "GET /users/4/2/credit-score HTTP/1.1",
        "GET /user/42/credit-score HTTP/1.1",
        "POST /users/42/credit-score HTTP/1.1",
        "get /users/42/credit-score HTTP/1.1",
        "GET /api/users/42/credit-score HTTP/1.1",
        "GET http:///users/42/credit-score HTTP/1.1",
        "GET ftp://example.com/users/42/credit-score HTTP/1.1",
        "GET http://example.com/api/users/42/credit-score HTTP/1.1",
        "GET /users/42/credit-score http/1.1",
        "GET /users/42/credit-score?x=1 HTTP/1.1",
    ] {
        assert!(!is_request_for_score(&chars(line)), "{:?}", line);
    }
}

#[test]
fn request_matches_only_where_it_begins() {
    let line = chars("  GET /users/42/credit-score HTTP/1.1");
    assert!(!request_matches_at(&line, 0));
    assert!(request_matches_at(&line, 2));
    assert!(!request_matches_at(&line, 3));
    assert!(!request_matches_at(&line, line.len()));
}

#[test]
fn score_is_the_digits_after_value() {
    assert_eq!(score("{\"value\": 750}"), Some("750".to_string()));
    assert_eq!(score("{\"value\":750}"), Some("750".to_string()));
    assert_eq!(score("{\"value\" \t:\r\n 750 }"), Some("750".to_string()));
    assert_eq!(score("\"value\":0"), Some("0".to_string()));
    assert_eq!(score("\"value\": 007x"), Some("007".to_string()));
    assert_eq!(
        score("\"value\": 123456789012345678901234567890"),
        Some("123456789012345678901234567890".to_string())
    );
}

#[test]
fn leftmost_score_wins() {
    assert_eq!(score("\"value\": 1, \"value\": 2"), Some("1".to_string()));
    assert_eq!(score("\"value\": \"x\", \"value\": 2"), Some("2".to_string()));
    assert_eq!(score("\"value\"\"value\":3"), Some("3".to_string()));
}

#[test]
fn missing_score_is_none() {
    assert_eq!(score(""), None);
    assert_eq!(score("\"value\""), None);
    assert_eq!(score("\"value\":"), None);
    assert_eq!(score("\"value\": \"750\""), None);
    assert_eq!(score("\"value\": -5"), None);
    assert_eq!(score("value: 750"), None);
    assert_eq!(score("\"Value\": 750"), None);
    assert_eq!(score("\"value\" = 750"), None);
    assert_eq!(score("\"value\": \u{0663}"), None);
}
