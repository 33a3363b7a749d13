use regex::Regex;
use tlsn_verifier::extract::{find_host, find_score, is_request_for_score};

const REQUEST: &str = r#"GET\s+(?:https?://[^/]+)?(/users/[^/]+/credit-score)\s+HTTP/1\.1"#;
const SCORE: &str = r#""value"\s*:\s*([0-9]+)"#;

struct Sequence(u64);

impl Sequence {
    fn next(&mut self, bound: usize) -> usize {
        self.0 = self.0.wrapping_mul(6364136223846793005).wrapping_add(1442695040888963407);
        ((self.0 >> 33) as usize) % bound
    }

    fn text(&mut self, tokens: &[&str], longest: usize) -> String {
        let count = self.next(longest + 1);
        let mut text = String::new();
        for _ in 0..count {
            text.push_str(tokens[self.next(tokens.len())]);
        }
        text
    }
}

fn chars(s: &str) -> Vec<char> {
    s.chars().collect()
}

#[test]
fn request_line_agrees_with_the_pattern() {
    let pattern = Regex::new(REQUEST).unwrap();
    let slots: [&[&str]; 9] = [
        &["", "", "x", " ", "GET /", "GET "],
        &["GET", "GET", "GET", "get", "GE", "POST"],
        &[" ", " ", "  \t", "\u{00A0}", "\u{3000} ", "", "\r"],
        &["", "", "http://h", "https://example.com:8443", "http://", "https:/h", "ftp://h", "http://a/b", "h"],
        &["/users/", "/users/", "/users/", "/user/", "users/", "/users", "/Users/"],
        &["42", "a b", "x", "", "4/2", "\u{FFFD}", "%20", "42/credit-score"],
        &["/credit-score", "/credit-score", "/credit-score", "/credit_score", "/credit-score/", "/credit-scores"],
        &[" ", " ", "\t ", "\u{2003}", "", "\n", " x "],
        &["HTTP/1.1", "HTTP/1.1", "HTTP/1.1", "HTTP/1.0", "HTTP/1,1", "http/1.1", "HTTP/1.1 tail"],
    ];
    let mut sequence = Sequence(7);
    let mut matched = 0;
    let mut unmatched = 0;
    for _ in 0..60000 {
        let mut line = String::new();
        for slot in slots.iter() {
            line.push_str(slot[sequence.next(slot.len())]);
        }
        let expected = pattern.is_match(&line);
        assert_eq!(is_request_for_score(&chars(&line)), expected, "{:?}", line);
        if expected {
            matched += 1;
        } else {
            unmatched += 1;
        }
    }
    assert!(matched > 500, "{} of the lines matched", matched);
    assert!(unmatched > 500, "{} of the lines did not match", unmatched);
}

#[test]
fn request_line_agrees_with_the_pattern_on_mixed_tokens() {
    let pattern = Regex::new(REQUEST).unwrap();
    let tokens = [
        "GET", "GET", " ", " ", "\t", "\u{00A0}", "\u{3000}", "http://", "https://", "http:/",
        "h", "/users/", "/users/", "/", "x", "42", "a b", "/credit-score", "/credit-score",
        "HTTP/1.1", "HTTP/1.1", "HTTP/1.0", "example.com", ":", "\r", "get", "\u{FFFD}",
    ];
    let mut sequence = Sequence(5);
    for _ in 0..60000 {
        let line = sequence.text(&tokens, 12);
        assert_eq!(is_request_for_score(&chars(&line)), pattern.is_match(&line), "{:?}", line);
    }
}

#[test]
fn score_agrees_with_the_pattern() {
    let pattern = Regex::new(SCORE).unwrap();
    let tokens = [
        "\"value\"", "\"value\"", "\"value", "value\"", ":", ":", " ", "\t", "\n", "\u{2003}",
        "0", "7", "750", "x", "{", "}", "\"", "-", "\u{0663}", ",",
    ];
    let mut sequence = Sequence(11);
    let mut found = 0;
    for _ in 0..60000 {
        let text = sequence.text(&tokens, 10);
        let expected = pattern
            .captures(&text)
            .and_then(|c| c.get(1))
            .map(|m| m.as_str().to_string());
        let got: Option<String> = find_score(&chars(&text)).map(|d| d.into_iter().collect());
        assert_eq!(got, expected, "{:?}", text);
        if expected.is_some() {
            found += 1;
        }
    }
    assert!(found > 50, "{} of the texts held a score", found);
}

#[test]
fn host_agrees_with_a_scan_of_the_lines() {
    let tokens = [
        "Host:", "host:", "HOST:", "hOst:", "Host", ":", " ", "\t", "\r\n", "\n", "\r",
        "example.com", "a", "X-", "\u{00A0}",
    ];
    let mut sequence = Sequence(13);
    let mut found = 0;
    for _ in 0..60000 {
        let text = sequence.text(&tokens, 10);
        let expected = text
            .lines()
            .find(|line| line.to_lowercase().starts_with("host:"))
            .map(|line| {
                let value: String = line.chars().skip(5).collect();
                value.trim().to_string()
            });
        let got: Option<String> = find_host(&chars(&text)).map(|d| d.into_iter().collect());
        assert_eq!(got, expected, "{:?}", text);
        if expected.is_some() {
            found += 1;
        }
    }
    assert!(found > 50, "{} of the texts held a host", found);
}
