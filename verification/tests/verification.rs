use tlsn_verifier::policy::{is_accepted_server, VerifierConfig};
use tlsn_verifier::transcript::{redact, ByteRange, Transcript};
use tlsn_verifier::types::{ErrorKind, Meta, PresentationJSON, VerificationError};
use tlsn_verifier::verification::{
    format_time, inspect_transcript, verify_proof, CryptoFailure, VerifiedOutcome, VerifyAction,
    VerifyEvent, UNAUTHENTICATED,
};

const SENT: &str = "GET /users/42/credit-score HTTP/1.1\r\nHost: example.com\r\nAccept: */*\r\n\r\n";
const RECEIVED: &str =
    "HTTP/1.1 200 OK\r\nContent-Type: application/json\r\n\r\n{\"score\": {\"value\": 750}}";

fn config() -> VerifierConfig {
    VerifierConfig {
        accepted_version: "0.1.0-alpha.10".to_string(),
        accepted_server_names: vec!["api.example.org".to_string(), "example.com".to_string()],
    }
}

fn presentation(version: &str, data: &str) -> PresentationJSON {
    PresentationJSON {
        version: version.to_string(),
        data: data.to_string(),
        meta: Meta { notary_url: "https://notary.example".to_string(), websocket_proxy_url: None },
    }
}

fn whole(bytes: &[u8]) -> Vec<ByteRange> {
    vec![ByteRange { start: 0, end: bytes.len() }]
}

fn outcome(sent: &[u8], received: &[u8]) -> VerifiedOutcome {
    VerifiedOutcome {
        verifying_key: vec![0x02, 0xab, 0xcd],
        server_name: Some("example.com".to_string()),
        time: 1431648000,
        transcript: Some(Transcript {
            sent: sent.to_vec(),
            received: received.to_vec(),
            sent_authed: whole(sent),
            received_authed: whole(received),
        }),
    }
}

fn finish(action: VerifyAction) -> Result<tlsn_verifier::types::VerificationResult, VerificationError> {
    match action {
        VerifyAction::Finish(res) => res,
        VerifyAction::CheckProof(_) => panic!("verification is not over"),
    }
}

fn rejected(o: VerifiedOutcome) -> VerificationError {
    finish(verify_proof(&config(), VerifyEvent::Checked(Ok(o)))).unwrap_err()
}

fn policy(message: &str) -> VerificationError {
    VerificationError { kind: ErrorKind::Policy, message: message.to_string() }
}

#[test]
fn valid_proof_round_trips() {
    let result =
        finish(verify_proof(&config(), VerifyEvent::Checked(Ok(outcome(SENT.as_bytes(), RECEIVED.as_bytes())))))
            .unwrap();
    assert!(result.is_valid);
    assert_eq!(result.server_name, "example.com");
    assert_eq!(result.score, "750");
    assert_eq!(result.verifying_key, "02abcd");
    assert_eq!(result.sent_readable, SENT);
    assert_eq!(result.recv_readable, RECEIVED);
    assert_eq!(result.sent_hex_encoded, hex::encode(SENT));
    assert_eq!(result.recv_hex_encoded, hex::encode(RECEIVED));
    assert_eq!(result.time, "2015-05-15T00:00:00+00:00");
}

#[test]
fn evaluate_outcome_is_the_last_step() {
    let direct = config().evaluate_outcome(outcome(SENT.as_bytes(), RECEIVED.as_bytes()));
    let stepped =
        finish(verify_proof(&config(), VerifyEvent::Checked(Ok(outcome(SENT.as_bytes(), RECEIVED.as_bytes())))));
    assert_eq!(direct, stepped);
}

#[test]
fn received_envelope_leads_to_the_check_of_its_bytes() {
    let action = verify_proof(
        &config(),
        VerifyEvent::Received(Ok(presentation("0.1.0-alpha.10", "48 65\n6c6C\t6f"))),
    );
    assert_eq!(action, VerifyAction::CheckProof(b"Hello".to_vec()));
}

#[test]
fn empty_payload_is_an_empty_proof() {
    let action =
        verify_proof(&config(), VerifyEvent::Received(Ok(presentation("0.1.0-alpha.10", " \n"))));
    assert_eq!(action, VerifyAction::CheckProof(vec![]));
}

#[test]
fn malformed_json_is_a_decode_error() {
    let e = finish(verify_proof(
        &config(),
        VerifyEvent::Received(Err("expected value at line 1 column 1".to_string())),
    ))
    .unwrap_err();
    assert_eq!(e.kind, ErrorKind::Decode);
    assert_eq!(e.message, "Invalid JSON format: expected value at line 1 column 1");
}

#[test]
fn other_version_is_rejected_before_decoding() {
    for data in ["00", "not hex at all", ""] {
        let e = finish(verify_proof(
            &config(),
            VerifyEvent::Received(Ok(presentation("0.1.0-alpha.9", data))),
        ))
        .unwrap_err();
        assert_eq!(
            e,
            policy("Version mismatch: expected '0.1.0-alpha.10', got '0.1.0-alpha.9'")
        );
    }
}

#[test]
fn version_is_compared_exactly() {
    for version in ["0.1.0-alpha.10 ", "0.1.0-ALPHA.10", "0.1.0", "", "v0.1.0-alpha.10"] {
        let action =
            verify_proof(&config(), VerifyEvent::Received(Ok(presentation(version, "00"))));
        assert!(matches!(action, VerifyAction::Finish(Err(_))), "{:?}", version);
        assert!(config().check_version(&presentation(version, "00")).is_err());
    }
    assert!(config().check_version(&presentation("0.1.0-alpha.10", "zz")).is_ok());
}

#[test]
fn odd_payload_is_a_decode_error() {
    let e = finish(verify_proof(
        &config(),
        VerifyEvent::Received(Ok(presentation("0.1.0-alpha.10", "abc"))),
    ))
    .unwrap_err();
    assert_eq!(e.kind, ErrorKind::Decode);
    assert_eq!(e.message, "Invalid presentation encoding: Odd number of digits");
}

#[test]
fn payload_with_other_characters_is_a_decode_error() {
    let e = presentation("0.1.0-alpha.10", "12 3g").to_presentation().unwrap_err();
    assert_eq!(e.kind, ErrorKind::Decode);
    assert_eq!(
        e.message,
        format!(
            "Invalid presentation encoding: {}",
            hex::FromHexError::InvalidHexCharacter { c: 'g', index: 3 }
        )
    );
    let e = presentation("0.1.0-alpha.10", "é0").to_presentation().unwrap_err();
    assert_eq!(
        e.message,
        format!("Invalid presentation encoding: {}", hex::decode("é0").unwrap_err())
    );
}

#[test]
fn payload_decodes_in_either_case() {
    assert_eq!(
        presentation("x", "DEADbeef 00ff").to_presentation().unwrap(),
        vec![0xde, 0xad, 0xbe, 0xef, 0x00, 0xff]
    );
    assert_eq!(
        presentation("x", "\u{00A0}0a\u{3000}0B\r\n").to_presentation().unwrap(),
        vec![0x0a, 0x0b]
    );
}

#[test]
fn bytes_that_are_no_presentation_are_a_decode_error() {
    let e = finish(verify_proof(
        &config(),
        VerifyEvent::Checked(Err(CryptoFailure::Malformed("unexpected end of file".to_string()))),
    ))
    .unwrap_err();
    assert_eq!(e.kind, ErrorKind::Decode);
    assert_eq!(e.message, "Invalid presentation encoding: unexpected end of file");
}

#[test]
fn unsound_presentation_is_a_crypto_error() {
    let e = finish(verify_proof(
        &config(),
        VerifyEvent::Checked(Err(CryptoFailure::Rejected("bad signature".to_string()))),
    ))
    .unwrap_err();
    assert_eq!(e.kind, ErrorKind::CryptoVerify);
    assert_eq!(e.message, "Presentation verification failed: bad signature");
}

#[test]
fn empty_verifying_key_is_rejected_first() {
    let mut o = outcome(SENT.as_bytes(), RECEIVED.as_bytes());
    o.verifying_key = vec![];
    o.server_name = Some("elsewhere.example".to_string());
    assert_eq!(rejected(o), policy("Verifying key is empty or missing"));
}

#[test]
fn server_off_the_list_is_rejected() {
    let mut o = outcome(SENT.as_bytes(), RECEIVED.as_bytes());
    o.server_name = Some("evil.example".to_string());
    assert_eq!(rejected(o), policy("Server name 'evil.example' is not in the accepted list"));
}

#[test]
fn server_name_is_matched_with_case() {
    for name in ["Example.com", "EXAMPLE.COM", "example.com ", " example.com", "example.co"] {
        let mut o = outcome(SENT.as_bytes(), RECEIVED.as_bytes());
        o.server_name = Some(name.to_string());
        assert_eq!(
            rejected(o),
            policy(&format!("Server name '{}' is not in the accepted list", name))
        );
    }
    let names = config().accepted_server_names;
    assert!(is_accepted_server(&names, &"example.com".to_string()));
    assert!(is_accepted_server(&names, &"api.example.org".to_string()));
    assert!(!is_accepted_server(&names, &"Example.com".to_string()));
    assert!(!is_accepted_server(&vec![], &"example.com".to_string()));
}

#[test]
fn absent_server_name_gets_the_placeholder() {
    let mut o = outcome(SENT.as_bytes(), RECEIVED.as_bytes());
    o.server_name = None;
    assert_eq!(
        rejected(o),
        policy("Server name '<no server_name>' is not in the accepted list")
    );
}

#[test]
fn time_out_of_range_is_rejected() {
    for time in [u64::MAX, i64::MAX as u64, (i64::MAX as u64) + 1, 8_210_266_876_800] {
        let mut o = outcome(SENT.as_bytes(), RECEIVED.as_bytes());
        o.time = time;
        assert_eq!(rejected(o), policy("Invalid or missing timestamp"), "{}", time);
    }
}

#[test]
fn time_is_written_in_rfc3339() {
    assert_eq!(format_time(0), Some("1970-01-01T00:00:00+00:00".to_string()));
    assert_eq!(format_time(1), Some("1970-01-01T00:00:01+00:00".to_string()));
    assert_eq!(format_time(951782400), Some("2000-02-29T00:00:00+00:00".to_string()));
    assert_eq!(format_time(1431648000), Some("2015-05-15T00:00:00+00:00".to_string()));
    assert_eq!(format_time(253402300799), Some("9999-12-31T23:59:59+00:00".to_string()));
    assert_eq!(format_time(253402300800), Some("+10000-01-01T00:00:00+00:00".to_string()));
    assert_eq!(format_time(8_210_266_876_799), Some("+262142-12-31T23:59:59+00:00".to_string()));
    assert_eq!(format_time(8_210_266_876_800), None);
    assert_eq!(format_time(u64::MAX), None);
}

#[test]
fn missing_transcript_is_rejected() {
    let mut o = outcome(SENT.as_bytes(), RECEIVED.as_bytes());
    o.transcript = None;
    assert_eq!(rejected(o), policy("Missing transcript in presentation output"));
}

#[test]
fn missing_host_header_is_rejected() {
    let sent = "GET /users/42/credit-score HTTP/1.1\r\nAccept: */*\r\n\r\n";
    assert_eq!(
        rejected(outcome(sent.as_bytes(), RECEIVED.as_bytes())),
        policy("Missing 'Host' header in sent transcript")
    );
    assert_eq!(
        rejected(outcome(b"", RECEIVED.as_bytes())),
        policy("Missing 'Host' header in sent transcript")
    );
}

#[test]
fn host_that_names_another_server_is_rejected() {
    let sent = "GET /users/42/credit-score HTTP/1.1\r\nHost: other.example\r\n\r\n";
    assert_eq!(
        rejected(outcome(sent.as_bytes(), RECEIVED.as_bytes())),
        policy("Host header 'other.example' does not match server name 'example.com'")
    );
}

#[test]
fn host_value_is_compared_exactly() {
    for value in ["Example.com", "example.com:443", "example.com.", ""] {
        let sent = format!("GET /users/42/credit-score HTTP/1.1\r\nHost: {}\r\n\r\n", value);
        assert_eq!(
            rejected(outcome(sent.as_bytes(), RECEIVED.as_bytes())),
            policy(&format!(
                "Host header '{}' does not match server name 'example.com'",
                value
            ))
        );
    }
}

#[test]
fn host_header_name_may_be_in_any_case() {
    for name in ["host", "HOST", "Host", "hOsT"] {
        let sent = format!("GET /users/42/credit-score HTTP/1.1\r\n{}:   example.com \r\n\r\n", name);
        let result = config().evaluate_outcome(outcome(sent.as_bytes(), RECEIVED.as_bytes()));
        assert_eq!(result.unwrap().server_name, "example.com", "{}", name);
    }
}

#[test]
fn other_request_line_is_rejected() {
    for line in [
        "GET /users/42/profile HTTP/1.1",
        "POST /users/42/credit-score HTTP/1.1",
        "GET /users/42/credit-score HTTP/2",
        "",
    ] {
        let sent = format!("{}\r\nHost: example.com\r\n\r\n", line);
        assert_eq!(
            rejected(outcome(sent.as_bytes(), RECEIVED.as_bytes())),
            policy("Request path is missing or invalid"),
            "{:?}",
            line
        );
    }
}

#[test]
fn request_must_stand_on_the_first_line() {
    let sent = "Host: example.com\r\nGET /users/42/credit-score HTTP/1.1\r\n\r\n";
    assert_eq!(
        rejected(outcome(sent.as_bytes(), RECEIVED.as_bytes())),
        policy("Request path is missing or invalid")
    );
}

#[test]
fn absolute_request_target_is_accepted() {
    let sent = "GET https://example.com/users/42/credit-score HTTP/1.1\r\nHost: example.com\r\n\r\n";
    let result = config().evaluate_outcome(outcome(sent.as_bytes(), RECEIVED.as_bytes()));
    assert_eq!(result.unwrap().score, "750");
}

#[test]
fn response_without_score_is_rejected() {
    for received in ["", "HTTP/1.1 200 OK\r\n\r\n{}", "{\"value\": \"high\"}", "{\"value\": null}"] {
        assert_eq!(
            rejected(outcome(SENT.as_bytes(), received.as_bytes())),
            policy("Credit score value is missing from response"),
            "{:?}",
            received
        );
    }
}

#[test]
fn inspect_transcript_reads_text() {
    assert_eq!(inspect_transcript("example.com", SENT, RECEIVED), Ok("750".to_string()));
    assert_eq!(
        inspect_transcript("other.example", SENT, RECEIVED),
        Err(policy("Host header 'example.com' does not match server name 'other.example'"))
    );
    assert_eq!(
        inspect_transcript("", "Host:\n", ""),
        Err(policy("Request path is missing or invalid"))
    );
}

#[test]
fn unauthenticated_bytes_are_hidden() {
    let sent = SENT.as_bytes();
    let received = RECEIVED.as_bytes();
    let start = RECEIVED.find("750").unwrap();
    let mut o = outcome(sent, received);
    o.transcript = Some(Transcript {
        sent: sent.to_vec(),
        received: received.to_vec(),
        sent_authed: whole(sent),
        received_authed: vec![ByteRange { start: 0, end: start }],
    });
    assert_eq!(rejected(o), policy("Credit score value is missing from response"));

    let mut o = outcome(sent, received);
    o.transcript = Some(Transcript {
        sent: sent.to_vec(),
        received: received.to_vec(),
        sent_authed: whole(sent),
        received_authed: vec![ByteRange { start: start - 9, end: start + 2 }],
    });
    let result = config().evaluate_outcome(o).unwrap();
    assert_eq!(result.score, "75");
    let mut shown = vec![b'X'; received.len()];
    shown[start - 9..start + 2].copy_from_slice(&received[start - 9..start + 2]);
    assert_eq!(result.recv_readable.as_bytes(), &shown[..]);
    assert_eq!(result.recv_hex_encoded, hex::encode(&shown));
}

#[test]
fn unauthenticated_host_cannot_pass() {
    let sent = SENT.as_bytes();
    let host_at = SENT.find("Host").unwrap();
    let mut o = outcome(sent, RECEIVED.as_bytes());
    o.transcript = Some(Transcript {
        sent: sent.to_vec(),
        received: RECEIVED.as_bytes().to_vec(),
        sent_authed: vec![ByteRange { start: 0, end: host_at }],
        received_authed: whole(RECEIVED.as_bytes()),
    });
    assert_eq!(rejected(o), policy("Missing 'Host' header in sent transcript"));
}

#[test]
fn redact_keeps_only_what_ranges_cover() {
    let bytes = b"0123456789".to_vec();
    assert_eq!(redact(&bytes, &vec![], b'X'), b"XXXXXXXXXX".to_vec());
    assert_eq!(redact(&bytes, &vec![ByteRange { start: 0, end: 10 }], b'X'), bytes);
    assert_eq!(
        redact(
            &bytes,
            &vec![ByteRange { start: 7, end: 9 }, ByteRange { start: 1, end: 3 }],
            b'X'
        ),
        b"X12XXXX78X".to_vec()
    );
    assert_eq!(
        redact(
            &bytes,
            &vec![ByteRange { start: 2, end: 6 }, ByteRange { start: 4, end: 100 }],
            b'-'
        ),
        b"--23456789".to_vec()
    );
    assert_eq!(
        redact(
            &bytes,
            &vec![ByteRange { start: 5, end: 5 }, ByteRange { start: 6, end: 2 }, ByteRange { start: 20, end: 30 }],
            b'X'
        ),
        b"XXXXXXXXXX".to_vec()
    );
    assert_eq!(redact(&vec![], &vec![ByteRange { start: 0, end: 4 }], b'X'), Vec::<u8>::new());
}

#[test]
fn set_unauthed_redacts_both_directions() {
    let mut t = Transcript {
        sent: b"abcdef".to_vec(),
        received: b"uvwxyz".to_vec(),
        sent_authed: vec![ByteRange { start: 0, end: 2 }],
        received_authed: vec![ByteRange { start: 4, end: 6 }],
    };
    t.set_unauthed(UNAUTHENTICATED);
    assert_eq!(t.sent_unsafe(), &b"abXXXX".to_vec());
    assert_eq!(t.received_unsafe(), &b"XXXXyz".to_vec());
    assert_eq!(t.sent_authed, vec![ByteRange { start: 0, end: 2 }]);
    t.set_unauthed(b'?');
    assert_eq!(t.sent_unsafe(), &b"ab????".to_vec());
}

#[test]
fn bytes_that_are_no_text_are_replaced_when_read() {
    let mut sent = SENT.as_bytes().to_vec();
    sent.extend_from_slice(&[0xff, 0xfe]);
    let result = config().evaluate_outcome(outcome(&sent, RECEIVED.as_bytes())).unwrap();
    assert_eq!(result.sent_readable, format!("{}\u{FFFD}\u{FFFD}", SENT));
    assert_eq!(result.sent_hex_encoded, hex::encode(&sent));
}
