use p256::ecdsa::signature::Verifier;
use p256::ecdsa::{Signature, VerifyingKey};
use sha2::Digest;
use tlsn_verifier::attestation::{
    get_attestation_report_with_signature, quote_request, read_attestation_report, sign_quote,
    AttestAction, AttestEvent, BindingMode,
};
use tlsn_verifier::key_manager::KeyMaterial;
use tlsn_verifier::tappd_service::{
    send_failure, send_key_request, send_quote_request, Body, Exchange, SendStage,
};
use tlsn_verifier::types::{AttestationError, GetQuoteResponse, TappdError};
use tlsn_verifier::utils::{encode_message_hex, prepare_report_data, sign_message};

const SHA512_ABC: &str = "ddaf35a193617abacc417349ae20413112e6fa4e89a97ea20a9eeee64b55d39a2192992a274fc1a836ba3c23a3feebbd454d4423643ce80e2a9ac94fa54ca49f";

fn quote(text: &str) -> GetQuoteResponse {
    GetQuoteResponse { quote: text.to_string(), event_log: "[]".to_string() }
}

fn answered(status: u16, value: GetQuoteResponse) -> Exchange<GetQuoteResponse> {
    Exchange::Responded { status, body: Body::Parsed(value) }
}

fn done(action: AttestAction) -> Result<tlsn_verifier::types::SignedAttestation, AttestationError> {
    match action {
        AttestAction::Done(res) => res,
        AttestAction::RequestQuote(_) => panic!("attestation is not over"),
    }
}

#[test]
fn message_is_encoded_as_hex_of_its_bytes() {
    assert_eq!(encode_message_hex("Hello world!"), "48656c6c6f20776f726c6421");
    assert_eq!(encode_message_hex(""), "");
    assert_eq!(encode_message_hex("\u{00e9}\n"), "c3a90a");
    assert_eq!(encode_message_hex("0f"), "3066");
}

#[test]
fn report_data_is_prefixed_sha512() {
    assert_eq!(prepare_report_data("abc"), format!("0x{}", SHA512_ABC));
    assert_eq!(
        prepare_report_data(""),
        format!("0x{}", hex::encode(sha2::Sha512::digest(b"")))
    );
    assert_eq!(prepare_report_data("any text").len(), 130);
}

#[test]
fn signed_message_verifies() {
    let km = KeyMaterial::new_random();
    let text = sign_message(&km, "3066").unwrap();
    assert_eq!(text.len(), 128);
    let signature = Signature::from_slice(&hex::decode(&text).unwrap()).unwrap();
    let key = VerifyingKey::from_sec1_bytes(&km.public_key_bytes()).unwrap();
    assert!(key.verify(b"3066", &signature).is_ok());
    assert!(key.verify(&[0x30, 0x66], &signature).is_err());
}

#[test]
fn quote_request_binds_to_the_verification_output() {
    let km = KeyMaterial::new_random();
    let request = quote_request(BindingMode::VerificationOutput, &km, "abc");
    assert_eq!(request.report_data, format!("0x{}", SHA512_ABC));
    assert_eq!(request.hash_algorithm, "raw");
}

#[test]
fn quote_request_binds_to_the_signing_key() {
    let km = KeyMaterial::new_random();
    let request = quote_request(BindingMode::SigningKey, &km, "abc");
    assert_eq!(request.report_data, km.report_data_from_key());
    assert_eq!(
        request.report_data,
        format!("0x{}", hex::encode(sha2::Sha512::digest(km.public_key_bytes())))
    );
    assert_eq!(request.hash_algorithm, "raw");
}

#[test]
fn attestation_starts_with_a_request_for_a_quote() {
    let km = KeyMaterial::new_random();
    let action = get_attestation_report_with_signature(
        Some(&km),
        BindingMode::VerificationOutput,
        "abc",
        AttestEvent::Start,
    );
    match action {
        AttestAction::RequestQuote(request) => {
            assert_eq!(request.report_data, format!("0x{}", SHA512_ABC));
            assert_eq!(request.hash_algorithm, "raw");
        }
        AttestAction::Done(_) => panic!("a quote should be asked for"),
    }
}

#[test]
fn attestation_without_key_fails_at_once() {
    for event in [AttestEvent::Start, AttestEvent::Exchanged(answered(200, quote("00")))] {
        let res = done(get_attestation_report_with_signature(
            None,
            BindingMode::SigningKey,
            "",
            event,
        ));
        assert_eq!(
            res,
            Err(AttestationError { message: "Key material not initialized".to_string() })
        );
    }
}

#[test]
fn attestation_carries_the_key_that_signed() {
    let km = KeyMaterial::new_random();
    let other = KeyMaterial::new_random();
    let attestation = done(get_attestation_report_with_signature(
        Some(&km),
        BindingMode::VerificationOutput,
        "ignored here",
        AttestEvent::Exchanged(answered(200, quote("04deadbeef"))),
    ))
    .unwrap();
    assert_eq!(attestation.quote, "04deadbeef");
    assert_eq!(attestation.verifying_key_hex_encoded, km.encode_verify_key());
    assert_ne!(attestation.verifying_key_hex_encoded, other.encode_verify_key());
    assert_eq!(attestation.verifying_key_certificate_chain, None);

    assert_eq!(attestation.signature_hex_encoded.len(), 128);
    let signature =
        Signature::from_slice(&hex::decode(&attestation.signature_hex_encoded).unwrap()).unwrap();
    let key =
        VerifyingKey::from_sec1_bytes(&hex::decode(&attestation.verifying_key_hex_encoded).unwrap())
            .unwrap();
    assert!(key.verify(&[0x04, 0xde, 0xad, 0xbe, 0xef], &signature).is_ok());
    assert!(key.verify(b"04deadbeef", &signature).is_err());
    assert!(key.verify(hex::encode("04deadbeef").as_bytes(), &signature).is_err());
}

#[test]
fn sign_quote_is_the_last_step() {
    let km = KeyMaterial::new_random();
    let direct = sign_quote(&km, quote("abcd")).unwrap();
    let stepped = done(get_attestation_report_with_signature(
        Some(&km),
        BindingMode::SigningKey,
        "",
        AttestEvent::Exchanged(answered(200, quote("abcd"))),
    ))
    .unwrap();
    assert_eq!(direct, stepped);
}

#[test]
fn failed_exchange_ends_the_attestation() {
    let km = KeyMaterial::new_random();
    let cases = [
        (
            Exchange::Unreachable(TappdError { message: "Failed to send request: refused".to_string() }),
            "Tappd Service Error: Failed to send request: refused",
        ),
        (
            Exchange::Responded { status: 200, body: Body::Unreadable("eof".to_string()) },
            "Failed to read response body: eof",
        ),
        (
            Exchange::Responded {
                status: 200,
                body: Body::Unparsable("missing field `quote`".to_string()),
            },
            "Failed to parse GetQuoteResponse: missing field `quote`",
        ),
        (answered(500, quote("00")), "Tappd Service Error: status 500"),
        (answered(404, quote("00")), "Tappd Service Error: status 404"),
        (
            Exchange::Responded { status: 502, body: Body::Unreadable("eof".to_string()) },
            "Tappd Service Error: status 502",
        ),
        (
            Exchange::Responded {
                status: 400,
                body: Body::Unparsable("expected value".to_string()),
            },
            "Tappd Service Error: status 400",
        ),
    ];
    for (exchange, message) in cases {
        assert_eq!(
            read_attestation_report(exchange.clone()),
            Err(AttestationError { message: message.to_string() })
        );
        let res = done(get_attestation_report_with_signature(
            Some(&km),
            BindingMode::SigningKey,
            "",
            AttestEvent::Exchanged(exchange),
        ));
        assert_eq!(res, Err(AttestationError { message: message.to_string() }));
    }
    assert_eq!(read_attestation_report(answered(200, quote("q"))), Ok(quote("q")));
}

#[test]
fn only_success_statuses_give_a_quote() {
    let mut status: u16 = 0;
    loop {
        let res = read_attestation_report(answered(status, quote("00")));
        if (200..=299).contains(&status) {
            assert_eq!(res, Ok(quote("00")), "{}", status);
        } else {
            assert_eq!(
                res,
                Err(AttestationError {
                    message: format!("Tappd Service Error: status {}", status)
                }),
                "{}",
                status
            );
        }
        if status == u16::MAX {
            break;
        }
        status += 1;
    }
}

#[test]
fn quote_with_error_status_is_not_signed() {
    let km = KeyMaterial::new_random();
    let res = done(get_attestation_report_with_signature(
        Some(&km),
        BindingMode::SigningKey,
        "",
        AttestEvent::Exchanged(answered(503, quote("04deadbeef"))),
    ));
    assert_eq!(
        res,
        Err(AttestationError { message: "Tappd Service Error: status 503".to_string() })
    );
}

#[test]
fn quote_that_is_no_hex_is_not_signed() {
    let km = KeyMaterial::new_random();
    assert_eq!(
        sign_quote(&km, quote("abc")),
        Err(AttestationError { message: "Failed to decode quote: Odd number of digits".to_string() })
    );
    assert_eq!(
        sign_quote(&km, quote("0xab")),
        Err(AttestationError {
            message: format!("Failed to decode quote: {}", hex::decode("0xab").unwrap_err())
        })
    );
    let res = done(get_attestation_report_with_signature(
        Some(&km),
        BindingMode::SigningKey,
        "",
        AttestEvent::Exchanged(answered(200, quote("quote"))),
    ));
    assert_eq!(
        res,
        Err(AttestationError {
            message: format!("Failed to decode quote: {}", hex::decode("quote").unwrap_err())
        })
    );
}

#[test]
fn signature_is_over_the_raw_bytes_of_the_quote() {
    let km = KeyMaterial::new_random();
    for text in ["", "00", "04DEADbeef", "ffffffffffffffffffffffffffffffffffffffffffffffffffffffffffffffffff"] {
        let attestation = sign_quote(&km, quote(text)).unwrap();
        assert_eq!(attestation.quote, text);
        assert_eq!(attestation.signature_hex_encoded.len(), 128);
        assert_eq!(
            attestation.signature_hex_encoded,
            hex::encode(km.sign_message(&hex::decode(text).unwrap()).unwrap())
        );
        let signature =
            Signature::from_slice(&hex::decode(&attestation.signature_hex_encoded).unwrap())
                .unwrap();
        let key = VerifyingKey::from_sec1_bytes(&km.public_key_bytes()).unwrap();
        assert!(key.verify(&hex::decode(text).unwrap(), &signature).is_ok());
    }
}

#[test]
fn requests_name_socket_endpoint_and_body() {
    let request = send_quote_request("{\"report_data\":\"0x00\",\"hash_algorithm\":\"raw\"}");
    assert_eq!(request.socket, "/var/run/tappd.sock");
    assert_eq!(request.endpoint, "/prpc/Tappd.TdxQuote?json");
    assert_eq!(request.content_type, "application/json");
    assert_eq!(request.body, "{\"report_data\":\"0x00\",\"hash_algorithm\":\"raw\"}");
    let request = send_key_request();
    assert_eq!(request.socket, "/var/run/tappd.sock");
    assert_eq!(request.endpoint, "/prpc/Tappd.DeriveKey?json");
    assert_eq!(request.content_type, "application/json");
    assert_eq!(request.body, "{}");
}

#[test]
fn send_failures_name_the_stage() {
    assert_eq!(
        send_failure(SendStage::Build, "invalid uri").message,
        "Failed to build request: invalid uri"
    );
    assert_eq!(
        send_failure(SendStage::Send, "connection refused").message,
        "Failed to send request: connection refused"
    );
}
