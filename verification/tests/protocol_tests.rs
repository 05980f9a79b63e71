use std::str::FromStr;

use chrono::Utc;
use jsonwebtoken::{decode, encode, DecodingKey, EncodingKey, Header, Validation};
use otoroshictl::otoroshi::protocol::{
    Algorithm, OtoroshiProtocol, ProtocolError, CHALLENGE_LEEWAY_SECONDS,
    DEFAULT_STATE_HEADER, DEFAULT_STATE_RESP_HEADER, DEFAULT_TOKEN_EXPIRY_SECONDS,
    OTOROSHI_ISSUER,
};
use otoroshictl::otoroshi::token::ChallengeClaims;
use serde_json::{Number, Value};

const TEST_SECRET: &[u8] = b"test-secret-key-for-testing";

fn peer_algorithm(algorithm: Algorithm) -> jsonwebtoken::Algorithm {
    match algorithm {
        Algorithm::HS256 => jsonwebtoken::Algorithm::HS256,
        Algorithm::HS384 => jsonwebtoken::Algorithm::HS384,
        Algorithm::HS512 => jsonwebtoken::Algorithm::HS512,
    }
}

/// A challenge as the mesh peer would sign it.
fn challenge(
    algorithm: Algorithm,
    secret: &[u8],
    state: Option<&str>,
    iss: Option<&str>,
    iat: Option<i64>,
    exp: Option<i64>,
) -> String {
    let mut claims = serde_json::Map::new();
    if let Some(state) = state {
        claims.insert("state".to_string(), Value::String(state.to_string()));
    }
    if let Some(iss) = iss {
        claims.insert("iss".to_string(), Value::String(iss.to_string()));
    }
    if let Some(iat) = iat {
        claims.insert("iat".to_string(), Value::Number(Number::from(iat)));
    }
    if let Some(exp) = exp {
        claims.insert("exp".to_string(), Value::Number(Number::from(exp)));
    }
    encode(
        &Header::new(peer_algorithm(algorithm)),
        &Value::Object(claims),
        &EncodingKey::from_secret(secret),
    )
    .unwrap()
}

/// The claims of a response, read as the mesh peer would read them.
fn response_claims(algorithm: Algorithm, secret: &[u8], token: &str) -> Value {
    let mut validation = Validation::new(peer_algorithm(algorithm));
    validation.required_spec_claims.clear();
    validation.set_audience(&[OTOROSHI_ISSUER]);
    decode::<Value>(token, &DecodingKey::from_secret(secret), &validation)
        .unwrap()
        .claims
}

const ALGORITHMS: [Algorithm; 3] = [Algorithm::HS256, Algorithm::HS384, Algorithm::HS512];

#[test]
fn test_algorithm_from_str_hs256() {
    assert_eq!(Algorithm::from_str("HS256").unwrap(), Algorithm::HS256);
    assert_eq!(Algorithm::from_str("hs256").unwrap(), Algorithm::HS256);
}

#[test]
fn test_algorithm_from_str_hs384() {
    assert_eq!(Algorithm::from_str("HS384").unwrap(), Algorithm::HS384);
    assert_eq!(Algorithm::from_str("hs384").unwrap(), Algorithm::HS384);
}

#[test]
fn test_algorithm_from_str_hs512() {
    assert_eq!(Algorithm::from_str("HS512").unwrap(), Algorithm::HS512);
    assert_eq!(Algorithm::from_str("hs512").unwrap(), Algorithm::HS512);
}

#[test]
fn test_algorithm_from_str_defaults_to_hs512() {
    assert_eq!(Algorithm::from_str("unknown").unwrap(), Algorithm::HS512);
    assert_eq!(Algorithm::from_str("").unwrap(), Algorithm::HS512);
}

#[test]
fn test_algorithm_default() {
    assert_eq!(Algorithm::default(), Algorithm::HS512);
}

#[test]
fn test_algorithm_parse_ignores_case() {
    assert_eq!(Algorithm::parse("Hs256"), Algorithm::HS256);
    assert_eq!(Algorithm::parse("hS384"), Algorithm::HS384);
    assert_eq!(Algorithm::parse("HS256 "), Algorithm::HS512);
    assert_eq!(Algorithm::parse("RS256"), Algorithm::HS512);
}

#[test]
fn test_algorithm_from_upper_name_is_exact() {
    assert_eq!(Algorithm::from_upper_name("HS256"), Algorithm::HS256);
    assert_eq!(Algorithm::from_upper_name("HS384"), Algorithm::HS384);
    assert_eq!(Algorithm::from_upper_name("hs256"), Algorithm::HS512);
    assert_eq!(Algorithm::from_upper_name(""), Algorithm::HS512);
}

#[test]
fn test_protocol_constants() {
    assert_eq!(DEFAULT_STATE_HEADER, "Otoroshi-State");
    assert_eq!(DEFAULT_STATE_RESP_HEADER, "Otoroshi-State-Resp");
    assert_eq!(OTOROSHI_ISSUER, "Otoroshi");
    assert_eq!(DEFAULT_TOKEN_EXPIRY_SECONDS, 30);
    assert_eq!(CHALLENGE_LEEWAY_SECONDS, 10);
}

#[test]
fn test_protocol_new() {
    let protocol = OtoroshiProtocol::new(TEST_SECRET, Algorithm::HS256);
    assert_eq!(protocol.algo_in, Algorithm::HS256);
    assert_eq!(protocol.algo_out, Algorithm::HS256);
    assert_eq!(protocol.secret_in, TEST_SECRET);
    assert_eq!(protocol.secret_out, TEST_SECRET);
    assert_eq!(protocol.ttl, DEFAULT_TOKEN_EXPIRY_SECONDS);
}

#[test]
fn test_protocol_new_with_ttl() {
    let protocol = OtoroshiProtocol::new_with_ttl(TEST_SECRET, Algorithm::HS384, 60);
    assert_eq!(protocol.algo_in, Algorithm::HS384);
    assert_eq!(protocol.ttl, 60);
}

#[test]
fn test_protocol_new_asymmetric() {
    let secret_in = b"secret-in";
    let secret_out = b"secret-out";
    let protocol =
        OtoroshiProtocol::new_asymmetric(secret_in, Algorithm::HS256, secret_out, Algorithm::HS512);
    assert_eq!(protocol.algo_in, Algorithm::HS256);
    assert_eq!(protocol.algo_out, Algorithm::HS512);
    assert_eq!(protocol.secret_in, secret_in);
    assert_eq!(protocol.secret_out, secret_out);
}

#[test]
fn test_process_v1_echoes_state() {
    let protocol = OtoroshiProtocol::new(TEST_SECRET, Algorithm::HS512);
    assert_eq!(protocol.process_v1("test-state"), "test-state");
    assert_eq!(protocol.process_v1(""), "");
    assert_eq!(
        protocol.process_v1("special-chars-!@#$%"),
        "special-chars-!@#$%"
    );
}

#[test]
fn test_process_v1_keeps_header_unsafe_characters() {
    let protocol = OtoroshiProtocol::new(TEST_SECRET, Algorithm::HS256);
    assert_eq!(protocol.process_v1("a\r\nb: c\u{0}\u{e9}"), "a\r\nb: c\u{0}\u{e9}");
}

#[test]
fn test_create_response_token_success() {
    let protocol = OtoroshiProtocol::new(TEST_SECRET, Algorithm::HS512);
    let token = protocol.create_response_token("my-state").unwrap();
    let parts: Vec<&str> = token.split('.').collect();
    assert_eq!(parts.len(), 3);
}

#[test]
fn test_create_response_token_can_be_decoded() {
    let protocol = OtoroshiProtocol::new(TEST_SECRET, Algorithm::HS512);
    let token = protocol.create_response_token("my-state").unwrap();
    let claims = response_claims(Algorithm::HS512, TEST_SECRET, &token);
    assert_eq!(claims["state-resp"], "my-state");
    assert_eq!(claims["aud"], OTOROSHI_ISSUER);
    assert!(claims["exp"].as_i64().unwrap() > claims["iat"].as_i64().unwrap());
}

#[test]
fn test_create_response_token_respects_ttl() {
    let protocol = OtoroshiProtocol::new_with_ttl(TEST_SECRET, Algorithm::HS512, 120);
    let token = protocol.create_response_token("state").unwrap();
    let claims = response_claims(Algorithm::HS512, TEST_SECRET, &token);
    assert_eq!(
        claims["exp"].as_i64().unwrap() - claims["iat"].as_i64().unwrap(),
        120
    );
}

#[test]
fn test_create_response_token_at_has_exact_claims() {
    let protocol = OtoroshiProtocol::new_with_ttl(TEST_SECRET, Algorithm::HS384, 45);
    let now = Utc::now().timestamp();
    let token = protocol.create_response_token_at("s1", now).unwrap();
    let claims = response_claims(Algorithm::HS384, TEST_SECRET, &token);
    assert_eq!(claims["state-resp"], "s1");
    assert_eq!(claims["aud"], "Otoroshi");
    assert_eq!(claims["iat"].as_i64().unwrap(), now);
    assert_eq!(claims["nbf"].as_i64().unwrap(), now);
    assert_eq!(claims["exp"].as_i64().unwrap(), now + 45);
    assert_eq!(claims.as_object().unwrap().len(), 5);
}

#[test]
fn test_create_response_token_refuses_overflowing_ttl() {
    let protocol = OtoroshiProtocol::new_with_ttl(TEST_SECRET, Algorithm::HS512, i64::MAX);
    assert_eq!(
        protocol.create_response_token("state"),
        Err(ProtocolError::EncodingFailed)
    );
}

#[test]
fn test_verify_challenge_valid_token() {
    let protocol = OtoroshiProtocol::new(TEST_SECRET, Algorithm::HS512);
    let now = Utc::now().timestamp();
    let token = challenge(
        Algorithm::HS512,
        TEST_SECRET,
        Some("challenge-state"),
        Some(OTOROSHI_ISSUER),
        Some(now),
        Some(now + 60),
    );
    let state = protocol.verify_challenge(&token).unwrap();
    assert_eq!(state, "challenge-state");
}

#[test]
fn test_verify_challenge_invalid_signature() {
    let protocol = OtoroshiProtocol::new(TEST_SECRET, Algorithm::HS512);
    let token = challenge(
        Algorithm::HS512,
        b"wrong-secret",
        Some("state"),
        Some(OTOROSHI_ISSUER),
        None,
        Some(Utc::now().timestamp() + 60),
    );
    let result = protocol.verify_challenge(&token);
    assert!(result.is_err());
}

#[test]
fn test_verify_challenge_malformed_token() {
    let protocol = OtoroshiProtocol::new(TEST_SECRET, Algorithm::HS512);
    let result = protocol.verify_challenge("not-a-valid-jwt");
    assert!(result.is_err());
}

#[test]
fn test_verify_challenge_missing_issuer() {
    let protocol = OtoroshiProtocol::new(TEST_SECRET, Algorithm::HS512);
    let token = challenge(
        Algorithm::HS512,
        TEST_SECRET,
        Some("test"),
        None,
        None,
        Some(Utc::now().timestamp() + 60),
    );
    let result = protocol.verify_challenge(&token);
    assert!(result.is_err());
}

#[test]
fn test_verify_challenge_wrong_issuer() {
    let protocol = OtoroshiProtocol::new(TEST_SECRET, Algorithm::HS512);
    let token = challenge(
        Algorithm::HS512,
        TEST_SECRET,
        Some("test"),
        Some("NotOtoroshi"),
        None,
        Some(Utc::now().timestamp() + 60),
    );
    let result = protocol.verify_challenge(&token);
    assert!(result.is_err());
}

#[test]
fn test_verify_challenge_missing_expiration() {
    let protocol = OtoroshiProtocol::new(TEST_SECRET, Algorithm::HS512);
    let token = challenge(
        Algorithm::HS512,
        TEST_SECRET,
        Some("test"),
        Some(OTOROSHI_ISSUER),
        None,
        None,
    );
    let result = protocol.verify_challenge(&token);
    assert!(result.is_err());
}

#[test]
fn test_verify_challenge_missing_state() {
    let protocol = OtoroshiProtocol::new(TEST_SECRET, Algorithm::HS512);
    let token = challenge(
        Algorithm::HS512,
        TEST_SECRET,
        None,
        Some(OTOROSHI_ISSUER),
        None,
        Some(Utc::now().timestamp() + 60),
    );
    assert_eq!(
        protocol.verify_challenge(&token),
        Err(ProtocolError::VerificationFailed)
    );
}

#[test]
fn test_issuer_and_expiry_are_enforced_for_every_algorithm() {
    let now = 1_700_000_000;
    for algorithm in ALGORITHMS {
        let protocol = OtoroshiProtocol::new(TEST_SECRET, algorithm);
        let good = challenge(algorithm, TEST_SECRET, Some("s"), Some("Otoroshi"), None, Some(now));
        assert_eq!(protocol.verify_challenge_at(&good, now), Ok("s".to_string()));
        let no_iss = challenge(algorithm, TEST_SECRET, Some("s"), None, None, Some(now));
        let bad_iss = challenge(algorithm, TEST_SECRET, Some("s"), Some("otoroshi"), None, Some(now));
        let no_exp = challenge(algorithm, TEST_SECRET, Some("s"), Some("Otoroshi"), None, None);
        for token in [no_iss, bad_iss, no_exp] {
            assert_eq!(
                protocol.verify_challenge_at(&token, now),
                Err(ProtocolError::VerificationFailed)
            );
        }
    }
}

#[test]
fn test_process_v2_full_flow() {
    let protocol = OtoroshiProtocol::new(TEST_SECRET, Algorithm::HS512);
    let now = Utc::now().timestamp();
    let challenge_token = challenge(
        Algorithm::HS512,
        TEST_SECRET,
        Some("roundtrip-state"),
        Some(OTOROSHI_ISSUER),
        Some(now),
        Some(now + 60),
    );
    let response_token = protocol.process_v2(&challenge_token).unwrap();
    let claims = response_claims(Algorithm::HS512, TEST_SECRET, &response_token);
    assert_eq!(claims["state-resp"], "roundtrip-state");
}

#[test]
fn test_round_trip_for_every_algorithm_and_state() {
    let now = 1_800_000_000;
    for algorithm in ALGORITHMS {
        for state in ["", "plain", "with space and \"quotes\"", "\u{e9}t\u{e9}\n\t\u{1F600}"] {
            let protocol = OtoroshiProtocol::new_with_ttl(b"peer-key", algorithm, 30);
            let token = challenge(algorithm, b"peer-key", Some(state), Some("Otoroshi"), None, Some(now + 30));
            assert_eq!(protocol.verify_challenge_at(&token, now), Ok(state.to_string()));
            let response = protocol.process_v2_at(&token, now).unwrap();
            let claims = response_claims(algorithm, b"peer-key", &response);
            assert_eq!(claims["state-resp"], state);
            assert_eq!(claims["exp"].as_i64().unwrap(), now + 30);
        }
    }
}

#[test]
fn test_asymmetric_pairs_are_not_swapped() {
    let now = 1_800_000_000;
    let protocol =
        OtoroshiProtocol::new_asymmetric(b"in-key", Algorithm::HS256, b"out-key", Algorithm::HS384);
    let token = challenge(Algorithm::HS256, b"in-key", Some("st"), Some("Otoroshi"), None, Some(now));
    let response = protocol.process_v2_at(&token, now).unwrap();
    let claims = response_claims(Algorithm::HS384, b"out-key", &response);
    assert_eq!(claims["state-resp"], "st");
    let swapped = challenge(Algorithm::HS384, b"out-key", Some("st"), Some("Otoroshi"), None, Some(now));
    assert_eq!(
        protocol.process_v2_at(&swapped, now),
        Err(ProtocolError::VerificationFailed)
    );
}

#[test]
fn test_algorithms_are_independent() {
    let now = 1_800_000_000;
    for signer in ALGORITHMS {
        let token = challenge(signer, TEST_SECRET, Some("s"), Some("Otoroshi"), None, Some(now + 60));
        for verifier in ALGORITHMS {
            let protocol = OtoroshiProtocol::new(TEST_SECRET, verifier);
            let result = protocol.verify_challenge_at(&token, now);
            if signer == verifier {
                assert_eq!(result, Ok("s".to_string()));
            } else {
                assert_eq!(result, Err(ProtocolError::VerificationFailed));
            }
        }
    }
}

#[test]
fn test_create_and_verify_with_hs256() {
    let protocol = OtoroshiProtocol::new(TEST_SECRET, Algorithm::HS256);
    let token = protocol.create_response_token("state").unwrap();
    let mut validation = Validation::new(jsonwebtoken::Algorithm::HS256);
    validation.required_spec_claims.clear();
    validation.set_audience(&[OTOROSHI_ISSUER]);
    let result = decode::<Value>(&token, &DecodingKey::from_secret(TEST_SECRET), &validation);
    assert!(result.is_ok());
}

#[test]
fn test_create_and_verify_with_hs384() {
    let protocol = OtoroshiProtocol::new(TEST_SECRET, Algorithm::HS384);
    let token = protocol.create_response_token("state").unwrap();
    let mut validation = Validation::new(jsonwebtoken::Algorithm::HS384);
    validation.required_spec_claims.clear();
    validation.set_audience(&[OTOROSHI_ISSUER]);
    let result = decode::<Value>(&token, &DecodingKey::from_secret(TEST_SECRET), &validation);
    assert!(result.is_ok());
}

#[test]
fn test_verify_challenge_expired_within_leeway() {
    let protocol = OtoroshiProtocol::new(TEST_SECRET, Algorithm::HS512);
    let now = Utc::now().timestamp();
    let token = challenge(
        Algorithm::HS512,
        TEST_SECRET,
        Some("leeway-test"),
        Some(OTOROSHI_ISSUER),
        None,
        Some(now - 5),
    );
    let result = protocol.verify_challenge(&token);
    assert!(result.is_ok());
    assert_eq!(result.unwrap(), "leeway-test");
}

#[test]
fn test_verify_challenge_expired_beyond_leeway() {
    let protocol = OtoroshiProtocol::new(TEST_SECRET, Algorithm::HS512);
    let now = Utc::now().timestamp();
    let token = challenge(
        Algorithm::HS512,
        TEST_SECRET,
        Some("expired-test"),
        Some(OTOROSHI_ISSUER),
        None,
        Some(now - 15),
    );
    let result = protocol.verify_challenge(&token);
    assert!(result.is_err());
}

#[test]
fn test_leeway_boundary_is_inclusive() {
    let protocol = OtoroshiProtocol::new(TEST_SECRET, Algorithm::HS512);
    let now = 1_750_000_000;
    let at = |exp: i64| {
        let token = challenge(
            Algorithm::HS512,
            TEST_SECRET,
            Some("edge"),
            Some(OTOROSHI_ISSUER),
            None,
            Some(exp),
        );
        protocol.verify_challenge_at(&token, now)
    };
    assert_eq!(at(now - 5), Ok("edge".to_string()));
    assert_eq!(at(now - 9), Ok("edge".to_string()));
    assert_eq!(at(now - 10), Ok("edge".to_string()));
    assert_eq!(at(now - 11), Err(ProtocolError::VerificationFailed));
    assert_eq!(at(now - 15), Err(ProtocolError::VerificationFailed));
}

#[test]
fn test_accept_claims_rules() {
    let claims = |state: Option<&str>, exp: Option<u64>| ChallengeClaims {
        state: state.map(|s| s.to_string()),
        iss: Some("Otoroshi".to_string()),
        exp,
    };
    let accept = OtoroshiProtocol::accept_claims;
    assert_eq!(accept(&claims(Some("a"), Some(100)), 110), Ok("a".to_string()));
    assert_eq!(accept(&claims(Some("a"), Some(100)), 111), Err(ProtocolError::VerificationFailed));
    assert_eq!(accept(&claims(Some("a"), Some(0)), -5), Ok("a".to_string()));
    assert_eq!(accept(&claims(Some("a"), Some(u64::MAX)), i64::MAX), Ok("a".to_string()));
    assert_eq!(accept(&claims(Some("a"), Some(0)), i64::MAX), Err(ProtocolError::VerificationFailed));
    assert_eq!(accept(&claims(None, Some(100)), 0), Err(ProtocolError::VerificationFailed));
    assert_eq!(accept(&claims(Some("a"), None), 0), Err(ProtocolError::VerificationFailed));
}

#[test]
fn test_accept_claims_holds_the_issuer_to_the_constant() {
    let claims = |iss: Option<&str>| ChallengeClaims {
        state: Some("a".to_string()),
        iss: iss.map(|s| s.to_string()),
        exp: Some(100),
    };
    let accept = OtoroshiProtocol::accept_claims;
    assert_eq!(accept(&claims(Some("Otoroshi")), 100), Ok("a".to_string()));
    for wrong in [None, Some(""), Some("otoroshi"), Some("Otoroshi "), Some("NotOtoroshi")] {
        assert_eq!(accept(&claims(wrong), 100), Err(ProtocolError::VerificationFailed));
    }
}

#[test]
fn test_claims_in_another_form_are_not_taken() {
    let protocol = OtoroshiProtocol::new(TEST_SECRET, Algorithm::HS512);
    let now = 1_750_000_000;
    let sign = |claims: serde_json::Map<String, Value>| {
        encode(
            &Header::new(jsonwebtoken::Algorithm::HS512),
            &Value::Object(claims),
            &EncodingKey::from_secret(TEST_SECRET),
        )
        .unwrap()
    };
    let base = |iss: Value, exp: Value, state: Value| {
        let mut claims = serde_json::Map::new();
        claims.insert("state".to_string(), state);
        claims.insert("iss".to_string(), iss);
        claims.insert("exp".to_string(), exp);
        claims
    };
    let issuer = || Value::String("Otoroshi".to_string());
    let expiry = || Value::Number(Number::from(now + 60));
    let state = || Value::String("s".to_string());
    let good = sign(base(issuer(), expiry(), state()));
    assert_eq!(protocol.verify_challenge_at(&good, now), Ok("s".to_string()));
    let listed = sign(base(Value::Array(vec![issuer()]), expiry(), state()));
    assert_eq!(
        protocol.verify_challenge_at(&listed, now),
        Err(ProtocolError::VerificationFailed)
    );
    let text_expiry = sign(base(issuer(), Value::String("1750000060".to_string()), state()));
    assert_eq!(
        protocol.verify_challenge_at(&text_expiry, now),
        Err(ProtocolError::VerificationFailed)
    );
    let fraction = sign(base(
        issuer(),
        Value::Number(Number::from_f64(1_750_000_060.5).unwrap()),
        state(),
    ));
    assert_eq!(
        protocol.verify_challenge_at(&fraction, now),
        Err(ProtocolError::VerificationFailed)
    );
    let negative = sign(base(issuer(), Value::Number(Number::from(-1)), state()));
    assert_eq!(
        protocol.verify_challenge_at(&negative, -100),
        Err(ProtocolError::VerificationFailed)
    );
    let number_state = sign(base(issuer(), expiry(), Value::Number(Number::from(7))));
    assert_eq!(
        protocol.verify_challenge_at(&number_state, now),
        Err(ProtocolError::VerificationFailed)
    );
}

#[test]
fn test_protocol_error_messages() {
    assert_eq!(ProtocolError::VerificationFailed.message(), "JWT verification failed");
    assert_eq!(ProtocolError::EncodingFailed.message(), "Failed to create response token");
}
