use jsonwebtoken::{decode, encode, DecodingKey, EncodingKey, Header, Validation};
use otoroshictl::challenge::config::ProxyConfig;
use otoroshictl::challenge::server::{backend_headers, backend_rejection, BackendFailure, Rejection};
use otoroshictl::http_utils::Headers;
use otoroshictl::otoroshi::protocol::Algorithm;
use serde_json::{Number, Value};

const NOW: i64 = 1_760_000_000;

fn config(secret: Option<&str>, use_v1: bool, ttl: i64) -> ProxyConfig {
    ProxyConfig::new(
        8080,
        "127.0.0.1".to_string(),
        9000,
        secret.map(|s| s.to_string()),
        false,
        "Otoroshi-State".to_string(),
        "Otoroshi-State-Resp".to_string(),
        30,
        ttl,
        use_v1,
    )
    .unwrap()
}

fn challenge(algorithm: jsonwebtoken::Algorithm, secret: &str, state: &str, exp: i64) -> String {
    let mut claims = serde_json::Map::new();
    claims.insert("state".to_string(), Value::String(state.to_string()));
    claims.insert("iss".to_string(), Value::String("Otoroshi".to_string()));
    claims.insert("exp".to_string(), Value::Number(Number::from(exp)));
    encode(
        &Header::new(algorithm),
        &Value::Object(claims),
        &EncodingKey::from_secret(secret.as_bytes()),
    )
    .unwrap()
}

fn missing() -> Rejection {
    Rejection {
        status: 401,
        error: "Missing Otoroshi-State header".to_string(),
        details: None,
    }
}

#[test]
fn test_version_1_echoes_or_refuses() {
    let config = config(None, true, 30);
    assert_eq!(config.challenge_answer_at(Some("abc"), NOW), Ok("abc".to_string()));
    assert_eq!(config.challenge_answer_at(Some(""), NOW), Ok("".to_string()));
    assert_eq!(config.challenge_answer_at(None, NOW), Err(missing()));
    assert_eq!(config.challenge_answer(Some("abc")), Ok("abc".to_string()));
}

#[test]
fn test_version_2_needs_a_secret_first() {
    let config = config(None, false, 30);
    let refused = Rejection {
        status: 500,
        error: "Secret is required for V2 protocol".to_string(),
        details: None,
    };
    assert_eq!(config.challenge_answer_at(Some("abc"), NOW), Err(refused.clone()));
    assert_eq!(config.challenge_answer_at(None, NOW), Err(refused));
}

#[test]
fn test_version_2_fails_closed() {
    let config = config(Some("s3cret"), false, 30);
    assert_eq!(config.challenge_answer_at(None, NOW), Err(missing()));
    let invalid = Rejection {
        status: 401,
        error: "Invalid Otoroshi challenge".to_string(),
        details: Some("JWT verification failed".to_string()),
    };
    assert_eq!(config.challenge_answer_at(Some("garbage"), NOW), Err(invalid.clone()));
    let expired = challenge(jsonwebtoken::Algorithm::HS512, "s3cret", "s", NOW - 11);
    assert_eq!(config.challenge_answer_at(Some(&expired), NOW), Err(invalid.clone()));
    let other_key = challenge(jsonwebtoken::Algorithm::HS512, "other", "s", NOW + 60);
    assert_eq!(config.challenge_answer_at(Some(&other_key), NOW), Err(invalid.clone()));
    let other_algorithm = challenge(jsonwebtoken::Algorithm::HS256, "s3cret", "s", NOW + 60);
    assert_eq!(config.challenge_answer_at(Some(&other_algorithm), NOW), Err(invalid));
}

#[test]
fn test_version_2_answers_a_valid_challenge() {
    let config = config(Some("s3cret"), false, 45).with_algorithm(Algorithm::HS256);
    let token = challenge(jsonwebtoken::Algorithm::HS256, "s3cret", "the-state", NOW + 60);
    let answer = config.challenge_answer_at(Some(&token), NOW).unwrap();
    let mut validation = Validation::new(jsonwebtoken::Algorithm::HS256);
    validation.required_spec_claims.clear();
    validation.validate_exp = false;
    validation.set_audience(&["Otoroshi"]);
    let claims = decode::<Value>(&answer, &DecodingKey::from_secret(b"s3cret"), &validation)
        .unwrap()
        .claims;
    assert_eq!(claims["state-resp"], "the-state");
    assert_eq!(claims["iat"].as_i64().unwrap(), NOW);
    assert_eq!(claims["exp"].as_i64().unwrap(), NOW + 45);
}

#[test]
fn test_version_2_with_a_lifetime_past_the_last_timestamp() {
    let config = config(Some("s3cret"), false, i64::MAX);
    let token = challenge(jsonwebtoken::Algorithm::HS512, "s3cret", "s", NOW + 60);
    assert_eq!(
        config.challenge_answer_at(Some(&token), NOW),
        Err(Rejection {
            status: 401,
            error: "Invalid Otoroshi challenge".to_string(),
            details: Some("Failed to create response token".to_string()),
        })
    );
    assert_eq!(
        config.challenge_answer_at(Some("garbage"), NOW),
        Err(Rejection {
            status: 401,
            error: "Invalid Otoroshi challenge".to_string(),
            details: Some("JWT verification failed".to_string()),
        })
    );
}

#[test]
fn test_backend_uri_and_headers() {
    let config = config(None, true, 30);
    assert_eq!(config.backend_uri(None), "http://127.0.0.1:9000/");
    assert_eq!(config.backend_uri(Some("/a?b=c")), "http://127.0.0.1:9000/a?b=c");
    let request: Headers = vec![
        ("Host".to_string(), "front".to_string()),
        ("Otoroshi-State".to_string(), "s".to_string()),
        ("Connection".to_string(), "keep-alive".to_string()),
    ];
    assert_eq!(
        backend_headers(&request),
        vec![("Otoroshi-State".to_string(), "s".to_string())]
    );
}

#[test]
fn test_backend_failures() {
    assert_eq!(
        backend_rejection(BackendFailure::Unavailable("Connection refused".to_string())),
        Rejection {
            status: 502,
            error: "Backend unavailable".to_string(),
            details: Some("Connection refused".to_string()),
        }
    );
    assert_eq!(
        backend_rejection(BackendFailure::TimedOut),
        Rejection {
            status: 504,
            error: "Backend request timed out".to_string(),
            details: None,
        }
    );
    assert_eq!(
        backend_rejection(BackendFailure::InvalidRequest("why".to_string())),
        Rejection {
            status: 500,
            error: "Failed to build request".to_string(),
            details: Some("why".to_string()),
        }
    );
    assert_eq!(
        backend_rejection(BackendFailure::InvalidUri("bad".to_string())),
        Rejection {
            status: 500,
            error: "Invalid backend URI".to_string(),
            details: Some("bad".to_string()),
        }
    );
}
