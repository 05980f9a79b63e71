//! The signed-token primitives the challenge codec rests on. Signature
//! checking, signing, the clock and Unicode upper-casing are done by outside
//! code; this module gives each of them one entry point and says what the
//! rest of the library relies on.

use vstd::prelude::*;

verus! {

/// The HMAC variants a challenge token can be signed with. They differ only
/// in the width of the digest.
#[derive(Debug, Clone, Copy, PartialEq, Eq, Structural)]
pub enum Algorithm {
    HS256,
    HS384,
    HS512,
}

impl Algorithm {
    /// Width of the digest in bits.
    pub open spec fn bits(self) -> int {
        match self {
            Algorithm::HS256 => 256,
            Algorithm::HS384 => 384,
            Algorithm::HS512 => 512,
        }
    }
}

/// What a verified token carries for the challenge, read as the wire
/// contract gives it: the `state` claim where it is a string, the `iss`
/// claim where it is a string, and the `exp` claim where it is a whole,
/// non-negative number of seconds. A claim in another form counts as not
/// there: an issuer given as a list, or an expiry given as a fraction, is
/// not taken, on purpose.
#[derive(Debug, Clone)]
pub struct ChallengeClaims {
    pub state: Option<String>,
    pub iss: Option<String>,
    pub exp: Option<u64>,
}

impl ChallengeClaims {
    /// The claims as plain values: state, issuer, expiry.
    pub open spec fn plain(&self) -> (Option<Seq<char>>, Option<Seq<char>>, Option<u64>) {
        (
            match self.state {
                Some(s) => Some(s@),
                None => None,
            },
            match self.iss {
                Some(s) => Some(s@),
                None => None,
            },
            self.exp,
        )
    }
}

/// The claims of an outgoing response token.
#[derive(Debug, Clone)]
pub struct ResponseClaims {
    /// Sent as `state-resp`.
    pub state_resp: String,
    pub aud: String,
    pub iat: i64,
    pub nbf: i64,
    pub exp: i64,
}

impl ResponseClaims {
    /// The claims as plain values, in the order of the fields.
    pub open spec fn plain(&self) -> (Seq<char>, Seq<char>, i64, i64, i64) {
        (self.state_resp@, self.aud@, self.iat, self.nbf, self.exp)
    }
}

/// `jsonwebtoken::errors::Error`: why a token was refused or not built. It
/// is carried through and never looked into.
#[verifier::external_type_specification]
#[verifier::external_body]
pub struct ExTokenError(jsonwebtoken::errors::Error);

/// The claims that `jsonwebtoken::decode` hands back for `token` under an
/// HMAC secret and one allowed algorithm, with two claims required to be
/// present, the issuer held to `issuer` and no check against the clock:
/// state, issuer and expiry, each where it has the form that
/// `ChallengeClaims` takes. `None` where the decode refuses the token.
pub uninterp spec fn signed_claims(
    token: Seq<char>,
    secret: Seq<u8>,
    digest_bits: int,
    required_first: Seq<char>,
    required_second: Seq<char>,
    issuer: Seq<char>,
) -> Option<(Option<Seq<char>>, Option<Seq<char>>, Option<u64>)>;

/// The token that `jsonwebtoken::encode` builds from response claims under an
/// HMAC secret; `None` where it fails.
pub uninterp spec fn signed_token(
    digest_bits: int,
    secret: Seq<u8>,
    claims: (Seq<char>, Seq<char>, i64, i64, i64),
) -> Option<Seq<char>>;

/// What `str::to_uppercase` makes of a string.
pub uninterp spec fn uppercase(s: Seq<char>) -> Seq<char>;

/// Calls `jsonwebtoken::decode` on `token`. The validation allows the one
/// algorithm given, requires the two named claims, holds `iss` to `issuer`,
/// and leaves the audience and the expiry unchecked, so that the outcome
/// depends on the arguments alone. The contract claims two things. The
/// outcome is `signed_claims` of the arguments. And a token that is accepted
/// under one algorithm is refused under each of the two others, whatever the
/// secret, the required claims and the issuer: the decode refuses a token
/// whose header names an algorithm other than the one allowed, before it
/// looks at anything else. From an accepted token the `state`, `iss` and
/// `exp` claims are handed on.
#[verifier::external_body]
pub(crate) fn decode_signed(
    token: &str,
    secret: &[u8],
    algorithm: Algorithm,
    required_first: &str,
    required_second: &str,
    issuer: &str,
) -> (res: Result<ChallengeClaims, jsonwebtoken::errors::Error>)
    ensures
        match res {
            Ok(claims) => signed_claims(
                token@,
                secret@,
                algorithm.bits(),
                required_first@,
                required_second@,
                issuer@,
            ) == Some(claims.plain()),
            Err(_) => signed_claims(
                token@,
                secret@,
                algorithm.bits(),
                required_first@,
                required_second@,
                issuer@,
            ) is None,
        },
        res is Ok ==> forall|
            other_secret: Seq<u8>,
            other: Algorithm,
            first: Seq<char>,
            second: Seq<char>,
            other_issuer: Seq<char>,
        |
            other != algorithm ==> #[trigger] signed_claims(
                token@,
                other_secret,
                other.bits(),
                first,
                second,
                other_issuer,
            ) is None,
{
    let mut validation = jsonwebtoken::Validation::new(match algorithm {
        Algorithm::HS256 => jsonwebtoken::Algorithm::HS256,
        Algorithm::HS384 => jsonwebtoken::Algorithm::HS384,
        Algorithm::HS512 => jsonwebtoken::Algorithm::HS512,
    });
    validation.set_required_spec_claims(&[required_first, required_second]);
    validation.set_issuer(&[issuer]);
    validation.validate_aud = false;
    validation.validate_exp = false;
    let key = jsonwebtoken::DecodingKey::from_secret(secret);
    let claims = jsonwebtoken::decode::<serde_json::Value>(token, &key, &validation)?.claims;
    let text = |name: &str| claims.get(name).and_then(|v| v.as_str()).map(|s| s.to_string());
    let exp = claims.get("exp").and_then(|v| v.as_u64());
    Ok(ChallengeClaims { state: text("state"), iss: text("iss"), exp })
}

/// Calls `jsonwebtoken::encode` with a header for `algorithm`, the claims
/// as a JSON object and `secret` as the HMAC key. The contract claims only
/// that the outcome is `signed_token` of the arguments.
#[verifier::external_body]
pub(crate) fn encode_signed(algorithm: Algorithm, secret: &[u8], claims: &ResponseClaims) -> (res:
    Result<String, jsonwebtoken::errors::Error>)
    ensures
        match res {
            Ok(token) => signed_token(algorithm.bits(), secret@, claims.plain()) == Some(token@),
            Err(_) => signed_token(algorithm.bits(), secret@, claims.plain()) is None,
        },
{
    let header = jsonwebtoken::Header::new(match algorithm {
        Algorithm::HS256 => jsonwebtoken::Algorithm::HS256,
        Algorithm::HS384 => jsonwebtoken::Algorithm::HS384,
        Algorithm::HS512 => jsonwebtoken::Algorithm::HS512,
    });
    let mut object = serde_json::Map::new();
    object.insert("state-resp".to_string(), serde_json::Value::from(claims.state_resp.clone()));
    object.insert("aud".to_string(), serde_json::Value::from(claims.aud.clone()));
    object.insert("iat".to_string(), serde_json::Value::from(claims.iat));
    object.insert("nbf".to_string(), serde_json::Value::from(claims.nbf));
    object.insert("exp".to_string(), serde_json::Value::from(claims.exp));
    jsonwebtoken::encode(&header, &object, &jsonwebtoken::EncodingKey::from_secret(secret))
}

/// Calls `chrono::Utc::now` and takes its Unix timestamp in seconds. Nothing
/// is claimed of the value.
#[verifier::external_body]
pub(crate) fn current_timestamp() -> i64 {
    chrono::Utc::now().timestamp()
}

/// Calls `str::to_uppercase`; the result is `uppercase` of the argument.
#[verifier::external_body]
pub(crate) fn to_uppercase(s: &str) -> (res: String)
    ensures
        res@ == uppercase(s@),
{
    s.to_uppercase()
}

} // verus!
