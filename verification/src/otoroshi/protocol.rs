//! The challenge/response codec of the mesh. Version 1 echoes the caller's
//! state; version 2 verifies a signed token that carries the state and
//! answers with a freshly signed token that echoes it.

use vstd::prelude::*;
use vstd::slice::slice_to_vec;
use crate::utils::text::str_eq;
use crate::otoroshi::token::{
    current_timestamp, decode_signed, encode_signed, signed_claims, signed_token, to_uppercase,
    uppercase, ChallengeClaims, ResponseClaims,
};
pub use crate::otoroshi::token::Algorithm;

verus! {

/// Default name of the header that carries the incoming challenge.
pub const DEFAULT_STATE_HEADER: &'static str = "Otoroshi-State";

/// Default name of the header that carries the response.
pub const DEFAULT_STATE_RESP_HEADER: &'static str = "Otoroshi-State-Resp";

/// The issuer every challenge token must name, and the audience of every
/// response token.
pub const OTOROSHI_ISSUER: &'static str = "Otoroshi";

/// Lifetime of a response token in seconds, unless configured.
pub const DEFAULT_TOKEN_EXPIRY_SECONDS: i64 = 30;

/// Clock skew, in seconds, tolerated when a challenge token's expiry is
/// checked.
pub const CHALLENGE_LEEWAY_SECONDS: i64 = 10;

/// The algorithm that an upper-cased name stands for. Any name but `HS256`
/// and `HS384` stands for the strongest variant.
pub open spec fn algorithm_of_name(upper: Seq<char>) -> Algorithm {
    if upper == "HS256"@ {
        Algorithm::HS256
    } else if upper == "HS384"@ {
        Algorithm::HS384
    } else {
        Algorithm::HS512
    }
}

impl Algorithm {
    /// The algorithm named by `upper`, which is taken as it stands.
    pub fn from_upper_name(upper: &str) -> (res: Algorithm)
        ensures
            res == algorithm_of_name(upper@),
    {
        if str_eq(upper, "HS256") {
            Algorithm::HS256
        } else if str_eq(upper, "HS384") {
            Algorithm::HS384
        } else {
            Algorithm::HS512
        }
    }

    /// The algorithm named by a configuration string, whatever its case.
    /// Never fails: an unrecognised name selects `HS512`.
    pub fn parse(s: &str) -> (res: Algorithm)
        ensures
            res == algorithm_of_name(uppercase(s@)),
    {
        let upper = to_uppercase(s);
        Algorithm::from_upper_name(upper.as_str())
    }
}

impl Default for Algorithm {
    fn default() -> (res: Algorithm)
        ensures
            res == Algorithm::HS512,
    {
        Algorithm::HS512
    }
}

impl core::str::FromStr for Algorithm {
    type Err = core::convert::Infallible;

    /// The algorithm named by a configuration string, whatever its case.
    /// Always succeeds: an unrecognised name selects `HS512`.
    fn from_str(s: &str) -> (res: Result<Algorithm, core::convert::Infallible>)
        ensures
            res is Ok,
            res.unwrap() == algorithm_of_name(uppercase(s@)),
    {
        Ok(Algorithm::parse(s))
    }
}

/// Why a version 2 exchange failed. A failed verification says no more than
/// that: which check refused the token is not told.
#[derive(Debug, Clone, Copy, PartialEq, Eq, Structural)]
pub enum ProtocolError {
    /// The challenge token was refused.
    VerificationFailed,
    /// The response token could not be built.
    EncodingFailed,
}

impl ProtocolError {
    /// A message for logs and error bodies.
    pub fn message(&self) -> (res: String)
        ensures
            res@ == match self {
                ProtocolError::VerificationFailed => "JWT verification failed"@,
                ProtocolError::EncodingFailed => "Failed to create response token"@,
            },
    {
        match self {
            ProtocolError::VerificationFailed => "JWT verification failed".to_string(),
            ProtocolError::EncodingFailed => "Failed to create response token".to_string(),
        }
    }
}

/// A token that expires at `exp` is still accepted at `now`: the expiry lies
/// no more than the leeway in the past. The boundary is inclusive.
pub open spec fn expiry_accepted(exp: u64, now: i64) -> bool {
    exp as int + CHALLENGE_LEEWAY_SECONDS as int >= now as int
}

/// The state that verified claims yield at `now`: the state is there, the
/// issuer is there and is the one every challenge must name, the expiry is
/// there and is accepted.
pub open spec fn accepted_state(
    claims: (Option<Seq<char>>, Option<Seq<char>>, Option<u64>),
    now: i64,
) -> Option<Seq<char>> {
    match claims {
        (Some(state), Some(iss), Some(exp)) => if iss == OTOROSHI_ISSUER@ && expiry_accepted(
            exp,
            now,
        ) {
            Some(state)
        } else {
            None
        },
        _ => None,
    }
}

/// `now + ttl` is a timestamp.
pub open spec fn expiry_fits(now: i64, ttl: i64) -> bool {
    i64::MIN <= now + ttl <= i64::MAX
}

/// The claims of the response to `state`, issued at `now` for `ttl` seconds.
pub open spec fn response_claims(state: Seq<char>, now: i64, ttl: i64) -> (
    Seq<char>,
    Seq<char>,
    i64,
    i64,
    i64,
) {
    (state, OTOROSHI_ISSUER@, now, now, (now + ttl) as i64)
}

/// One side's challenge settings: what incoming tokens are verified with,
/// what outgoing tokens are signed with, and how long a response lives.
#[derive(Debug, Clone)]
pub struct OtoroshiProtocol {
    /// Algorithm of incoming tokens.
    pub algo_in: Algorithm,
    /// Secret of incoming tokens.
    pub secret_in: Vec<u8>,
    /// Algorithm of outgoing tokens.
    pub algo_out: Algorithm,
    /// Secret of outgoing tokens.
    pub secret_out: Vec<u8>,
    /// Lifetime of a response token in seconds.
    pub ttl: i64,
}

/// The state that a challenge token yields at `now` under a secret and an
/// algorithm: the token passes the signature check, names the issuer,
/// carries an expiry that is accepted at `now`, and carries a state.
/// Every other token is refused, with one and the same error.
pub open spec fn verified_state(
    secret: Seq<u8>,
    algorithm: Algorithm,
    token: Seq<char>,
    now: i64,
) -> Result<Seq<char>, ProtocolError> {
    match signed_claims(token, secret, algorithm.bits(), "exp"@, "iss"@, OTOROSHI_ISSUER@) {
        Some(claims) => match accepted_state(claims, now) {
            Some(state) => Ok(state),
            None => Err(ProtocolError::VerificationFailed),
        },
        None => Err(ProtocolError::VerificationFailed),
    }
}

/// The response token for `state`, issued at `now` for `ttl` seconds and
/// signed with a secret and an algorithm.
pub open spec fn response_token(
    secret: Seq<u8>,
    algorithm: Algorithm,
    ttl: i64,
    state: Seq<char>,
    now: i64,
) -> Result<Seq<char>, ProtocolError> {
    match signed_token(algorithm.bits(), secret, response_claims(state, now, ttl)) {
        Some(token) => Ok(token),
        None => Err(ProtocolError::EncodingFailed),
    }
}

/// What version 2 makes of `token` at `now`: the challenge is verified with
/// the incoming pair, and the response to its state is signed with the
/// outgoing pair. A verified challenge whose response would expire past the
/// last timestamp gets no response token.
pub open spec fn exchange(
    secret_in: Seq<u8>,
    algo_in: Algorithm,
    secret_out: Seq<u8>,
    algo_out: Algorithm,
    ttl: i64,
    token: Seq<char>,
    now: i64,
) -> Result<Seq<char>, ProtocolError> {
    match verified_state(secret_in, algo_in, token, now) {
        Ok(state) => if expiry_fits(now, ttl) {
            response_token(secret_out, algo_out, ttl, state, now)
        } else {
            Err(ProtocolError::EncodingFailed)
        },
        Err(e) => Err(e),
    }
}

/// The expiry of a challenge is checked with a leeway of ten seconds, and
/// the boundary belongs to the accepted side: a token that names the issuer
/// is accepted up to and including the tenth second after its expiry and
/// refused from the eleventh on.
pub proof fn lemma_leeway_boundary(state: Seq<char>, exp: u64, now: i64)
    ensures
        now - exp <= 10 ==> accepted_state(
            (Some(state), Some(OTOROSHI_ISSUER@), Some(exp)),
            now,
        ) == Some(state),
        now - exp >= 11 ==> accepted_state(
            (Some(state), Some(OTOROSHI_ISSUER@), Some(exp)),
            now,
        ) is None,
{
}

/// Claims without an issuer, with another issuer, without an expiry or
/// without a state are refused at any time, whatever else they hold.
pub proof fn lemma_issuer_and_expiry_are_required(
    state: Option<Seq<char>>,
    iss: Option<Seq<char>>,
    exp: Option<u64>,
    now: i64,
)
    ensures
        iss is None ==> accepted_state((state, iss, exp), now) is None,
        iss != Some(OTOROSHI_ISSUER@) ==> accepted_state((state, iss, exp), now) is None,
        exp is None ==> accepted_state((state, iss, exp), now) is None,
        state is None ==> accepted_state((state, iss, exp), now) is None,
{
}

/// A token that verifies under one algorithm is refused under each of the
/// two others, at any time and with any secret: to share the secret is not
/// enough.
pub open spec fn refused_under_other_algorithms(token: Seq<char>, algorithm: Algorithm) -> bool {
    forall|secret: Seq<u8>, other: Algorithm, at: i64|
        other != algorithm ==> #[trigger] verified_state(secret, other, token, at) is Err
}

/// A token that is accepted at one time is accepted at every earlier time,
/// with the same state.
pub proof fn lemma_accepted_earlier(
    secret: Seq<u8>,
    algorithm: Algorithm,
    token: Seq<char>,
    now: i64,
    earlier: i64,
)
    requires
        earlier <= now,
        verified_state(secret, algorithm, token, now) is Ok,
    ensures
        verified_state(secret, algorithm, token, earlier) == verified_state(
            secret,
            algorithm,
            token,
            now,
        ),
{
}

/// Version 2 answers a challenge with a token that is signed with the
/// outgoing pair and whose claims carry the very state that the challenge
/// was verified to carry.
pub proof fn lemma_response_echoes_state(
    secret_in: Seq<u8>,
    algo_in: Algorithm,
    secret_out: Seq<u8>,
    algo_out: Algorithm,
    ttl: i64,
    token: Seq<char>,
    now: i64,
)
    requires
        expiry_fits(now, ttl),
    ensures
        match verified_state(secret_in, algo_in, token, now) {
            Ok(state) => exchange(secret_in, algo_in, secret_out, algo_out, ttl, token, now)
                == response_token(secret_out, algo_out, ttl, state, now) && response_claims(
                state,
                now,
                ttl,
            ).0 == state && response_claims(state, now, ttl).1 == OTOROSHI_ISSUER@
                && response_claims(state, now, ttl).4 == now + ttl,
            Err(e) => exchange(secret_in, algo_in, secret_out, algo_out, ttl, token, now) == Err::<
                Seq<char>,
                ProtocolError,
            >(ProtocolError::VerificationFailed),
        },
{
}

impl OtoroshiProtocol {
    /// What `verify_challenge` returns for `token` at `now`.
    pub open spec fn verified(&self, token: Seq<char>, now: i64) -> Result<Seq<char>, ProtocolError> {
        verified_state(self.secret_in@, self.algo_in, token, now)
    }

    /// What `create_response_token` returns for `state` at `now`.
    pub open spec fn response(&self, state: Seq<char>, now: i64) -> Result<Seq<char>, ProtocolError> {
        response_token(self.secret_out@, self.algo_out, self.ttl, state, now)
    }

    /// What `process_v2` returns for `token` at `now`.
    pub open spec fn answered(&self, token: Seq<char>, now: i64) -> Result<Seq<char>, ProtocolError> {
        match self.verified(token, now) {
            Ok(state) => self.response(state, now),
            Err(e) => Err(e),
        }
    }

    /// What version 2 makes of `token` at `now`, whatever the lifetime.
    pub open spec fn outcome(&self, token: Seq<char>, now: i64) -> Result<Seq<char>, ProtocolError> {
        exchange(
            self.secret_in@,
            self.algo_in,
            self.secret_out@,
            self.algo_out,
            self.ttl,
            token,
            now,
        )
    }

    /// One secret and one algorithm for both directions, with the default
    /// lifetime.
    pub fn new(secret: &[u8], algorithm: Algorithm) -> (res: OtoroshiProtocol)
        ensures
            res.algo_in == algorithm,
            res.algo_out == algorithm,
            res.secret_in@ == secret@,
            res.secret_out@ == secret@,
            res.ttl == DEFAULT_TOKEN_EXPIRY_SECONDS,
    {
        OtoroshiProtocol {
            algo_in: algorithm,
            secret_in: slice_to_vec(secret),
            algo_out: algorithm,
            secret_out: slice_to_vec(secret),
            ttl: DEFAULT_TOKEN_EXPIRY_SECONDS,
        }
    }

    /// One secret and one algorithm for both directions, with a lifetime.
    pub fn new_with_ttl(secret: &[u8], algorithm: Algorithm, ttl: i64) -> (res: OtoroshiProtocol)
        ensures
            res.algo_in == algorithm,
            res.algo_out == algorithm,
            res.secret_in@ == secret@,
            res.secret_out@ == secret@,
            res.ttl == ttl,
    {
        OtoroshiProtocol {
            algo_in: algorithm,
            secret_in: slice_to_vec(secret),
            algo_out: algorithm,
            secret_out: slice_to_vec(secret),
            ttl,
        }
    }

    /// A secret and an algorithm for each direction, with the default
    /// lifetime. The incoming pair verifies, the outgoing pair signs.
    pub fn new_asymmetric(
        secret_in: &[u8],
        algo_in: Algorithm,
        secret_out: &[u8],
        algo_out: Algorithm,
    ) -> (res: OtoroshiProtocol)
        ensures
            res.algo_in == algo_in,
            res.algo_out == algo_out,
            res.secret_in@ == secret_in@,
            res.secret_out@ == secret_out@,
            res.ttl == DEFAULT_TOKEN_EXPIRY_SECONDS,
    {
        OtoroshiProtocol {
            algo_in,
            secret_in: slice_to_vec(secret_in),
            algo_out,
            secret_out: slice_to_vec(secret_out),
            ttl: DEFAULT_TOKEN_EXPIRY_SECONDS,
        }
    }

    /// Version 1: the response is the state as it came.
    pub fn process_v1(&self, state: &str) -> (res: String)
        ensures
            res@ == state@,
    {
        state.to_string()
    }

    /// The state carried by claims whose token passed the signature, issuer
    /// and presence checks, as far as the clock allows at `now`.
    pub fn accept_claims(claims: &ChallengeClaims, now: i64) -> (res: Result<String, ProtocolError>)
        ensures
            match res {
                Ok(state) => accepted_state(claims.plain(), now) == Some(state@),
                Err(e) => e == ProtocolError::VerificationFailed && accepted_state(
                    claims.plain(),
                    now,
                ) is None,
            },
    {
        match (&claims.state, &claims.iss, claims.exp) {
            (Some(state), Some(iss), Some(exp)) => {
                let fresh = now < 0 || exp >= i64::MAX as u64 || exp as i64 >= now
                    - CHALLENGE_LEEWAY_SECONDS;
                if fresh && str_eq(iss.as_str(), OTOROSHI_ISSUER) {
                    Ok(state.clone())
                } else {
                    Err(ProtocolError::VerificationFailed)
                }
            },
            _ => Err(ProtocolError::VerificationFailed),
        }
    }

    /// Verifies a challenge token against the clock reading `now` and yields
    /// its state.
    pub fn verify_challenge_at(&self, token: &str, now: i64) -> (res: Result<String, ProtocolError>)
        ensures
            match res {
                Ok(state) => self.verified(token@, now) == Ok::<Seq<char>, ProtocolError>(state@),
                Err(e) => self.verified(token@, now) == Err::<Seq<char>, ProtocolError>(e),
            },
            res is Ok ==> refused_under_other_algorithms(token@, self.algo_in),
    {
        match decode_signed(
            token,
            self.secret_in.as_slice(),
            self.algo_in,
            "exp",
            "iss",
            OTOROSHI_ISSUER,
        ) {
            Ok(claims) => OtoroshiProtocol::accept_claims(&claims, now),
            Err(_) => Err(ProtocolError::VerificationFailed),
        }
    }

    /// Verifies a challenge token against the system clock.
    pub fn verify_challenge(&self, token: &str) -> (res: Result<String, ProtocolError>)
        ensures
            res is Ok ==> refused_under_other_algorithms(token@, self.algo_in),
            exists|now: i64|
                match res {
                    Ok(state) => #[trigger] self.verified(token@, now) == Ok::<
                        Seq<char>,
                        ProtocolError,
                    >(state@),
                    Err(e) => self.verified(token@, now) == Err::<Seq<char>, ProtocolError>(e),
                },
    {
        let now = current_timestamp();
        self.verify_challenge_at(token, now)
    }

    /// Signs the response to `state`, issued at `now`.
    pub fn create_response_token_at(&self, state: &str, now: i64) -> (res: Result<
        String,
        ProtocolError,
    >)
        requires
            expiry_fits(now, self.ttl),
        ensures
            match res {
                Ok(token) => self.response(state@, now) == Ok::<Seq<char>, ProtocolError>(token@),
                Err(e) => self.response(state@, now) == Err::<Seq<char>, ProtocolError>(e),
            },
    {
        let claims = ResponseClaims {
            state_resp: state.to_string(),
            aud: OTOROSHI_ISSUER.to_string(),
            iat: now,
            nbf: now,
            exp: now + self.ttl,
        };
        match encode_signed(self.algo_out, self.secret_out.as_slice(), &claims) {
            Ok(token) => Ok(token),
            Err(_) => Err(ProtocolError::EncodingFailed),
        }
    }

    /// Signs the response to `state`, issued at the system clock's reading.
    /// Where the lifetime carries the expiry past the last timestamp, no
    /// token is built.
    pub fn create_response_token(&self, state: &str) -> (res: Result<String, ProtocolError>)
        ensures
            exists|now: i64|
                if #[trigger] expiry_fits(now, self.ttl) {
                    match res {
                        Ok(token) => self.response(state@, now) == Ok::<Seq<char>, ProtocolError>(
                            token@,
                        ),
                        Err(e) => self.response(state@, now) == Err::<Seq<char>, ProtocolError>(e),
                    }
                } else {
                    res == Err::<String, ProtocolError>(ProtocolError::EncodingFailed)
                },
    {
        let now = current_timestamp();
        match now.checked_add(self.ttl) {
            Some(_) => {
                let res = self.create_response_token_at(state, now);
                assert(expiry_fits(now, self.ttl));
                res
            },
            None => {
                assert(!expiry_fits(now, self.ttl));
                Err(ProtocolError::EncodingFailed)
            },
        }
    }

    /// Version 2 at the clock reading `now`: verify the challenge, then sign
    /// the response to its state.
    pub fn process_v2_at(&self, token: &str, now: i64) -> (res: Result<String, ProtocolError>)
        requires
            expiry_fits(now, self.ttl),
        ensures
            match res {
                Ok(out) => self.answered(token@, now) == Ok::<Seq<char>, ProtocolError>(out@),
                Err(e) => self.answered(token@, now) == Err::<Seq<char>, ProtocolError>(e),
            },
    {
        match self.verify_challenge_at(token, now) {
            Ok(state) => self.create_response_token_at(state.as_str(), now),
            Err(e) => Err(e),
        }
    }

    /// Version 2 at the clock reading `now`, for any lifetime.
    pub fn try_process_v2_at(&self, token: &str, now: i64) -> (res: Result<String, ProtocolError>)
        ensures
            match res {
                Ok(out) => self.outcome(token@, now) == Ok::<Seq<char>, ProtocolError>(out@),
                Err(e) => self.outcome(token@, now) == Err::<Seq<char>, ProtocolError>(e),
            },
    {
        match now.checked_add(self.ttl) {
            Some(_) => self.process_v2_at(token, now),
            None => match self.verify_challenge_at(token, now) {
                Ok(_) => Err(ProtocolError::EncodingFailed),
                Err(e) => Err(e),
            },
        }
    }

    /// Version 2 at the system clock's reading.
    pub fn process_v2(&self, token: &str) -> (res: Result<String, ProtocolError>)
        ensures
            exists|now: i64|
                match res {
                    Ok(out) => #[trigger] self.outcome(token@, now) == Ok::<
                        Seq<char>,
                        ProtocolError,
                    >(out@),
                    Err(e) => self.outcome(token@, now) == Err::<Seq<char>, ProtocolError>(e),
                },
    {
        let now = current_timestamp();
        self.try_process_v2_at(token, now)
    }
}

} // verus!
