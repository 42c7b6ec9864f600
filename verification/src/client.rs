//! Tokens, claims, and the login request payload.
//!
//! The HTTP exchange itself is an external collaborator; what stands here is
//! the data it carries: the token the provider returns, the expiration claim
//! decoded out of it, and the claim signed into a login assertion.

use crate::error::Error;
use vstd::prelude::*;
use vstd::string::StringExecFns;

verus! {

/// An authentication token retrieved from the identity provider.
///
/// `token` holds the exact string the provider issued; this exact byte
/// sequence is what gets persisted and presented downstream.  A token is
/// immutable once constructed: a new login always produces a new value.
#[derive(Debug)]
pub struct AuthenticationToken {
    /// The actual authentication token.
    pub token: String,
}

/// The decoded claim from an authentication token.
///
/// `exp` is the expiration instant of the token, in seconds since the Unix
/// epoch.
#[derive(Debug)]
pub struct AuthenticationClaim {
    /// The expiration time of the authentication token.
    pub exp: i64,
}

/// What the claim decoder yields for a given token string: the numeric
/// expiry claim embedded in its payload, or nothing when the claim structure
/// cannot be parsed or the expiry field is absent or non-numeric.  The value
/// depends on the token string alone.
pub uninterp spec fn exp_claim_of(s: Seq<char>) -> Option<int>;

/// Relies on jsonwebtoken::dangerous_insecure_decode, together with
/// serde_json::Value::get and Value::as_i64, to parse the token's payload
/// without a signature check and read its numeric `exp` claim; the result is
/// a function of the token string alone.
#[verifier::external_body]
fn decode_exp_claim(token: &str) -> (r: Option<i64>)
    ensures
        match r {
            Option::Some(v) => exp_claim_of(token@) == Option::Some(v as int),
            Option::None => exp_claim_of(token@) is None,
        },
{
    match jsonwebtoken::dangerous_insecure_decode::<serde_json::Value>(token) {
        Ok(data) => data.claims.get("exp").and_then(|v| v.as_i64()),
        Err(_) => None,
    }
}

/// The detail text of the error a failed claim decode produces.
pub open spec fn decode_failure_detail() -> Seq<char> {
    "could not decode the expiration claim"@
}

impl AuthenticationToken {
    /// Decodes the expiration claim out of the token.
    ///
    /// The token's signature is deliberately not verified: the daemon
    /// obtained the token directly from the provider over an authenticated
    /// channel and trusts it for the single purpose of learning its own
    /// expiry.
    pub fn claim(&self) -> (r: Result<AuthenticationClaim, Error>)
        ensures
            match r {
                Result::Ok(c) => exp_claim_of(self.token@) == Option::Some(c.exp as int),
                Result::Err(e) => {
                    &&& exp_claim_of(self.token@) is None
                    &&& e matches Error::Jwt(m) && m@ == decode_failure_detail()
                },
            },
    {
        match decode_exp_claim(self.token.as_str()) {
            Option::Some(exp) => Result::Ok(AuthenticationClaim { exp }),
            Option::None => Result::Err(
                Error::Jwt(String::from_str("could not decode the expiration claim")),
            ),
        }
    }
}

/// How many seconds past `now` a login assertion stays valid.
pub const LOGIN_CLAIM_VALIDITY_SECS: u64 = 1000;

/// The fixed service user id presented at login.
pub open spec fn spec_login_uid() -> Seq<char> {
    "strict-usi"@
}

/// The claim signed into a login assertion.
#[derive(Debug)]
pub struct Claim {
    /// The service user id.
    pub uid: String,
    /// Unix timestamp when the login assertion expires.
    pub exp: u64,
}

/// Builds the claim for a login assertion: the fixed service user id, with
/// an expiry one validity window past `now`.
pub fn login_claim(now: u64) -> (r: Claim)
    requires
        now + LOGIN_CLAIM_VALIDITY_SECS <= u64::MAX,
    ensures
        r.uid@ == spec_login_uid(),
        r.exp == now + LOGIN_CLAIM_VALIDITY_SECS,
{
    Claim { uid: String::from_str("strict-usi"), exp: now + LOGIN_CLAIM_VALIDITY_SECS }
}

/// The request body sent to the login endpoint.
#[derive(Debug)]
pub struct LoginRequestBody {
    /// The service user id.
    pub uid: String,
    /// The signed login assertion.
    pub token: String,
}

/// Pairs the claim's user id with the signed assertion, exactly as the login
/// endpoint expects them.
pub fn login_request_body(claim: &Claim, signed_token: String) -> (r: LoginRequestBody)
    ensures
        r.uid@ == claim.uid@,
        r.token@ == signed_token@,
{
    LoginRequestBody { uid: claim.uid.clone(), token: signed_token }
}

} // verus!
