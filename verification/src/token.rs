//! Bearer-token verification: structure and HS256 signature against the
//! server's decoding key, plus an expiry check against an explicitly passed
//! clock, so that verification itself reads no ambient time.

use vstd::prelude::*;
use jwt_compact::alg::{Hs256, Hs256Key};
use jwt_compact::{AlgorithmExt, UntrustedToken};
use serde_json::Value;
use crate::errors::AuthError;

verus! {

/// The claims the gateway reads from an end-user bearer token. A token may
/// carry more (an expiry, its own permission list); the policy only ever
/// reads the client identifier and the embedded secret, because the secret
/// store is authoritative for permissions.
#[derive(Debug)]
pub struct Claims {
    pub client_id: String,
    pub client_secret: String,
}

/// What HS256 verification of `token` under `key` yields: `None` when the
/// token is malformed, its signature does not match `key`, or the payload
/// lacks the client claims; otherwise the embedded client identifier, client
/// secret, and the expiry timestamp if the token carries one. jwt-compact's
/// validator reads no clock and no other ambient state, so this is a
/// function of the key and the token text alone.
pub uninterp spec fn hs256_token_claims(key: Seq<char>, token: Seq<char>) -> Option<
    (Seq<char>, Seq<char>, Option<int>),
>;

/// The decoded view of an exec decoding result, for stating
/// [`hs256_token_claims`] of it.
pub open spec fn decoded_claims_view(r: Option<(Claims, Option<i64>)>) -> Option<
    (Seq<char>, Seq<char>, Option<int>),
> {
    match r {
        None => None,
        Some((c, e)) => Some(
            (
                c.client_id@,
                c.client_secret@,
                match e {
                    None => None,
                    Some(t) => Some(t as int),
                },
            ),
        ),
    }
}

/// Relies on jwt-compact's `Hs256` validator: `validate` accepts a token
/// only when it parses as a JWT, names the HS256 algorithm, and its
/// signature matches the key; it reads no clock, so the decoded claims
/// depend on the key and the token text alone. The expiry is handed back
/// untested; callers check it against their own clock.
#[verifier::external_body]
fn decode_client_token(key: &String, token: &String) -> (r: Option<(Claims, Option<i64>)>)
    ensures
        decoded_claims_view(r) == hs256_token_claims(key@, token@),
{
    let parsed = UntrustedToken::new(token.as_str()).ok()?;
    let verified = Hs256.validator::<Value>(&Hs256Key::new(key.as_bytes())).validate(
        &parsed,
    ).ok()?;
    let claims = verified.claims();
    let client_id = claims.custom.get("client_id")?.as_str()?.to_string();
    let client_secret = claims.custom.get("client_secret")?.as_str()?.to_string();
    let expiry = claims.expiration.map(|t| t.timestamp());
    Some((Claims { client_id, client_secret }, expiry))
}

/// The outcome of verifying `token` under `key` at instant `now`: the client
/// identifier and secret when the token is well signed and not expired,
/// `InvalidToken` otherwise.
pub open spec fn spec_verify_token(key: Seq<char>, token: Seq<char>, now: int) -> Result<
    (Seq<char>, Seq<char>),
    AuthError,
> {
    match hs256_token_claims(key, token) {
        None => Err(AuthError::InvalidToken),
        Some((id, secret, exp)) => match exp {
            Some(t) => if t <= now {
                Err(AuthError::InvalidToken)
            } else {
                Ok((id, secret))
            },
            None => Ok((id, secret)),
        },
    }
}

/// Verifies a bearer token against the decoding key: structure, signature,
/// and — when the token carries an expiry — that `now` is still before it.
pub fn verify_token(decoding_key: &String, token: &String, now: i64) -> (r: Result<
    Claims,
    AuthError,
>)
    ensures
        match r {
            Ok(c) => spec_verify_token(decoding_key@, token@, now as int) == Ok::<
                _,
                AuthError,
            >((c.client_id@, c.client_secret@)),
            Err(e) => spec_verify_token(decoding_key@, token@, now as int) == Err::<
                (Seq<char>, Seq<char>),
                _,
            >(e),
        },
{
    match decode_client_token(decoding_key, token) {
        None => Err(AuthError::InvalidToken),
        Some((c, exp)) => match exp {
            Some(t) => if t <= now {
                Err(AuthError::InvalidToken)
            } else {
                Ok(c)
            },
            None => Ok(c),
        },
    }
}

} // verus!
