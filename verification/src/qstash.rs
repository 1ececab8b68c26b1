//! The queue-callback trust path: a delivery-queue callback carries a signed
//! claims structure in a provider-specific signature header, verified
//! against a rotating signing-key pair (current, and optionally the one
//! just rotated out). This trust root is independent of the secret store:
//! the queue provider vouches for the callback, not any end client.

use vstd::prelude::*;
use jwt_compact::alg::{Hs256, Hs256Key};
use jwt_compact::{AlgorithmExt, UntrustedToken};
use serde_json::Value;
use crate::errors::AuthError;
use crate::http::{header_value, Headers};

verus! {

/// A notification as submitted by a client and relayed through the queue.
#[derive(Debug)]
pub struct NotificationMessage {
    pub user_id: String,
    pub message: String,
    pub type_: String,
}

/// The body of a successful queue-publish response.
#[derive(Debug)]
pub struct PublishResponse {
    pub message_id: String,
    pub url: String,
}

/// The signed claims of a queue callback: issuer, subject, and the embedded
/// notification payload.
#[derive(Debug)]
pub struct QStashClaims {
    pub iss: String,
    pub sub: String,
    pub body: NotificationMessage,
}

/// What HS256 verification of a queue callback's signed claims under `key`
/// yields: `None` when the structure, the signature, or the claim fields do
/// not check out; otherwise issuer, subject, the payload fields, and the
/// expiry if one is carried. A function of the key and the token text
/// alone, as with end-user tokens.
pub uninterp spec fn hs256_queue_claims(key: Seq<char>, token: Seq<char>) -> Option<
    ((Seq<char>, Seq<char>, Seq<char>, Seq<char>, Seq<char>), Option<int>),
>;

/// The decoded view of an exec queue-decoding result, for stating
/// [`hs256_queue_claims`] of it.
pub open spec fn decoded_queue_view(r: Option<(QStashClaims, Option<i64>)>) -> Option<
    ((Seq<char>, Seq<char>, Seq<char>, Seq<char>, Seq<char>), Option<int>),
> {
    match r {
        None => None,
        Some((c, e)) => Some(
            (
                (c.iss@, c.sub@, c.body.user_id@, c.body.message@, c.body.type_@),
                match e {
                    None => None,
                    Some(t) => Some(t as int),
                },
            ),
        ),
    }
}

/// Relies on jwt-compact's `Hs256` validator, as the end-user token path
/// does, here decoding the queue provider's claim shape: issuer, subject
/// and an embedded notification body. The validator reads no clock; the
/// expiry is handed back untested for the caller to check.
#[verifier::external_body]
fn decode_queue_token(key: &String, token: &String) -> (r: Option<(QStashClaims, Option<i64>)>)
    ensures
        decoded_queue_view(r) == hs256_queue_claims(key@, token@),
{
    let verified = Hs256.validator::<Value>(&Hs256Key::new(key)).validate(
        &UntrustedToken::new(token).ok()?
    ).ok()?;
    let claims = verified.claims();
    let body = claims.custom.get("body")?;
    let iss = claims.custom.get("iss")?.as_str()?.to_string();
    let sub = claims.custom.get("sub")?.as_str()?.to_string();
    let payload = NotificationMessage {
        user_id: body.get("user_id")?.as_str()?.to_string(),
        message: body.get("message")?.as_str()?.to_string(),
        type_: body.get("type")?.as_str()?.to_string(),
    };
    Some((QStashClaims { iss, sub, body: payload }, claims.expiration.map(|d| d.timestamp())))
}

/// The claims a signature verifies to under `key` at instant `now`, expiry
/// respected; `None` when verification fails or the claims are expired.
pub open spec fn spec_queue_decode(key: Seq<char>, token: Seq<char>, now: int) -> Option<
    (Seq<char>, Seq<char>, Seq<char>, Seq<char>, Seq<char>),
> {
    match hs256_queue_claims(key, token) {
        None => None,
        Some((c, exp)) => match exp {
            Some(t) => if t <= now {
                None
            } else {
                Some(c)
            },
            None => Some(c),
        },
    }
}

/// The queue-callback authentication outcome:
/// - no `Upstash-Signature` header: `MissingAuthHeader`, before any key is
///   consulted — a credential in any other header never reaches
///   verification;
/// - no current signing key configured: `MissingQStashKey`;
/// - otherwise the signature must verify under the current key, or, failing
///   that, under the previous key if one is still configured;
/// - neither accepts it: `InvalidToken`.
pub open spec fn spec_authenticate_qstash(
    headers: Seq<(Seq<char>, Seq<char>)>,
    current_key: Option<Seq<char>>,
    previous_key: Option<Seq<char>>,
    now: int,
) -> Result<(Seq<char>, Seq<char>, Seq<char>, Seq<char>, Seq<char>), AuthError> {
    match header_value(headers, "Upstash-Signature"@) {
        None => Err(AuthError::MissingAuthHeader),
        Some(sig) => match current_key {
            None => Err(AuthError::MissingQStashKey),
            Some(ck) => match spec_queue_decode(ck, sig, now) {
                Some(c) => Ok(c),
                None => match previous_key {
                    None => Err(AuthError::InvalidToken),
                    Some(pk) => match spec_queue_decode(pk, sig, now) {
                        Some(c) => Ok(c),
                        None => Err(AuthError::InvalidToken),
                    },
                },
            },
        },
    }
}

/// The view of an optional borrowed signing key.
pub open spec fn opt_key_view(s: Option<&String>) -> Option<Seq<char>> {
    match s {
        None => None,
        Some(x) => Some(x@),
    }
}

/// The view of verified queue claims.
pub open spec fn queue_claims_view(c: QStashClaims) -> (
    Seq<char>,
    Seq<char>,
    Seq<char>,
    Seq<char>,
    Seq<char>,
) {
    (c.iss@, c.sub@, c.body.user_id@, c.body.message@, c.body.type_@)
}

/// Authenticates a queue callback: the provider's signature header must
/// verify under the current signing key or, if configured, the one just
/// rotated out. The secret store plays no part in this path.
pub fn authenticate_qstash_request(
    headers: &Headers,
    current_signing_key: Option<&String>,
    previous_signing_key: Option<&String>,
    now: i64,
) -> (r: Result<QStashClaims, AuthError>)
    ensures
        match r {
            Ok(c) => spec_authenticate_qstash(
                headers@,
                opt_key_view(current_signing_key),
                opt_key_view(previous_signing_key),
                now as int,
            ) == Ok::<_, AuthError>(queue_claims_view(c)),
            Err(e) => spec_authenticate_qstash(
                headers@,
                opt_key_view(current_signing_key),
                opt_key_view(previous_signing_key),
                now as int,
            ) == Err::<(Seq<char>, Seq<char>, Seq<char>, Seq<char>, Seq<char>), _>(e),
        },
{
    let signature = match headers.get("Upstash-Signature") {
        None => {
            return Err(AuthError::MissingAuthHeader);
        },
        Some(s) => s,
    };
    let current = match current_signing_key {
        None => {
            return Err(AuthError::MissingQStashKey);
        },
        Some(k) => k,
    };
    match decode_checked(current, &signature, now) {
        Some(c) => Ok(c),
        None => match previous_signing_key {
            None => Err(AuthError::InvalidToken),
            Some(pk) => match decode_checked(pk, &signature, now) {
                Some(c) => Ok(c),
                None => Err(AuthError::InvalidToken),
            },
        },
    }
}

/// Decodes a signed queue callback under one key and enforces its expiry
/// against the passed clock.
fn decode_checked(key: &String, token: &String, now: i64) -> (r: Option<QStashClaims>)
    ensures
        match r {
            Some(c) => spec_queue_decode(key@, token@, now as int) == Some(queue_claims_view(c)),
            None => spec_queue_decode(key@, token@, now as int) is None,
        },
{
    match decode_queue_token(key, token) {
        None => None,
        Some((c, exp)) => match exp {
            Some(t) => if t <= now {
                None
            } else {
                Some(c)
            },
            None => Some(c),
        },
    }
}

/// The queue-publish endpoint for a topic: the base URL joined with the
/// topic by a single slash.
pub fn qstash_publish_url(base: &String, topic: &String) -> (r: String)
    ensures
        r@ == base@ + "/"@ + topic@,
{
    let mut r = base.clone();
    r.append("/");
    r.append(topic.as_str());
    r
}

} // verus!
