//! Authentication and authorization of end-user requests.
//!
//! Authentication extracts the bearer credential, verifies it against the
//! decoding key, and binds it to the secret store's live state: the token's
//! embedded secret must equal the store's current secret for that client.
//! Rotating a client's secret in the store therefore invalidates every
//! previously issued token for that client at once, with no blacklist.
//!
//! Authorization maps the HTTP verb to a required permission label and tests
//! membership in the caller's permission set, ignoring case.

use vstd::prelude::*;
use vstd::string::StrSliceExecFns;
use crate::errors::AuthError;
use crate::fold::{eq_case_insensitive, eq_ignore_case, str_eq};
use crate::http::{header_value, Headers, Method};
use crate::store::{store_lookup, AuthenticatedIdentity, Secret, SecretStore};
use crate::token::{spec_verify_token, verify_token, Claims};

verus! {

/// The credential carried by an `Authorization` header value: the part after
/// the exact scheme prefix `"Bearer "`, or `MissingTokens` when the scheme
/// is malformed.
pub open spec fn spec_bearer_token(header: Seq<char>) -> Result<Seq<char>, AuthError> {
    if header.len() >= 7 && header.subrange(0, 7) == "Bearer "@ {
        Ok(header.skip(7))
    } else {
        Err(AuthError::MissingTokens)
    }
}

/// The bearer credential of a request: `MissingAuthHeader` when no
/// `Authorization` header is present, `MissingTokens` when one is present
/// without the `"Bearer "` scheme.
pub open spec fn spec_get_token(headers: Seq<(Seq<char>, Seq<char>)>) -> Result<
    Seq<char>,
    AuthError,
> {
    match header_value(headers, "Authorization"@) {
        None => Err(AuthError::MissingAuthHeader),
        Some(h) => spec_bearer_token(h),
    }
}

/// Extracts the bearer credential from the request headers.
pub fn get_token(headers: &Headers) -> (r: Result<String, AuthError>)
    ensures
        match r {
            Ok(t) => spec_get_token(headers@) == Ok::<_, AuthError>(t@),
            Err(e) => spec_get_token(headers@) == Err::<Seq<char>, _>(e),
        },
{
    let auth_header = match headers.get("Authorization") {
        None => {
            return Err(AuthError::MissingAuthHeader);
        },
        Some(h) => h,
    };
    let s = auth_header.as_str();
    let n = s.unicode_len();
    if n < 7 {
        return Err(AuthError::MissingTokens);
    }
    let prefix = s.substring_char(0, 7);
    if !str_eq(prefix, "Bearer ") {
        return Err(AuthError::MissingTokens);
    }
    let token = s.substring_char(7, n);
    proof {
        assert(s@.subrange(7, s@.len() as int) =~= s@.skip(7));
    }
    Ok(token.to_owned())
}

/// The permission label an HTTP verb demands: the four mapped verbs each
/// name one, any other verb none (and is refused outright).
pub open spec fn spec_required_permission(m: Method) -> Option<Seq<char>> {
    match m {
        Method::Get => Some("read"@),
        Method::Post => Some("post"@),
        Method::Put => Some("update"@),
        Method::Delete => Some("delete"@),
        Method::Other => None,
    }
}

/// Maps an HTTP verb to the permission label it requires.
pub fn required_permission(m: Method) -> (r: Option<String>)
    ensures
        match r {
            Some(p) => spec_required_permission(m) == Some(p@),
            None => spec_required_permission(m) is None,
        },
{
    match m {
        Method::Get => Some("read".to_owned()),
        Method::Post => Some("post".to_owned()),
        Method::Put => Some("update".to_owned()),
        Method::Delete => Some("delete".to_owned()),
        Method::Other => None,
    }
}

/// Whether some member of `permissions` equals `required` ignoring case.
pub open spec fn spec_permitted(required: Seq<char>, permissions: Seq<Seq<char>>) -> bool {
    exists|i: int| 0 <= i < permissions.len() && eq_ignore_case(permissions[i], required)
}

/// The authorization outcome: success exactly when the permission set holds
/// the required label up to case.
pub open spec fn spec_authorize(required: Seq<char>, permissions: Seq<Seq<char>>) -> Result<
    (),
    AuthError,
> {
    if spec_permitted(required, permissions) {
        Ok(())
    } else {
        Err(AuthError::Unauthorized)
    }
}

/// Tests whether the permission set grants `required_permission`.
///
/// The outcome is exactly `spec_authorize` of the inputs' views, so the
/// function is pure: equal inputs give equal results, and no state is read
/// or written.
pub fn authorize(required_permission: &str, permissions: &Vec<String>) -> (r: Result<
    (),
    AuthError,
>)
    ensures
        r == spec_authorize(required_permission@, permissions.deep_view()),
{
    let n = permissions.len();
    let mut i: usize = 0;
    while i < n
        invariant
            n == permissions.len(),
            0 <= i <= n,
            forall|j: int| 0 <= j < i ==> !eq_ignore_case(permissions.deep_view()[j], required_permission@),
        decreases n - i,
    {
        proof {
            assert(permissions.deep_view()[i as int] == permissions@[i as int]@);
        }
        if eq_case_insensitive(permissions[i].as_str(), required_permission) {
            proof {
                assert(spec_permitted(required_permission@, permissions.deep_view()));
            }
            return Ok(());
        }
        i = i + 1;
    }
    Err(AuthError::Unauthorized)
}

/// Authorizes a request by its HTTP verb: verbs outside the mapped four are
/// refused without a permission check.
pub fn authorize_request(m: Method, permissions: &Vec<String>) -> (r: Result<(), AuthError>)
    ensures
        match spec_required_permission(m) {
            None => r == Err::<(), _>(AuthError::Unauthorized),
            Some(req) => r == spec_authorize(req, permissions.deep_view()),
        },
{
    match required_permission(m) {
        None => Err(AuthError::Unauthorized),
        Some(req) => authorize(req.as_str(), permissions),
    }
}

/// Copies a permission list.
fn clone_strings(v: &Vec<String>) -> (r: Vec<String>)
    ensures
        r@ == v@,
{
    let mut r: Vec<String> = Vec::new();
    let mut i: usize = 0;
    let n = v.len();
    while i < n
        invariant
            n == v.len(),
            0 <= i <= n,
            r@ =~= v@.subrange(0, i as int),
        decreases n - i,
    {
        r.push(v[i].clone());
        proof {
            assert(r@ =~= v@.subrange(0, i as int + 1));
        }
        i = i + 1;
    }
    proof {
        assert(v@.subrange(0, n as int) =~= v@);
    }
    r
}

/// The view of an optional borrowed string.
pub open spec fn opt_string_view(s: Option<&String>) -> Option<Seq<char>> {
    match s {
        None => None,
        Some(x) => Some(x@),
    }
}

/// The view of an optional borrowed store.
pub open spec fn opt_store_view(s: Option<&SecretStore>) -> Option<Seq<Secret>> {
    match s {
        None => None,
        Some(x) => Some(x@),
    }
}

/// The authentication outcome over the request's headers, the configured
/// decoding key, the secret store, and the clock:
/// - no store binding: `MissingTokens`;
/// - no decoding key configured: `MissingDecodingKey`;
/// - then the bearer credential is extracted and verified;
/// - a verified client with no store record: `MissingQStashKey`;
/// - a store secret differing from the token's embedded secret:
///   `Unauthorized`;
/// - otherwise the identity, carrying the record's permissions — the store,
///   not the token, is authoritative for them.
pub open spec fn spec_authenticate(
    headers: Seq<(Seq<char>, Seq<char>)>,
    decoding_key: Option<Seq<char>>,
    store: Option<Seq<Secret>>,
    now: int,
) -> Result<(Seq<char>, Seq<Seq<char>>), AuthError> {
    match store {
        None => Err(AuthError::MissingTokens),
        Some(records) => match decoding_key {
            None => Err(AuthError::MissingDecodingKey),
            Some(key) => match spec_get_token(headers) {
                Err(e) => Err(e),
                Ok(token) => match spec_verify_token(key, token, now) {
                    Err(e) => Err(e),
                    Ok((client_id, client_secret)) => match store_lookup(records, client_id) {
                        None => Err(AuthError::MissingQStashKey),
                        Some(rec) => if rec.client_secret@ == client_secret {
                            Ok((client_id, rec.permissions.deep_view()))
                        } else {
                            Err(AuthError::Unauthorized)
                        },
                    },
                },
            },
        },
    }
}

/// Authenticates a request: extracts and verifies the bearer token, then
/// binds it to the store's current secret for the claimed client. On
/// success the returned identity carries the store record's permissions.
pub fn authenticate(
    headers: &Headers,
    decoding_key: Option<&String>,
    store: Option<&SecretStore>,
    now: i64,
) -> (r: Result<AuthenticatedIdentity, AuthError>)
    ensures
        match r {
            Ok(id) => spec_authenticate(
                headers@,
                opt_string_view(decoding_key),
                opt_store_view(store),
                now as int,
            ) == Ok::<_, AuthError>((id.client_id@, id.permissions.deep_view())),
            Err(e) => spec_authenticate(
                headers@,
                opt_string_view(decoding_key),
                opt_store_view(store),
                now as int,
            ) == Err::<(Seq<char>, Seq<Seq<char>>), _>(e),
        },
{
    let store = match store {
        None => {
            return Err(AuthError::MissingTokens);
        },
        Some(s) => s,
    };
    let key = match decoding_key {
        None => {
            return Err(AuthError::MissingDecodingKey);
        },
        Some(k) => k,
    };
    let token = match get_token(headers) {
        Err(e) => {
            return Err(e);
        },
        Ok(t) => t,
    };
    let claims = match verify_token(key, &token, now) {
        Err(e) => {
            return Err(e);
        },
        Ok(c) => c,
    };
    match store.lookup(&claims.client_id) {
        None => Err(AuthError::MissingQStashKey),
        Some(rec) => {
            if rec.client_secret == claims.client_secret {
                let permissions = clone_strings(&rec.permissions);
                Ok(AuthenticatedIdentity { client_id: claims.client_id, permissions })
            } else {
                Err(AuthError::Unauthorized)
            }
        },
    }
}

/// Authentication binds a token to the store's live revocation state: given
/// a request whose bearer credential verifies to client `client_id` with
/// embedded secret `client_secret`, authentication succeeds if and only if
/// the store holds a record for that client whose current secret equals the
/// embedded one; an absent record and a rotated secret each fail with their
/// documented kind.
pub proof fn lemma_authenticate_binds_store(
    headers: Seq<(Seq<char>, Seq<char>)>,
    key: Seq<char>,
    token: Seq<char>,
    records: Seq<Secret>,
    now: int,
    client_id: Seq<char>,
    client_secret: Seq<char>,
)
    requires
        spec_get_token(headers) == Ok::<_, AuthError>(token),
        spec_verify_token(key, token, now) == Ok::<_, AuthError>((client_id, client_secret)),
    ensures
        (spec_authenticate(headers, Some(key), Some(records), now) matches Ok(_)) <==> (
        store_lookup(records, client_id) matches Some(rec) && rec.client_secret@
            == client_secret),
        store_lookup(records, client_id) is None ==> spec_authenticate(
            headers,
            Some(key),
            Some(records),
            now,
        ) == Err::<(Seq<char>, Seq<Seq<char>>), _>(AuthError::MissingQStashKey),
        store_lookup(records, client_id) matches Some(rec) ==> (rec.client_secret@
            != client_secret ==> spec_authenticate(headers, Some(key), Some(records), now)
            == Err::<(Seq<char>, Seq<Seq<char>>), _>(AuthError::Unauthorized)),
        store_lookup(records, client_id) matches Some(rec) ==> (rec.client_secret@
            == client_secret ==> spec_authenticate(headers, Some(key), Some(records), now)
            == Ok::<_, AuthError>((client_id, rec.permissions.deep_view()))),
{
}

} // verus!
