use notify_relay::auth::{authenticate, authorize, authorize_request, get_token, required_permission};
use notify_relay::errors::AuthError;
use notify_relay::http::{Headers, Method};
use notify_relay::store::{Secret, SecretStore};
use notify_relay::token::verify_token;

use jwt_compact::AlgorithmExt;

fn make_token(key: &[u8], client_id: &str, client_secret: &str, exp: Option<i64>) -> String {
    let mut fields = serde_json::Map::new();
    fields.insert(
        "client_id".to_string(),
        serde_json::Value::String(client_id.to_string()),
    );
    fields.insert(
        "client_secret".to_string(),
        serde_json::Value::String(client_secret.to_string()),
    );
    let mut claims = jwt_compact::Claims::new(serde_json::Value::Object(fields));
    if let Some(t) = exp {
        claims.expiration = chrono::DateTime::from_timestamp(t, 0);
    }
    let hs_key = jwt_compact::alg::Hs256Key::new(key);
    jwt_compact::alg::Hs256
        .token(&jwt_compact::Header::empty(), &claims, &hs_key)
        .unwrap()
}

fn bearer_headers(token: &str) -> Headers {
    let mut headers = Headers::new();
    headers.push("Authorization".to_string(), format!("Bearer {}", token));
    headers
}

fn store_with(client_id: &str, client_secret: &str, permissions: Vec<&str>) -> SecretStore {
    let mut store = SecretStore::new();
    store.put(Secret {
        client_id: client_id.to_string(),
        client_secret: client_secret.to_string(),
        permissions: permissions.into_iter().map(|p| p.to_string()).collect(),
    });
    store
}

#[test]
fn authenticate_matching_secret_grants_store_permissions() {
    let key = "server-decoding-key".to_string();
    let token = make_token(key.as_bytes(), "c1", "s1", None);
    let headers = bearer_headers(&token);
    let store = store_with("c1", "s1", vec!["read"]);

    let id = authenticate(&headers, Some(&key), Some(&store), 0).unwrap();
    assert_eq!(id.client_id, "c1");
    assert_eq!(id.permissions, vec!["read".to_string()]);
    assert!(authorize("read", &id.permissions).is_ok());
    assert!(authorize_request(Method::Get, &id.permissions).is_ok());
}

#[test]
fn authenticate_rotated_secret_is_unauthorized() {
    let key = "server-decoding-key".to_string();
    let token = make_token(key.as_bytes(), "c1", "s1", None);
    let headers = bearer_headers(&token);
    let store = store_with("c1", "s2", vec!["read"]);

    let err = authenticate(&headers, Some(&key), Some(&store), 0).unwrap_err();
    assert_eq!(err, AuthError::Unauthorized);
    assert_eq!(err.http_status(), 403);
}

#[test]
fn authenticate_missing_header_is_rejected() {
    let key = "server-decoding-key".to_string();
    let headers = Headers::new();
    let store = store_with("c1", "s1", vec!["read"]);

    let err = authenticate(&headers, Some(&key), Some(&store), 0).unwrap_err();
    assert_eq!(err, AuthError::MissingAuthHeader);
    assert_eq!(err.http_status(), 401);
}

#[test]
fn authenticate_malformed_scheme_is_missing_tokens() {
    let key = "server-decoding-key".to_string();
    let mut headers = Headers::new();
    headers.push("Authorization".to_string(), "Token abc".to_string());
    let store = store_with("c1", "s1", vec!["read"]);

    let err = authenticate(&headers, Some(&key), Some(&store), 0).unwrap_err();
    assert_eq!(err, AuthError::MissingTokens);
}

#[test]
fn authenticate_unprovisioned_client_is_missing_record() {
    let key = "server-decoding-key".to_string();
    let token = make_token(key.as_bytes(), "c9", "s1", None);
    let headers = bearer_headers(&token);
    let store = store_with("c1", "s1", vec!["read"]);

    let err = authenticate(&headers, Some(&key), Some(&store), 0).unwrap_err();
    assert_eq!(err, AuthError::MissingQStashKey);
    assert_eq!(err.message(), "Internal Server Error");
}

#[test]
fn authenticate_without_decoding_key_is_misconfiguration() {
    let key = "server-decoding-key".to_string();
    let token = make_token(key.as_bytes(), "c1", "s1", None);
    let headers = bearer_headers(&token);
    let store = store_with("c1", "s1", vec!["read"]);

    let err = authenticate(&headers, None, Some(&store), 0).unwrap_err();
    assert_eq!(err, AuthError::MissingDecodingKey);
    assert_eq!(err.message(), "Internal Server Error");
    assert_eq!(err.log_detail(), "Missing Decoding Key");
}

#[test]
fn authenticate_without_store_binding_is_missing_tokens() {
    let key = "server-decoding-key".to_string();
    let token = make_token(key.as_bytes(), "c1", "s1", None);
    let headers = bearer_headers(&token);

    let err = authenticate(&headers, Some(&key), None, 0).unwrap_err();
    assert_eq!(err, AuthError::MissingTokens);
}

#[test]
fn authenticate_wrong_signing_key_is_invalid_token() {
    let key = "server-decoding-key".to_string();
    let token = make_token(b"some-other-key", "c1", "s1", None);
    let headers = bearer_headers(&token);
    let store = store_with("c1", "s1", vec!["read"]);

    let err = authenticate(&headers, Some(&key), Some(&store), 0).unwrap_err();
    assert_eq!(err, AuthError::InvalidToken);
}

#[test]
fn authenticate_expired_token_is_invalid() {
    let key = "server-decoding-key".to_string();
    let token = make_token(key.as_bytes(), "c1", "s1", Some(1_000));
    let headers = bearer_headers(&token);
    let store = store_with("c1", "s1", vec!["read"]);

    let err = authenticate(&headers, Some(&key), Some(&store), 2_000).unwrap_err();
    assert_eq!(err, AuthError::InvalidToken);
}

#[test]
fn authenticate_unexpired_token_is_accepted() {
    let key = "server-decoding-key".to_string();
    let token = make_token(key.as_bytes(), "c1", "s1", Some(5_000));
    let headers = bearer_headers(&token);
    let store = store_with("c1", "s1", vec!["post"]);

    let id = authenticate(&headers, Some(&key), Some(&store), 2_000).unwrap();
    assert_eq!(id.permissions, vec!["post".to_string()]);
}

#[test]
fn authenticate_store_permissions_override_token_claims() {
    let key = "server-decoding-key".to_string();
    let token = make_token(key.as_bytes(), "c1", "s1", None);
    let headers = bearer_headers(&token);
    let store = store_with("c1", "s1", vec!["read", "delete"]);

    let id = authenticate(&headers, Some(&key), Some(&store), 0).unwrap();
    assert_eq!(
        id.permissions,
        vec!["read".to_string(), "delete".to_string()]
    );
}

#[test]
fn rotation_shadows_earlier_record() {
    let key = "server-decoding-key".to_string();
    let token = make_token(key.as_bytes(), "c1", "s1", None);
    let headers = bearer_headers(&token);
    let mut store = SecretStore::new();
    store.put(Secret {
        client_id: "c1".to_string(),
        client_secret: "s1".to_string(),
        permissions: vec!["read".to_string()],
    });
    assert!(authenticate(&headers, Some(&key), Some(&store), 0).is_ok());

    store.put(Secret {
        client_id: "c1".to_string(),
        client_secret: "s2".to_string(),
        permissions: vec!["read".to_string()],
    });
    let err = authenticate(&headers, Some(&key), Some(&store), 0).unwrap_err();
    assert_eq!(err, AuthError::Unauthorized);
}

#[test]
fn header_lookup_ignores_name_case() {
    let key = "server-decoding-key".to_string();
    let token = make_token(key.as_bytes(), "c1", "s1", None);
    let mut headers = Headers::new();
    headers.push("authorization".to_string(), format!("Bearer {}", token));
    let store = store_with("c1", "s1", vec!["read"]);

    assert!(authenticate(&headers, Some(&key), Some(&store), 0).is_ok());
}

#[test]
fn get_token_strips_exact_bearer_prefix() {
    let mut headers = Headers::new();
    headers.push("Authorization".to_string(), "Bearer abc.def.ghi".to_string());
    assert_eq!(get_token(&headers).unwrap(), "abc.def.ghi");
}

#[test]
fn get_token_rejects_lowercase_scheme() {
    let mut headers = Headers::new();
    headers.push("Authorization".to_string(), "bearer abc".to_string());
    assert_eq!(get_token(&headers).unwrap_err(), AuthError::MissingTokens);
}

#[test]
fn verify_token_decodes_embedded_claims() {
    let key = "server-decoding-key".to_string();
    let token = make_token(key.as_bytes(), "c7", "super-secret", None);
    let claims = verify_token(&key, &token, 0).unwrap();
    assert_eq!(claims.client_id, "c7");
    assert_eq!(claims.client_secret, "super-secret");
}

#[test]
fn authorize_matches_case_insensitively() {
    let perms = vec!["READ".to_string(), "Post".to_string()];
    assert!(authorize("read", &perms).is_ok());
    assert!(authorize("pOsT", &perms).is_ok());
    assert_eq!(authorize("delete", &perms).unwrap_err(), AuthError::Unauthorized);
}

#[test]
fn authorize_empty_permission_set_refuses() {
    let perms: Vec<String> = Vec::new();
    assert_eq!(authorize("read", &perms).unwrap_err(), AuthError::Unauthorized);
}

#[test]
fn required_permission_maps_the_four_verbs() {
    assert_eq!(required_permission(Method::Get).unwrap(), "read");
    assert_eq!(required_permission(Method::Post).unwrap(), "post");
    assert_eq!(required_permission(Method::Put).unwrap(), "update");
    assert_eq!(required_permission(Method::Delete).unwrap(), "delete");
    assert!(required_permission(Method::Other).is_none());
}

#[test]
fn authorize_request_refuses_unmapped_verbs() {
    let perms = vec!["read".to_string()];
    assert_eq!(
        authorize_request(Method::Other, &perms).unwrap_err(),
        AuthError::Unauthorized
    );
}

#[test]
fn tampered_token_is_invalid() {
    let key = "server-decoding-key".to_string();
    let token = make_token(key.as_bytes(), "c1", "s1", None);
    let mut tampered: Vec<char> = token.chars().collect();
    let dot = token.find('.').unwrap();
    tampered[dot + 1] = if tampered[dot + 1] == 'A' { 'B' } else { 'A' };
    let tampered: String = tampered.into_iter().collect();
    let headers = bearer_headers(&tampered);
    let store = store_with("c1", "s1", vec!["read"]);

    let err = authenticate(&headers, Some(&key), Some(&store), 0).unwrap_err();
    assert_eq!(err, AuthError::InvalidToken);
}

#[test]
fn error_kinds_map_to_status_message_and_detail() {
    let table = vec![
        (AuthError::MissingAuthHeader, 401, "Missing Authorization Header"),
        (AuthError::Unauthorized, 403, "Unauthorized"),
        (AuthError::InvalidToken, 401, "Invalid Token"),
        (AuthError::MissingDecodingKey, 500, "Internal Server Error"),
        (AuthError::MissingTokens, 500, "Internal Server Error"),
        (AuthError::MissingQStashKey, 500, "Internal Server Error"),
    ];
    for (kind, status, message) in table {
        assert_eq!(kind.http_status(), status);
        assert_eq!(kind.message(), message);
    }
    assert_eq!(AuthError::MissingTokens.log_detail(), "Missing Tokens");
}
