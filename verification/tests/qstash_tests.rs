use notify_relay::errors::AuthError;
use notify_relay::http::Headers;
use notify_relay::qstash::{authenticate_qstash_request, qstash_publish_url};

use jwt_compact::AlgorithmExt;

fn make_queue_token(
    key: &[u8],
    iss: &str,
    sub: &str,
    user_id: &str,
    message: &str,
    type_: &str,
) -> String {
    let mut body = serde_json::Map::new();
    body.insert(
        "user_id".to_string(),
        serde_json::Value::String(user_id.to_string()),
    );
    body.insert(
        "message".to_string(),
        serde_json::Value::String(message.to_string()),
    );
    body.insert(
        "type".to_string(),
        serde_json::Value::String(type_.to_string()),
    );
    let mut fields = serde_json::Map::new();
    fields.insert("iss".to_string(), serde_json::Value::String(iss.to_string()));
    fields.insert("sub".to_string(), serde_json::Value::String(sub.to_string()));
    fields.insert("body".to_string(), serde_json::Value::Object(body));
    let claims = jwt_compact::Claims::new(serde_json::Value::Object(fields));
    let hs_key = jwt_compact::alg::Hs256Key::new(key);
    jwt_compact::alg::Hs256
        .token(&jwt_compact::Header::empty(), &claims, &hs_key)
        .unwrap()
}

fn signature_headers(token: &str) -> Headers {
    let mut headers = Headers::new();
    headers.push("Upstash-Signature".to_string(), token.to_string());
    headers
}

#[test]
fn callback_with_current_key_is_accepted() {
    let current = "current-signing-key".to_string();
    let token = make_queue_token(
        current.as_bytes(),
        "Upstash",
        "relay",
        "7f2c",
        "hello",
        "notification",
    );
    let headers = signature_headers(&token);

    let claims = authenticate_qstash_request(&headers, Some(&current), None, 0).unwrap();
    assert_eq!(claims.iss, "Upstash");
    assert_eq!(claims.sub, "relay");
    assert_eq!(claims.body.user_id, "7f2c");
    assert_eq!(claims.body.message, "hello");
    assert_eq!(claims.body.type_, "notification");
}

#[test]
fn callback_in_wrong_header_never_reaches_verification() {
    let current = "current-signing-key".to_string();
    let token = make_queue_token(
        current.as_bytes(),
        "Upstash",
        "relay",
        "7f2c",
        "hello",
        "notification",
    );
    let mut headers = Headers::new();
    headers.push("Authorization".to_string(), token);

    let err = authenticate_qstash_request(&headers, Some(&current), None, 0).unwrap_err();
    assert_eq!(err, AuthError::MissingAuthHeader);
}

#[test]
fn callback_without_signing_key_is_misconfiguration() {
    let token = make_queue_token(
        b"current-signing-key",
        "Upstash",
        "relay",
        "7f2c",
        "hello",
        "notification",
    );
    let headers = signature_headers(&token);

    let err = authenticate_qstash_request(&headers, None, None, 0).unwrap_err();
    assert_eq!(err, AuthError::MissingQStashKey);
    assert_eq!(err.message(), "Internal Server Error");
    assert_eq!(err.log_detail(), "Missing QStash Signing key");
}

#[test]
fn callback_signed_with_rotated_out_key_still_verifies() {
    let current = "current-signing-key".to_string();
    let previous = "previous-signing-key".to_string();
    let token = make_queue_token(
        previous.as_bytes(),
        "Upstash",
        "relay",
        "7f2c",
        "hello",
        "notification",
    );
    let headers = signature_headers(&token);

    let err = authenticate_qstash_request(&headers, Some(&current), None, 0).unwrap_err();
    assert_eq!(err, AuthError::InvalidToken);

    let claims =
        authenticate_qstash_request(&headers, Some(&current), Some(&previous), 0).unwrap();
    assert_eq!(claims.iss, "Upstash");
}

#[test]
fn callback_signed_with_unknown_key_is_invalid() {
    let current = "current-signing-key".to_string();
    let previous = "previous-signing-key".to_string();
    let token = make_queue_token(
        b"some-unrelated-key",
        "Upstash",
        "relay",
        "7f2c",
        "hello",
        "notification",
    );
    let headers = signature_headers(&token);

    let err =
        authenticate_qstash_request(&headers, Some(&current), Some(&previous), 0).unwrap_err();
    assert_eq!(err, AuthError::InvalidToken);
}

#[test]
fn publish_url_joins_base_and_topic() {
    let base = "https://qstash.example".to_string();
    let topic = "notifications".to_string();
    assert_eq!(
        qstash_publish_url(&base, &topic),
        "https://qstash.example/notifications"
    );
}
