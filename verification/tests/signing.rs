use okx_client::credentials::canonical_request;
use okx_client::credentials::Credentials;
use okx_client::method::Method;

fn credentials(secret: &str) -> Credentials {
    Credentials::new(secret.to_string(), "key".to_string(), "pass".to_string())
}

#[test]
fn canonical_message_without_body() {
    assert_eq!(canonical_request("T", Method::Get, "/p", None), "TGET/p");
}

#[test]
fn canonical_message_with_body() {
    assert_eq!(
        canonical_request("2024-01-01T00:00:00.123Z", Method::Post, "/api/v5/asset/transfer", Some("{\"a\":\"b\"}")),
        "2024-01-01T00:00:00.123ZPOST/api/v5/asset/transfer{\"a\":\"b\"}"
    );
}

#[test]
fn method_tokens() {
    assert_eq!(Method::Get.as_str(), "GET");
    assert_eq!(Method::Post.as_str(), "POST");
}

#[test]
fn signature_of_get_request() {
    let signature = credentials("secret").get_signature(
        Method::Get,
        "2024-01-01T00:00:00.123Z",
        "/api/v5/account/balance",
        None,
    );
    assert_eq!(signature, "Autvr9Eu5VPU0XM+PQnegbtYKr+AV7LoU6D7x8AMHNU=");
}

#[test]
fn signature_of_get_request_with_query() {
    let signature = credentials("secret").get_signature(
        Method::Get,
        "2024-01-01T00:00:00.123Z",
        "/api/v5/account/balance?ccy=ETH",
        None,
    );
    assert_eq!(signature, "43eiQbPi52yvvP8AHNQp1Ub4Gkv4f+yta1UeuQsxuHo=");
}

#[test]
fn signature_of_post_request_with_body() {
    let body = "{\"amt\":\"1.5\",\"ccy\":\"ETH\",\"from\":\"6\",\"subAcct\":\"alpha\",\"to\":\"6\",\"type\":\"2\"}";
    let signature = credentials("secret").get_signature(
        Method::Post,
        "2024-01-01T00:00:00.123Z",
        "/api/v5/asset/transfer",
        Some(body),
    );
    assert_eq!(signature, "Innnwq9zJxlC5k6KUXQoNKcCjdyiW2Yoksv0AwO9sOM=");
}

#[test]
fn signature_with_non_ascii_secret() {
    let signature = credentials("sécret").get_signature(Method::Get, "T", "/p", None);
    assert_eq!(signature, "wbCSu5dbnba8BFJHsuP3HVYQ3McM4kUyUiZ5ScQhho0=");
}

#[test]
fn signature_is_deterministic() {
    let credentials = credentials("secret");
    let first = credentials.get_signature(Method::Post, "T", "/p", Some("{}"));
    let second = credentials.get_signature(Method::Post, "T", "/p", Some("{}"));
    assert_eq!(first, second);
}

#[test]
fn signature_changes_with_each_field() {
    let base = credentials("secret").get_signature(Method::Get, "T", "/p", None);
    assert_ne!(base, credentials("other").get_signature(Method::Get, "T", "/p", None));
    assert_ne!(base, credentials("secret").get_signature(Method::Post, "T", "/p", None));
    assert_ne!(base, credentials("secret").get_signature(Method::Get, "U", "/p", None));
    assert_ne!(base, credentials("secret").get_signature(Method::Get, "T", "/q", None));
    assert_ne!(base, credentials("secret").get_signature(Method::Get, "T", "/p", Some("{}")));
}

#[test]
fn signature_is_padded_base64_of_32_bytes() {
    let signature = credentials("secret").get_signature(Method::Get, "T", "/p", None);
    assert_eq!(signature.len(), 44);
    assert!(signature.ends_with('='));
    assert!(signature
        .chars()
        .all(|c| c.is_ascii_alphanumeric() || c == '+' || c == '/' || c == '='));
}
