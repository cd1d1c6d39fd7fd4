use okx_client::error::OkxError;
use okx_client::okx::Okx;
use okx_client::url::MAX_URL_INPUT;
use reqwest::Url;

#[test]
fn test_url_build_with_params() {
    let params = vec![
        ("some".to_string(), "param".to_string()),
        ("another".to_string(), "params".to_string()),
    ];
    let url = Okx::build_url("/api/v5/account/balance", Some(params)).unwrap();
    let target_url = "https://www.okx.com/api/v5/account/balance?some=param&another=params"
        .parse::<Url>()
        .unwrap();
    assert_eq!(url.href(), target_url.as_str());
    assert_eq!(url.href().parse::<Url>().unwrap(), target_url);
}

#[test]
fn test_url_build_no_params() {
    let url = Okx::build_url("/api/v5/account/balance", None).unwrap();
    println!("{}", url.href());

    let target_url = "https://www.okx.com/api/v5/account/balance"
        .parse::<Url>()
        .unwrap();

    assert_eq!(url.href(), target_url.as_str());
    assert_eq!(url.href().parse::<Url>().unwrap(), target_url);
}

#[test]
fn url_without_params_has_no_question_mark() {
    let url = Okx::build_url("/api/v5/account/balance", None).unwrap();
    assert_eq!(url.href(), "https://www.okx.com/api/v5/account/balance");
    assert_eq!(url.path(), "/api/v5/account/balance");
    assert_eq!(url.query(), None);
    assert_eq!(Okx::extract_path_and_params(&url), "/api/v5/account/balance");
}

#[test]
fn url_parts_with_params() {
    let params = vec![
        ("some".to_string(), "param".to_string()),
        ("another".to_string(), "params".to_string()),
    ];
    let url = Okx::build_url("/api/v5/account/balance", Some(params)).unwrap();
    assert_eq!(url.path(), "/api/v5/account/balance");
    assert_eq!(url.query(), Some("some=param&another=params"));
    assert_eq!(
        Okx::extract_path_and_params(&url),
        "/api/v5/account/balance?some=param&another=params"
    );
}

#[test]
fn url_params_keep_their_order() {
    let forward = vec![("a".to_string(), "1".to_string()), ("b".to_string(), "2".to_string())];
    let backward = vec![("b".to_string(), "2".to_string()), ("a".to_string(), "1".to_string())];
    let first = Okx::build_url("/p", Some(forward)).unwrap();
    let second = Okx::build_url("/p", Some(backward)).unwrap();
    assert_eq!(first.href(), "https://www.okx.com/p?a=1&b=2");
    assert_eq!(second.href(), "https://www.okx.com/p?b=2&a=1");
}

#[test]
fn url_params_are_percent_encoded() {
    let params = vec![("ccy".to_string(), "ETH,USDC".to_string())];
    let url = Okx::build_url("/api/v5/account/balance", Some(params)).unwrap();
    assert_eq!(url.query(), Some("ccy=ETH%2CUSDC"));
    assert_eq!(
        Okx::extract_path_and_params(&url),
        "/api/v5/account/balance?ccy=ETH%2CUSDC"
    );
}

#[test]
fn url_with_bad_port_is_rejected() {
    assert_eq!(Okx::build_url(":99999999/x", None), Err(OkxError::InvalidUrl));
    let params = vec![("a".to_string(), "1".to_string())];
    assert_eq!(Okx::build_url(":99999999/x", Some(params)), Err(OkxError::InvalidUrl));
}

#[test]
fn url_with_empty_path_gets_root_path() {
    let url = Okx::build_url("", None).unwrap();
    assert_eq!(url.href(), "https://www.okx.com/");
    assert_eq!(url.path(), "/");
}

#[test]
fn url_with_too_long_a_query_is_rejected() {
    let value = "a".repeat(MAX_URL_INPUT);
    let params = vec![("k".to_string(), value)];
    assert_eq!(Okx::build_url("/p", Some(params)), Err(OkxError::UrlTooLong));
    let path = "/".repeat(MAX_URL_INPUT);
    assert_eq!(Okx::build_url(&path, None), Err(OkxError::UrlTooLong));
}

#[test]
fn url_at_the_limit_is_built() {
    let base = "https://www.okx.com/p".len();
    let value = "a".repeat(MAX_URL_INPUT - base - "k".len() - 2);
    let url = Okx::build_url("/p", Some(vec![("k".to_string(), value.clone())])).unwrap();
    assert_eq!(url.query().unwrap().len(), value.len() + 2);
    let longer = "a".repeat(MAX_URL_INPUT - base - "k".len() - 1);
    assert_eq!(
        Okx::build_url("/p", Some(vec![("k".to_string(), longer)])),
        Err(OkxError::UrlTooLong)
    );
}

#[test]
fn url_with_empty_params_ends_in_a_question_mark() {
    let url = Okx::build_url("/api/v5/account/balance", Some(vec![])).unwrap();
    assert_eq!(url.href(), "https://www.okx.com/api/v5/account/balance?");
    assert_eq!(url.query(), Some(""));
    assert_eq!(Okx::extract_path_and_params(&url), "/api/v5/account/balance?");
}
