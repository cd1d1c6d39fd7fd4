use okx_client::constants::ASSETS_TRANSFER_PATH;
use okx_client::constants::ASSETS_WITHDRAWAL_PATH;
use okx_client::constants::GET_SUB_ACCOUNTS_FUNDING_BALANCE_PATH;
use okx_client::constants::GET_SUB_ACCOUNTS_LIST_PATH;
use okx_client::constants::GET_TRADING_ACCOUNT_BALANCE_PATH;
use okx_client::constants::OKX_BASE_DOMAIN_URL;
use okx_client::endpoints::ApiCall;
use okx_client::method::Method;
use okx_client::okx::Okx;
use okx_client::text::join;
use okx_client::text::str_eq;

#[test]
fn the_paths_of_the_api() {
    assert_eq!(OKX_BASE_DOMAIN_URL, "https://www.okx.com");
    assert_eq!(GET_TRADING_ACCOUNT_BALANCE_PATH, "/api/v5/account/balance");
    assert_eq!(GET_SUB_ACCOUNTS_FUNDING_BALANCE_PATH, "/api/v5/asset/subaccount/balances");
    assert_eq!(GET_SUB_ACCOUNTS_LIST_PATH, "/api/v5/users/subaccount/list");
    assert_eq!(ASSETS_TRANSFER_PATH, "/api/v5/asset/transfer");
    assert_eq!(ASSETS_WITHDRAWAL_PATH, "/api/v5/asset/withdrawal");
}

#[test]
fn trading_balance_without_filter() {
    let call = ApiCall::trading_account_balance(None);
    assert_eq!(call.path, "/api/v5/account/balance");
    assert_eq!(call.params, None);
    assert_eq!(call.method, Method::Get);
    assert_eq!(call.body, None);
}

#[test]
fn trading_balance_with_one_currency() {
    let call = ApiCall::trading_account_balance(Some(vec!["ETH".to_string()]));
    assert_eq!(call.params, Some(vec![("ccy".to_string(), "ETH".to_string())]));
    let url = Okx::build_url(call.path, call.params).unwrap();
    assert_eq!(url.query(), Some("ccy=ETH"));
}

#[test]
fn trading_balance_with_two_currencies() {
    let call = ApiCall::trading_account_balance(Some(vec!["ETH".to_string(), "USDC".to_string()]));
    assert_eq!(call.params, Some(vec![("ccy".to_string(), "ETH,USDC".to_string())]));
    assert_eq!(call.method, Method::Get);
    assert_eq!(call.body, None);
}

#[test]
fn trading_balance_with_empty_filter() {
    let call = ApiCall::trading_account_balance(Some(vec![]));
    assert_eq!(call.params, Some(vec![("ccy".to_string(), "".to_string())]));
}

#[test]
fn sub_account_funding_balance_call() {
    let call = ApiCall::sub_account_funding_balance("alpha");
    assert_eq!(call.path, "/api/v5/asset/subaccount/balances");
    assert_eq!(call.params, Some(vec![("subAcct".to_string(), "alpha".to_string())]));
    assert_eq!(call.method, Method::Get);
    assert_eq!(call.body, None);
}

#[test]
fn sub_accounts_list_call() {
    let call = ApiCall::sub_accounts_list();
    assert_eq!(call.path, "/api/v5/users/subaccount/list");
    assert_eq!(call.params, None);
    assert_eq!(call.method, Method::Get);
    assert_eq!(call.body, None);
}

#[test]
fn transfer_call() {
    let call = ApiCall::transfer("ETH", "1.5".to_string(), "alpha".to_string());
    assert_eq!(call.path, "/api/v5/asset/transfer");
    assert_eq!(call.params, None);
    assert_eq!(call.method, Method::Post);
    assert_eq!(
        call.body.as_deref(),
        Some("{\"amt\":\"1.5\",\"ccy\":\"ETH\",\"from\":\"6\",\"subAcct\":\"alpha\",\"to\":\"6\",\"type\":\"2\"}")
    );
}

#[test]
fn withdraw_call() {
    let call = ApiCall::withdraw(
        "0.01".to_string(),
        "0.008".to_string(),
        "SOL".to_string(),
        "Solana".to_string(),
        "".to_string(),
    );
    assert_eq!(call.path, "/api/v5/asset/withdrawal");
    assert_eq!(call.params, None);
    assert_eq!(call.method, Method::Post);
    assert_eq!(
        call.body.as_deref(),
        Some("{\"amt\":\"0.01\",\"ccy\":\"SOL\",\"chain\":\"SOL-Solana\",\"dest\":\"4\",\"fee\":\"0.008\",\"toAddr\":\"\"}")
    );
}

#[test]
fn join_puts_the_separator_between() {
    assert_eq!(join(&vec![], ","), "");
    assert_eq!(join(&vec!["ETH".to_string()], ","), "ETH");
    assert_eq!(join(&vec!["ETH".to_string(), "USDC".to_string()], ","), "ETH,USDC");
    assert_eq!(join(&vec!["a".to_string(), "".to_string(), "c".to_string()], "--"), "a----c");
}

#[test]
fn str_eq_compares_contents() {
    assert!(str_eq("", ""));
    assert!(str_eq("ETH", "ETH"));
    assert!(!str_eq("ETH", "ETC"));
    assert!(!str_eq("ETH", "ETHW"));
    assert!(!str_eq("é", "e"));
    assert!(str_eq("é", "é"));
}
