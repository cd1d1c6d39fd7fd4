use okx_client::error::OkxError;
use okx_client::schemas::find_balance;
use okx_client::schemas::AssetWithdrawalSchema;
use okx_client::schemas::AssetsTransferSchema;
use okx_client::schemas::GetBalanceResponseDataDetails;
use okx_client::schemas::GetTradingBalanceResponseData;
use okx_client::schemas::OkxResponseSchema;

fn detail(ccy: &str, avail_bal: &str) -> GetBalanceResponseDataDetails {
    GetBalanceResponseDataDetails { avail_bal: avail_bal.to_string(), ccy: ccy.to_string() }
}

#[test]
fn get_data_gives_the_first_item() {
    let envelope = OkxResponseSchema { code: "0".to_string(), data: vec![10u32, 20, 30] };
    assert_eq!(envelope.get_data(), Some(&10));
}

#[test]
fn get_data_of_empty_payload_is_none() {
    let envelope: OkxResponseSchema<u32> = OkxResponseSchema { code: "0".to_string(), data: vec![] };
    assert_eq!(envelope.get_data(), None);
}

#[test]
fn code_zero_is_success() {
    let envelope = OkxResponseSchema { code: "0".to_string(), data: vec![1u8, 2] };
    assert!(envelope.succeeded());
    assert_eq!(envelope.ensure_success(), Ok(()));
}

#[test]
fn code_one_is_a_domain_error() {
    let envelope: OkxResponseSchema<u8> = OkxResponseSchema { code: "1".to_string(), data: vec![] };
    assert!(!envelope.succeeded());
    assert_eq!(
        envelope.ensure_success(),
        Err(OkxError::ResponseCode { code: "1".to_string() })
    );
}

#[test]
fn any_code_but_zero_is_a_domain_error() {
    for code in ["", "00", "0 ", "-0", "51000", "ok"] {
        let envelope = OkxResponseSchema { code: code.to_string(), data: vec![1u8] };
        assert!(!envelope.succeeded());
        assert_eq!(
            envelope.ensure_success(),
            Err(OkxError::ResponseCode { code: code.to_string() })
        );
    }
}

#[test]
fn detail_balance_of_its_own_currency() {
    assert_eq!(detail("ETH", "1.25").get_balance("ETH"), Some("1.25".to_string()));
}

#[test]
fn detail_balance_of_another_currency() {
    assert_eq!(detail("ETH", "1.25").get_balance("USDC"), None);
    assert_eq!(detail("ETH", "1.25").get_balance("eth"), None);
    assert_eq!(detail("ETH", "1.25").get_balance(""), None);
}

#[test]
fn trading_balance_of_the_first_matching_entry() {
    let data = GetTradingBalanceResponseData {
        details: vec![detail("BTC", "0.5"), detail("ETH", "1.25"), detail("ETH", "9")],
    };
    assert_eq!(data.get_balance("ETH"), Some("1.25".to_string()));
    assert_eq!(data.get_balance("BTC"), Some("0.5".to_string()));
}

#[test]
fn trading_balance_of_a_missing_currency() {
    let data = GetTradingBalanceResponseData { details: vec![detail("BTC", "0.5")] };
    assert_eq!(data.get_balance("ETH"), None);
    let empty = GetTradingBalanceResponseData { details: vec![] };
    assert_eq!(empty.get_balance("ETH"), None);
}

#[test]
fn find_balance_in_details() {
    let details = vec![detail("BTC", "0.5"), detail("SOL", "7")];
    assert_eq!(find_balance(&details, "SOL"), Some("7".to_string()));
    assert_eq!(find_balance(&details, "ETH"), None);
}

#[test]
fn transfer_body_as_json() {
    let body = AssetsTransferSchema::new("ETH".to_string(), "1.5".to_string(), "alpha".to_string());
    assert_eq!(
        body.to_json(),
        "{\"amt\":\"1.5\",\"ccy\":\"ETH\",\"from\":\"6\",\"subAcct\":\"alpha\",\"to\":\"6\",\"type\":\"2\"}"
    );
}

#[test]
fn transfer_body_escapes_its_values() {
    let body = AssetsTransferSchema::new("E\"TH".to_string(), "1".to_string(), "a\\b\n".to_string());
    assert_eq!(
        body.to_json(),
        "{\"amt\":\"1\",\"ccy\":\"E\\\"TH\",\"from\":\"6\",\"subAcct\":\"a\\\\b\\n\",\"to\":\"6\",\"type\":\"2\"}"
    );
}

#[test]
fn transfer_body_parses_back() {
    let body = AssetsTransferSchema::new("ETH".to_string(), "1.5".to_string(), "alpha".to_string());
    let value: serde_json::Value = serde_json::from_str(&body.to_json()).unwrap();
    let object = value.as_object().unwrap();
    assert_eq!(object.len(), 6);
    assert_eq!(object["ccy"], "ETH");
    assert_eq!(object["amt"], "1.5");
    assert_eq!(object["from"], "6");
    assert_eq!(object["to"], "6");
    assert_eq!(object["type"], "2");
    assert_eq!(object["subAcct"], "alpha");
}

#[test]
fn withdrawal_chain_is_currency_and_chain() {
    let body = AssetWithdrawalSchema::new(
        "0.01".to_string(),
        "0.008".to_string(),
        "SOL".to_string(),
        "Solana".to_string(),
        "address".to_string(),
    );
    let value: serde_json::Value = serde_json::from_str(&body.to_json()).unwrap();
    assert_eq!(value["chain"], "SOL-Solana");
}

#[test]
fn withdrawal_body_as_json() {
    let body = AssetWithdrawalSchema::new(
        "0.01".to_string(),
        "0.008".to_string(),
        "SOL".to_string(),
        "Solana".to_string(),
        "address".to_string(),
    );
    assert_eq!(
        body.to_json(),
        "{\"amt\":\"0.01\",\"ccy\":\"SOL\",\"chain\":\"SOL-Solana\",\"dest\":\"4\",\"fee\":\"0.008\",\"toAddr\":\"address\"}"
    );
}
