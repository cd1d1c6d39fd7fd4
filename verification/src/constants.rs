//! Fixed endpoints of the exchange and the names of the authentication headers.

use vstd::prelude::*;

verus! {

/// Scheme and host every request is sent to.
pub const OKX_BASE_DOMAIN_URL: &'static str = "https://www.okx.com";

/// `GET`: balance of the trading account.
pub const GET_TRADING_ACCOUNT_BALANCE_PATH: &'static str = "/api/v5/account/balance";

/// `GET`: funding balance of one sub-account.
pub const GET_SUB_ACCOUNTS_FUNDING_BALANCE_PATH: &'static str = "/api/v5/asset/subaccount/balances";

/// `GET`: list of the sub-accounts.
pub const GET_SUB_ACCOUNTS_LIST_PATH: &'static str = "/api/v5/users/subaccount/list";

/// `POST`: transfer between accounts.
pub const ASSETS_TRANSFER_PATH: &'static str = "/api/v5/asset/transfer";

/// `POST`: on-chain withdrawal.
pub const ASSETS_WITHDRAWAL_PATH: &'static str = "/api/v5/asset/withdrawal";

/// Header that carries the API key.
pub const ACCESS_KEY_HEADER: &'static str = "OK-ACCESS-KEY";

/// Header that carries the passphrase chosen when the API key was created.
pub const ACCESS_PASSPHRASE_HEADER: &'static str = "OK-ACCESS-PASSPHRASE";

/// Header that carries the Base64 signature of the request.
pub const ACCESS_SIGN_HEADER: &'static str = "OK-ACCESS-SIGN";

/// Header that carries the timestamp the signature was computed over.
pub const ACCESS_TIMESTAMP_HEADER: &'static str = "OK-ACCESS-TIMESTAMP";

/// Header that says what the body is.
pub const CONTENT_TYPE_HEADER: &'static str = "content-type";

/// The content type of a JSON body.
pub const JSON_CONTENT_TYPE: &'static str = "application/json";

} // verus!
