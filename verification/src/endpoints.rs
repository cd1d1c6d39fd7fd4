//! The five calls of the private API: for each, the path, the method, and
//! the query or the body that its arguments give.

use crate::constants::ASSETS_TRANSFER_PATH;
use crate::constants::ASSETS_WITHDRAWAL_PATH;
use crate::constants::GET_SUB_ACCOUNTS_FUNDING_BALANCE_PATH;
use crate::constants::GET_SUB_ACCOUNTS_LIST_PATH;
use crate::constants::GET_TRADING_ACCOUNT_BALANCE_PATH;
use crate::json::json_object_text;
use crate::method::Method;
use crate::schemas::transfer_members;
use crate::schemas::withdrawal_members;
use crate::schemas::AssetWithdrawalSchema;
use crate::schemas::AssetsTransferSchema;
use crate::schemas::TransferFields;
use crate::schemas::WithdrawalFields;
use crate::text::join;
use crate::text::joined;
use crate::text::text_pairs;
use crate::text::texts;
use vstd::prelude::*;
use vstd::string::StringExecFns;

verus! {

/// A call as text: path, query parameters in their order, method, and the
/// JSON text of the body.
pub ghost struct ApiCallView {
    pub path: Seq<char>,
    pub params: Option<Seq<(Seq<char>, Seq<char>)>>,
    pub method: Method,
    pub body: Option<Seq<char>>,
}

/// One call of the API, before it is signed.
#[derive(Debug)]
pub struct ApiCall {
    /// Path of the endpoint.
    pub path: &'static str,
    /// Query parameters, in the order in which they are signed and sent.
    pub params: Option<Vec<(String, String)>>,
    pub method: Method,
    /// The body as compact JSON text; `None` where nothing is sent.
    pub body: Option<String>,
}

impl View for ApiCall {
    type V = ApiCallView;

    open spec fn view(&self) -> ApiCallView {
        ApiCallView {
            path: self.path@,
            params: match self.params {
                Some(pairs) => Some(text_pairs(pairs@)),
                None => None,
            },
            method: self.method,
            body: match self.body {
                Some(json) => Some(json@),
                None => None,
            },
        }
    }
}

/// The query of the trading balance: nothing without a filter; with one, the
/// single parameter `ccy`, the currencies joined by commas.
pub open spec fn currency_filter(ccy: Option<Vec<String>>) -> Option<Seq<(Seq<char>, Seq<char>)>> {
    match ccy {
        Some(currencies) => Some(seq![("ccy"@, joined(texts(currencies@), seq![',']))]),
        None => None,
    }
}

/// The members of the body of a transfer of `amt` of `ccy` out of the
/// sub-account `sub_acct`.
pub open spec fn transfer_fields(
    ccy: Seq<char>,
    amt: Seq<char>,
    sub_acct: Seq<char>,
) -> TransferFields {
    TransferFields { ccy, amt, from: "6"@, to: "6"@, transfer_type: "2"@, sub_acct }
}

/// The members of the body of a withdrawal.
pub open spec fn withdrawal_fields(
    amt: Seq<char>,
    fee: Seq<char>,
    ccy: Seq<char>,
    chain: Seq<char>,
    to_addr: Seq<char>,
) -> WithdrawalFields {
    WithdrawalFields { amt, fee, dest: "4"@, ccy, chain: ccy + seq!['-'] + chain, to_addr }
}

/// A `POST` of the given JSON text to `path`.
pub open spec fn post_of(path: Seq<char>, body: Seq<char>) -> ApiCallView {
    ApiCallView { path, params: None, method: Method::Post, body: Some(body) }
}

impl ApiCall {
    /// Balance of the trading account, of all currencies or of those in
    /// `ccy`.
    pub fn trading_account_balance(ccy: Option<Vec<String>>) -> (call: ApiCall)
        ensures
            call@ == (ApiCallView {
                path: GET_TRADING_ACCOUNT_BALANCE_PATH@,
                params: currency_filter(ccy),
                method: Method::Get,
                body: None,
            }),
    {
        let params = match &ccy {
            Some(currencies) => {
                proof {
                    reveal_strlit(",");
                    assert(","@ =~= seq![',']);
                }
                let mut pairs: Vec<(String, String)> = Vec::new();
                pairs.push((String::from_str("ccy"), join(currencies, ",")));
                assert(text_pairs(pairs@) =~= seq![
                    ("ccy"@, joined(texts(currencies@), seq![','])),
                ]);
                Some(pairs)
            },
            None => None,
        };
        ApiCall { path: GET_TRADING_ACCOUNT_BALANCE_PATH, params, method: Method::Get, body: None }
    }

    /// Funding balance of the sub-account `account_name`.
    pub fn sub_account_funding_balance(account_name: &str) -> (call: ApiCall)
        ensures
            call@ == (ApiCallView {
                path: GET_SUB_ACCOUNTS_FUNDING_BALANCE_PATH@,
                params: Some(seq![("subAcct"@, account_name@)]),
                method: Method::Get,
                body: None,
            }),
    {
        let mut pairs: Vec<(String, String)> = Vec::new();
        pairs.push((String::from_str("subAcct"), String::from_str(account_name)));
        assert(text_pairs(pairs@) =~= seq![("subAcct"@, account_name@)]);
        ApiCall {
            path: GET_SUB_ACCOUNTS_FUNDING_BALANCE_PATH,
            params: Some(pairs),
            method: Method::Get,
            body: None,
        }
    }

    /// List of the sub-accounts.
    pub fn sub_accounts_list() -> (call: ApiCall)
        ensures
            call@ == (ApiCallView {
                path: GET_SUB_ACCOUNTS_LIST_PATH@,
                params: None,
                method: Method::Get,
                body: None,
            }),
    {
        ApiCall { path: GET_SUB_ACCOUNTS_LIST_PATH, params: None, method: Method::Get, body: None }
    }

    /// Transfer of `amount` of `ccy` from the funding account of the
    /// sub-account `sub_acct_name` to the master account.
    pub fn transfer(ccy: &str, amount: String, sub_acct_name: String) -> (call: ApiCall)
        ensures
            call@ == post_of(
                ASSETS_TRANSFER_PATH@,
                json_object_text(transfer_members(transfer_fields(ccy@, amount@, sub_acct_name@))),
            ),
    {
        let schema = AssetsTransferSchema::new(String::from_str(ccy), amount, sub_acct_name);
        ApiCall {
            path: ASSETS_TRANSFER_PATH,
            params: None,
            method: Method::Post,
            body: Some(schema.to_json()),
        }
    }

    /// Withdrawal of `amt`, a decimal number as text, of `ccy` to the
    /// address `to_addr` on `chain`, for the fee `fee`.
    pub fn withdraw(
        amt: String,
        fee: String,
        ccy: String,
        chain: String,
        to_addr: String,
    ) -> (call: ApiCall)
        ensures
            call@ == post_of(
                ASSETS_WITHDRAWAL_PATH@,
                json_object_text(
                    withdrawal_members(withdrawal_fields(amt@, fee@, ccy@, chain@, to_addr@)),
                ),
            ),
    {
        let schema = AssetWithdrawalSchema::new(amt, fee, ccy, chain, to_addr);
        ApiCall {
            path: ASSETS_WITHDRAWAL_PATH,
            params: None,
            method: Method::Post,
            body: Some(schema.to_json()),
        }
    }
}

} // verus!
