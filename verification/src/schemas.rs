//! The shapes of what the exchange answers and of what is sent to it.

use crate::error::OkxError;
use crate::error::OkxErrorView;
use crate::json::json_object_insert;
use crate::json::json_object_new;
use crate::json::json_object_text;
use crate::json::json_object_to_string;
use crate::json::Members;
use crate::text::str_eq;
use vstd::prelude::*;
use vstd::string::StringExecFns;

verus! {

/// The envelope around every answer: a code, `"0"` for success, and the
/// payload.
#[derive(Debug)]
pub struct OkxResponseSchema<T> {
    pub code: String,
    pub data: Vec<T>,
}

impl<T> OkxResponseSchema<T> {
    /// Whether the exchange reports success: the code is `"0"`.
    pub open spec fn is_success(&self) -> bool {
        self.code@ == "0"@
    }

    /// The first item of the payload, where there is one.
    pub fn get_data(&self) -> (first: Option<&T>)
        ensures
            match first {
                Some(item) => self.data@.len() > 0 && *item == self.data@[0],
                None => self.data@.len() == 0,
            },
    {
        if self.data.len() > 0 {
            Some(&self.data[0])
        } else {
            None
        }
    }

    /// Whether the exchange reports success.
    pub fn succeeded(&self) -> (ok: bool)
        ensures
            ok == self.is_success(),
    {
        str_eq(self.code.as_str(), "0")
    }

    /// Success for the code `"0"`; any other code is an error that carries
    /// the code.
    pub fn ensure_success(&self) -> (outcome: Result<(), OkxError>)
        ensures
            self.is_success() ==> outcome is Ok,
            !self.is_success() ==> (outcome matches Err(e) && e@ == OkxErrorView::ResponseCode(
                self.code@,
            )),
    {
        if self.succeeded() {
            Ok(())
        } else {
            Err(OkxError::ResponseCode { code: self.code.clone() })
        }
    }
}

/// What a withdrawal answers with.
#[derive(Debug)]
pub struct AssetsWithdrawalData {
    wd_id: String,
}

impl AssetsWithdrawalData {
    /// The identifier the exchange gave the withdrawal.
    pub closed spec fn withdrawal_id(&self) -> Seq<char> {
        self.wd_id@
    }

    pub fn new(wd_id: String) -> (data: Self)
        ensures
            data.withdrawal_id() == wd_id@,
    {
        Self { wd_id }
    }

    /// The identifier the exchange gave the withdrawal.
    pub fn wd_id(&self) -> (id: &str)
        ensures
            id@ == self.withdrawal_id(),
    {
        self.wd_id.as_str()
    }
}

/// Balance of one currency.
#[derive(Debug)]
pub struct GetBalanceResponseDataDetails {
    /// Available balance, a decimal number as text.
    pub avail_bal: String,
    /// The currency.
    pub ccy: String,
}

impl GetBalanceResponseDataDetails {
    /// The available balance, where this is the balance of `ccy`.
    pub fn get_balance(&self, ccy: &str) -> (balance: Option<String>)
        ensures
            match balance {
                Some(amount) => self.ccy@ == ccy@ && amount@ == self.avail_bal@,
                None => self.ccy@ != ccy@,
            },
    {
        if str_eq(self.ccy.as_str(), ccy) {
            Some(self.avail_bal.clone())
        } else {
            None
        }
    }
}

/// The available balance of the first of `details` that is a balance of
/// `ccy`.
pub open spec fn balance_of_currency(
    details: Seq<GetBalanceResponseDataDetails>,
    ccy: Seq<char>,
) -> Option<Seq<char>>
    decreases details.len(),
{
    if details.len() == 0 {
        None
    } else if details[0].ccy@ == ccy {
        Some(details[0].avail_bal@)
    } else {
        balance_of_currency(details.drop_first(), ccy)
    }
}

/// The available balance of the first of `details` that is a balance of
/// `ccy`, where there is one.
pub fn find_balance(
    details: &Vec<GetBalanceResponseDataDetails>,
    ccy: &str,
) -> (balance: Option<String>)
    ensures
        match balance {
            Some(amount) => balance_of_currency(details@, ccy@) == Some(amount@),
            None => balance_of_currency(details@, ccy@) is None,
        },
        match balance {
            Some(amount) => exists|i: int|
                0 <= i < details@.len() && details@[i].ccy@ == ccy@ && amount@
                    == details@[i].avail_bal@ && forall|j: int|
                    0 <= j < i ==> details@[j].ccy@ != ccy@,
            None => forall|i: int| 0 <= i < details@.len() ==> details@[i].ccy@ != ccy@,
        },
{
    let mut i: usize = 0;
    assert(details@.skip(0) =~= details@);
    while i < details.len()
        invariant
            i <= details@.len(),
            forall|j: int| 0 <= j < i ==> details@[j].ccy@ != ccy@,
            balance_of_currency(details@, ccy@) == balance_of_currency(
                details@.skip(i as int),
                ccy@,
            ),
        decreases details@.len() - i,
    {
        assert(details@.skip(i as int).drop_first() =~= details@.skip(i + 1));
        if str_eq(details[i].ccy.as_str(), ccy) {
            return Some(details[i].avail_bal.clone());
        }
        i += 1;
    }
    None
}

/// Balances of the trading account, one entry for each currency.
#[derive(Debug)]
pub struct GetTradingBalanceResponseData {
    pub details: Vec<GetBalanceResponseDataDetails>,
}

impl GetTradingBalanceResponseData {
    /// The available balance of the first entry for `ccy`, where there is
    /// one.
    pub fn get_balance(&self, ccy: &str) -> (balance: Option<String>)
        ensures
            match balance {
                Some(amount) => balance_of_currency(self.details@, ccy@) == Some(amount@),
                None => balance_of_currency(self.details@, ccy@) is None,
            },
            match balance {
                Some(amount) => exists|i: int|
                    0 <= i < self.details@.len() && self.details@[i].ccy@ == ccy@ && amount@
                        == self.details@[i].avail_bal@ && forall|j: int|
                        0 <= j < i ==> self.details@[j].ccy@ != ccy@,
                None => forall|i: int|
                    0 <= i < self.details@.len() ==> self.details@[i].ccy@ != ccy@,
            },
    {
        find_balance(&self.details, ccy)
    }
}

/// One sub-account of the list.
#[derive(Debug)]
pub struct GetSubAccountListData {
    /// The sub-account's name.
    pub sub_acct: String,
}

/// The members of a transfer's body.
pub ghost struct TransferFields {
    pub ccy: Seq<char>,
    pub amt: Seq<char>,
    pub from: Seq<char>,
    pub to: Seq<char>,
    pub transfer_type: Seq<char>,
    pub sub_acct: Seq<char>,
}

/// Body of a transfer from a sub-account's funding account to the master
/// account's.
#[derive(Debug)]
pub struct AssetsTransferSchema {
    ccy: String,
    amt: String,
    from: String,
    to: String,
    _type: String,
    sub_acct: String,
}

impl View for AssetsTransferSchema {
    type V = TransferFields;

    closed spec fn view(&self) -> TransferFields {
        TransferFields {
            ccy: self.ccy@,
            amt: self.amt@,
            from: self.from@,
            to: self.to@,
            transfer_type: self._type@,
            sub_acct: self.sub_acct@,
        }
    }
}

/// The JSON members of a transfer's body.
pub open spec fn transfer_members(fields: TransferFields) -> Members {
    Members::empty().insert("ccy"@, fields.ccy).insert("amt"@, fields.amt).insert(
        "from"@,
        fields.from,
    ).insert("to"@, fields.to).insert("type"@, fields.transfer_type).insert(
        "subAcct"@,
        fields.sub_acct,
    )
}

/// The body of a transfer has the six members `ccy`, `amt`, `from`, `to`,
/// `type` and `subAcct`, each with the value of its field.
pub proof fn lemma_transfer_members(fields: TransferFields)
    ensures
        transfer_members(fields).dom() =~= set![
            "ccy"@,
            "amt"@,
            "from"@,
            "to"@,
            "type"@,
            "subAcct"@,
        ],
        transfer_members(fields)["ccy"@] == fields.ccy,
        transfer_members(fields)["amt"@] == fields.amt,
        transfer_members(fields)["from"@] == fields.from,
        transfer_members(fields)["to"@] == fields.to,
        transfer_members(fields)["type"@] == fields.transfer_type,
        transfer_members(fields)["subAcct"@] == fields.sub_acct,
{
    reveal_strlit("ccy");
    reveal_strlit("amt");
    reveal_strlit("from");
    reveal_strlit("to");
    reveal_strlit("type");
    reveal_strlit("subAcct");
    assert("ccy"@[0] != "amt"@[0]);
    assert("from"@[0] != "type"@[0]);
    assert("to"@.len() != "type"@.len());
}

impl AssetsTransferSchema {
    /// A transfer of `amt` of `ccy` out of the sub-account `sub_acct`: from
    /// funding account (`"6"`) to funding account, sub-account to master
    /// (type `"2"`).
    pub fn new(ccy: String, amt: String, sub_acct: String) -> (body: Self)
        ensures
            body@ == (TransferFields {
                ccy: ccy@,
                amt: amt@,
                from: "6"@,
                to: "6"@,
                transfer_type: "2"@,
                sub_acct: sub_acct@,
            }),
    {
        Self {
            ccy,
            amt,
            from: String::from_str("6"),
            to: String::from_str("6"),
            _type: String::from_str("2"),
            sub_acct,
        }
    }

    /// The body as compact JSON text.
    pub fn to_json(&self) -> (text: String)
        ensures
            text@ == json_object_text(transfer_members(self@)),
    {
        let mut object = json_object_new();
        json_object_insert(&mut object, "ccy", self.ccy.as_str());
        json_object_insert(&mut object, "amt", self.amt.as_str());
        json_object_insert(&mut object, "from", self.from.as_str());
        json_object_insert(&mut object, "to", self.to.as_str());
        json_object_insert(&mut object, "type", self._type.as_str());
        json_object_insert(&mut object, "subAcct", self.sub_acct.as_str());
        json_object_to_string(&object)
    }
}

/// What a transfer answers with.
#[derive(Debug)]
pub struct AssetsTrasnferData {
    trans_id: String,
    ccy: String,
    amt: String,
}

impl AssetsTrasnferData {
    /// The identifier the exchange gave the transfer.
    pub closed spec fn transfer_id(&self) -> Seq<char> {
        self.trans_id@
    }

    /// The currency that was moved.
    pub closed spec fn currency(&self) -> Seq<char> {
        self.ccy@
    }

    /// The amount that was moved.
    pub closed spec fn amount(&self) -> Seq<char> {
        self.amt@
    }

    pub fn new(trans_id: String, ccy: String, amt: String) -> (data: Self)
        ensures
            data.transfer_id() == trans_id@,
            data.currency() == ccy@,
            data.amount() == amt@,
    {
        Self { trans_id, ccy, amt }
    }

    /// The identifier the exchange gave the transfer.
    pub fn trans_id(&self) -> (id: &str)
        ensures
            id@ == self.transfer_id(),
    {
        self.trans_id.as_str()
    }

    /// The currency that was moved.
    pub fn ccy(&self) -> (ccy: &str)
        ensures
            ccy@ == self.currency(),
    {
        self.ccy.as_str()
    }

    /// The amount that was moved.
    pub fn amt(&self) -> (amt: &str)
        ensures
            amt@ == self.amount(),
    {
        self.amt.as_str()
    }
}

/// The members of a withdrawal's body.
pub ghost struct WithdrawalFields {
    pub amt: Seq<char>,
    pub fee: Seq<char>,
    pub dest: Seq<char>,
    pub ccy: Seq<char>,
    pub chain: Seq<char>,
    pub to_addr: Seq<char>,
}

/// Body of an on-chain withdrawal.
#[derive(Debug)]
pub struct AssetWithdrawalSchema {
    amt: String,
    fee: String,
    dest: String,
    ccy: String,
    chain: String,
    to_addr: String,
}

impl View for AssetWithdrawalSchema {
    type V = WithdrawalFields;

    closed spec fn view(&self) -> WithdrawalFields {
        WithdrawalFields {
            amt: self.amt@,
            fee: self.fee@,
            dest: self.dest@,
            ccy: self.ccy@,
            chain: self.chain@,
            to_addr: self.to_addr@,
        }
    }
}

/// The JSON members of a withdrawal's body.
pub open spec fn withdrawal_members(fields: WithdrawalFields) -> Members {
    Members::empty().insert("amt"@, fields.amt).insert("fee"@, fields.fee).insert(
        "dest"@,
        fields.dest,
    ).insert("ccy"@, fields.ccy).insert("chain"@, fields.chain).insert("toAddr"@, fields.to_addr)
}

/// The body of a withdrawal has the six members `amt`, `fee`, `dest`,
/// `ccy`, `chain` and `toAddr`, each with the value of its field.
pub proof fn lemma_withdrawal_members(fields: WithdrawalFields)
    ensures
        withdrawal_members(fields).dom() =~= set![
            "amt"@,
            "fee"@,
            "dest"@,
            "ccy"@,
            "chain"@,
            "toAddr"@,
        ],
        withdrawal_members(fields)["amt"@] == fields.amt,
        withdrawal_members(fields)["fee"@] == fields.fee,
        withdrawal_members(fields)["dest"@] == fields.dest,
        withdrawal_members(fields)["ccy"@] == fields.ccy,
        withdrawal_members(fields)["chain"@] == fields.chain,
        withdrawal_members(fields)["toAddr"@] == fields.to_addr,
{
    reveal_strlit("amt");
    reveal_strlit("fee");
    reveal_strlit("dest");
    reveal_strlit("ccy");
    reveal_strlit("chain");
    reveal_strlit("toAddr");
    assert("amt"@[0] != "fee"@[0]);
    assert("dest"@[0] != "chain"@[0]);
    assert("ccy"@.len() != "chain"@.len());
}

impl AssetWithdrawalSchema {
    /// A withdrawal of `amt`, a decimal number as text, of `ccy` to the
    /// address `to_addr` on `chain`. The destination is on-chain (`"4"`),
    /// and the chain is written as the currency, `-`, and the chain's name.
    pub fn new(
        amt: String,
        fee: String,
        ccy: String,
        chain: String,
        to_addr: String,
    ) -> (body: Self)
        ensures
            body@ == (WithdrawalFields {
                amt: amt@,
                fee: fee@,
                dest: "4"@,
                ccy: ccy@,
                chain: ccy@ + seq!['-'] + chain@,
                to_addr: to_addr@,
            }),
    {
        let mut full_chain = String::from_str(ccy.as_str());
        proof {
            reveal_strlit("-");
            assert("-"@ =~= seq!['-']);
        }
        full_chain.append("-");
        full_chain.append(chain.as_str());
        Self { amt, fee, dest: String::from_str("4"), ccy, chain: full_chain, to_addr }
    }

    /// The body as compact JSON text.
    pub fn to_json(&self) -> (text: String)
        ensures
            text@ == json_object_text(withdrawal_members(self@)),
    {
        let mut object = json_object_new();
        json_object_insert(&mut object, "amt", self.amt.as_str());
        json_object_insert(&mut object, "fee", self.fee.as_str());
        json_object_insert(&mut object, "dest", self.dest.as_str());
        json_object_insert(&mut object, "ccy", self.ccy.as_str());
        json_object_insert(&mut object, "chain", self.chain.as_str());
        json_object_insert(&mut object, "toAddr", self.to_addr.as_str());
        json_object_to_string(&object)
    }
}

} // verus!
