use okx_client::balances::FundingBalance;
use okx_client::balances::SubAccountBalances;
use okx_client::error::OkxError;
use okx_client::method::Method;
use okx_client::schemas::AssetsTrasnferData;
use okx_client::schemas::GetBalanceResponseDataDetails;
use okx_client::schemas::GetSubAccountListData;
use okx_client::schemas::OkxResponseSchema;
use okx_client::sweep::BalanceSweep;
use okx_client::sweep::SweepAction;
use okx_client::transfers::plan_transfers;
use okx_client::transfers::TransferAction;
use okx_client::transfers::TransferFailure;
use okx_client::transfers::TransferSweep;

fn balance(entries: &[(&str, &str)]) -> FundingBalance {
    OkxResponseSchema {
        code: "0".to_string(),
        data: entries
            .iter()
            .map(|(ccy, avail_bal)| GetBalanceResponseDataDetails {
                avail_bal: avail_bal.to_string(),
                ccy: ccy.to_string(),
            })
            .collect(),
    }
}

fn accounts(names: &[&str]) -> OkxResponseSchema<GetSubAccountListData> {
    OkxResponseSchema {
        code: "0".to_string(),
        data: names.iter().map(|name| GetSubAccountListData { sub_acct: name.to_string() }).collect(),
    }
}

fn transferred(code: &str) -> OkxResponseSchema<AssetsTrasnferData> {
    OkxResponseSchema {
        code: code.to_string(),
        data: vec![AssetsTrasnferData::new("1".to_string(), "ETH".to_string(), "1".to_string())],
    }
}

fn three_balances() -> SubAccountBalances {
    SubAccountBalances::new()
        .insert("alpha".to_string(), balance(&[("ETH", "1.5")]))
        .insert("beta".to_string(), balance(&[("BTC", "2")]))
        .insert("gamma".to_string(), balance(&[("BTC", "3"), ("ETH", "0.25")]))
}

fn body_of<E>(action: TransferAction<E>) -> String {
    match action {
        TransferAction::Send(call) => {
            assert_eq!(call.path, "/api/v5/asset/transfer");
            assert_eq!(call.method, Method::Post);
            assert_eq!(call.params, None);
            call.body.unwrap()
        }
        _ => panic!("a transfer was expected"),
    }
}

#[test]
fn balances_keep_one_entry_for_a_name() {
    let balances = SubAccountBalances::new()
        .insert("alpha".to_string(), balance(&[("ETH", "1")]))
        .insert("beta".to_string(), balance(&[("ETH", "2")]))
        .insert("alpha".to_string(), balance(&[("ETH", "3")]));
    assert_eq!(balances.len(), 2);
    assert_eq!(balances.get("alpha").unwrap().data[0].avail_bal, "3");
    assert_eq!(balances.get("beta").unwrap().data[0].avail_bal, "2");
    assert!(balances.get("gamma").is_none());
    assert_eq!(balances.entry(0).unwrap().0, "alpha");
    assert_eq!(balances.entry(1).unwrap().0, "beta");
    assert!(balances.entry(2).is_none());
}

#[test]
fn empty_balances() {
    let balances = SubAccountBalances::new();
    assert_eq!(balances.len(), 0);
    assert!(balances.get("alpha").is_none());
    assert!(balances.entry(0).is_none());
}

#[test]
fn sweep_over_no_accounts_finishes_at_once() {
    let (sweep, action) = BalanceSweep::begin::<String>(accounts(&[]));
    match action {
        SweepAction::Finish(balances) => assert_eq!(balances.len(), 0),
        _ => panic!("the sweep should be complete"),
    }
    let (_, action) = sweep.advance::<String>(Ok(balance(&[])));
    assert!(matches!(action, SweepAction::Idle));
}

#[test]
fn sweep_asks_for_each_account_once() {
    let names = ["alpha", "beta", "gamma"];
    let (mut sweep, mut action) = BalanceSweep::begin::<String>(accounts(&names));
    let mut asked = Vec::new();
    let balances = loop {
        match action {
            SweepAction::Fetch(name) => {
                let amount = format!("{}", asked.len());
                asked.push(name);
                let next = sweep.advance::<String>(Ok(balance(&[("ETH", &amount)])));
                sweep = next.0;
                action = next.1;
            }
            SweepAction::Finish(balances) => break balances,
            _ => panic!("the sweep should go on or finish"),
        }
    };
    assert_eq!(asked, vec!["alpha", "beta", "gamma"]);
    assert_eq!(balances.len(), 3);
    assert_eq!(balances.get("alpha").unwrap().data[0].avail_bal, "0");
    assert_eq!(balances.get("beta").unwrap().data[0].avail_bal, "1");
    assert_eq!(balances.get("gamma").unwrap().data[0].avail_bal, "2");
    let (_, action) = sweep.advance::<String>(Ok(balance(&[])));
    assert!(matches!(action, SweepAction::Idle));
}

#[test]
fn sweep_ends_with_the_first_error() {
    let (sweep, action) = BalanceSweep::begin::<String>(accounts(&["alpha", "beta", "gamma"]));
    assert!(matches!(action, SweepAction::Fetch(ref name) if name == "alpha"));
    let (sweep, action) = sweep.advance::<String>(Ok(balance(&[("ETH", "1")])));
    assert!(matches!(action, SweepAction::Fetch(ref name) if name == "beta"));
    let (sweep, action) = sweep.advance::<String>(Err("connection reset".to_string()));
    match action {
        SweepAction::Abort(error) => assert_eq!(error, "connection reset"),
        _ => panic!("the sweep should be over"),
    }
    let (sweep, action) = sweep.advance::<String>(Ok(balance(&[("ETH", "1")])));
    assert!(matches!(action, SweepAction::Idle));
    let (_, action) = sweep.advance::<String>(Err("again".to_string()));
    assert!(matches!(action, SweepAction::Idle));
}

#[test]
fn sweep_keeps_an_answer_with_another_code() {
    let (sweep, _) = BalanceSweep::begin::<String>(accounts(&["alpha"]));
    let refused: FundingBalance = OkxResponseSchema { code: "58000".to_string(), data: vec![] };
    let (_, action) = sweep.advance::<String>(Ok(refused));
    match action {
        SweepAction::Finish(balances) => {
            assert_eq!(balances.len(), 1);
            assert_eq!(balances.get("alpha").unwrap().code, "58000");
        }
        _ => panic!("the sweep should be complete"),
    }
}

#[test]
fn sweep_over_a_name_that_comes_twice() {
    let (sweep, _) = BalanceSweep::begin::<String>(accounts(&["alpha", "alpha"]));
    let (sweep, action) = sweep.advance::<String>(Ok(balance(&[("ETH", "1")])));
    assert!(matches!(action, SweepAction::Fetch(ref name) if name == "alpha"));
    let (_, action) = sweep.advance::<String>(Ok(balance(&[("ETH", "2")])));
    match action {
        SweepAction::Finish(balances) => {
            assert_eq!(balances.len(), 1);
            assert_eq!(balances.get("alpha").unwrap().data[0].avail_bal, "2");
        }
        _ => panic!("the sweep should be complete"),
    }
}

#[test]
fn transfers_are_planned_for_the_accounts_that_hold_the_currency() {
    let plan = plan_transfers(&three_balances(), "ETH");
    assert_eq!(plan.len(), 2);
    assert_eq!(
        plan[0].to_json(),
        "{\"amt\":\"1.5\",\"ccy\":\"ETH\",\"from\":\"6\",\"subAcct\":\"alpha\",\"to\":\"6\",\"type\":\"2\"}"
    );
    assert_eq!(
        plan[1].to_json(),
        "{\"amt\":\"0.25\",\"ccy\":\"ETH\",\"from\":\"6\",\"subAcct\":\"gamma\",\"to\":\"6\",\"type\":\"2\"}"
    );
    assert_eq!(plan_transfers(&three_balances(), "SOL").len(), 0);
    assert_eq!(plan_transfers(&SubAccountBalances::new(), "ETH").len(), 0);
}

#[test]
fn transfer_sweep_sends_one_transfer_after_the_other() {
    let (sweep, action) = TransferSweep::begin::<String>(&three_balances(), "ETH");
    assert_eq!(
        body_of(action),
        "{\"amt\":\"1.5\",\"ccy\":\"ETH\",\"from\":\"6\",\"subAcct\":\"alpha\",\"to\":\"6\",\"type\":\"2\"}"
    );
    let (sweep, action) = sweep.advance::<String>(Ok(transferred("0")));
    assert_eq!(
        body_of(action),
        "{\"amt\":\"0.25\",\"ccy\":\"ETH\",\"from\":\"6\",\"subAcct\":\"gamma\",\"to\":\"6\",\"type\":\"2\"}"
    );
    let (sweep, action) = sweep.advance::<String>(Ok(transferred("0")));
    assert!(matches!(action, TransferAction::Finish));
    let (_, action) = sweep.advance::<String>(Ok(transferred("0")));
    assert!(matches!(action, TransferAction::Idle));
}

#[test]
fn transfer_sweep_without_transfers_finishes_at_once() {
    let (sweep, action) = TransferSweep::begin::<String>(&three_balances(), "SOL");
    assert!(matches!(action, TransferAction::Finish));
    let (_, action) = sweep.advance::<String>(Ok(transferred("0")));
    assert!(matches!(action, TransferAction::Idle));
}

#[test]
fn transfer_sweep_ends_with_a_refused_transfer() {
    let (sweep, _) = TransferSweep::begin::<String>(&three_balances(), "ETH");
    let (sweep, action) = sweep.advance::<String>(Ok(transferred("58350")));
    match action {
        TransferAction::Abort(TransferFailure::Refused(error)) => {
            assert_eq!(error, OkxError::ResponseCode { code: "58350".to_string() });
            assert_eq!(error.describe(), "Response code is not OK: 58350");
        }
        _ => panic!("the sweep should be over"),
    }
    let (_, action) = sweep.advance::<String>(Ok(transferred("0")));
    assert!(matches!(action, TransferAction::Idle));
}

#[test]
fn transfer_sweep_ends_with_a_failed_call() {
    let (sweep, _) = TransferSweep::begin::<String>(&three_balances(), "ETH");
    let (sweep, _) = sweep.advance::<String>(Ok(transferred("0")));
    let (sweep, action) = sweep.advance::<String>(Err("timed out".to_string()));
    match action {
        TransferAction::Abort(TransferFailure::Call(error)) => assert_eq!(error, "timed out"),
        _ => panic!("the sweep should be over"),
    }
    let (_, action) = sweep.advance::<String>(Ok(transferred("0")));
    assert!(matches!(action, TransferAction::Idle));
}
