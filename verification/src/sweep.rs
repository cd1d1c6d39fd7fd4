//! Collecting the funding balance of every sub-account: one call for each,
//! in the order of the list, ended by the first call that fails.
//!
//! The calls themselves are made by the caller. The sweep tells it what to
//! do next, and the caller hands back what came of it.

use crate::balances::has_name;
use crate::balances::names_distinct;
use crate::balances::with_balance;
use crate::balances::Entries;
use crate::balances::FundingBalance;
use crate::balances::SubAccountBalances;
use crate::schemas::GetSubAccountListData;
use crate::schemas::OkxResponseSchema;
use vstd::prelude::*;

verus! {

/// What the caller of a sweep is to do next.
#[derive(Debug)]
pub enum SweepAction<E> {
    /// Ask for the funding balance of this sub-account, and hand the answer
    /// to `advance`.
    Fetch(String),
    /// Every sub-account has answered; these are the balances.
    Finish(SubAccountBalances),
    /// A call failed. The sweep is over; its outcome is this error.
    Abort(E),
    /// The sweep was over before; there is nothing to do.
    Idle,
}

/// A step to take, with names and balances as text.
pub ghost enum SweepActionView<E> {
    Fetch(Seq<char>),
    Finish(Entries),
    Abort(E),
    Idle,
}

impl<E> View for SweepAction<E> {
    type V = SweepActionView<E>;

    open spec fn view(&self) -> SweepActionView<E> {
        match self {
            SweepAction::Fetch(name) => SweepActionView::Fetch(name@),
            SweepAction::Finish(balances) => SweepActionView::Finish(balances@),
            SweepAction::Abort(error) => SweepActionView::Abort(*error),
            SweepAction::Idle => SweepActionView::Idle,
        }
    }
}

/// A sweep as text.
pub ghost struct SweepView {
    /// The sub-accounts, in the order of the list.
    pub names: Seq<Seq<char>>,
    /// How many of them have answered.
    pub answered: nat,
    /// What those answered, by name.
    pub balances: Entries,
    /// Whether an answer is awaited.
    pub open: bool,
}

/// The sub-account names of a list.
pub open spec fn account_names(accounts: Seq<GetSubAccountListData>) -> Seq<Seq<char>> {
    accounts.map_values(|a: GetSubAccountListData| a.sub_acct@)
}

/// A sweep that awaits no answer.
pub open spec fn closed_sweep(names: Seq<Seq<char>>, answered: nat) -> SweepView {
    SweepView { names, answered, balances: Entries::empty(), open: false }
}

/// The start of a sweep over `names`: the first sub-account is asked; with
/// no sub-accounts the sweep is complete at once.
pub open spec fn sweep_begin<E>(names: Seq<Seq<char>>) -> (SweepView, SweepActionView<E>) {
    if names.len() == 0 {
        (closed_sweep(names, 0), SweepActionView::Finish(Entries::empty()))
    } else {
        (
            SweepView { names, answered: 0, balances: Entries::empty(), open: true },
            SweepActionView::Fetch(names[0]),
        )
    }
}

/// What follows an answer. An error ends the sweep. A balance is put under
/// the name of the sub-account that was asked; then the next sub-account is
/// asked, or, after the last one, the sweep is complete.
pub open spec fn sweep_advance<E>(
    sweep: SweepView,
    answer: Result<FundingBalance, E>,
) -> (SweepView, SweepActionView<E>) {
    if !sweep.open || sweep.answered >= sweep.names.len() {
        (sweep, SweepActionView::Idle)
    } else {
        match answer {
            Err(error) => (
                closed_sweep(sweep.names, sweep.answered),
                SweepActionView::Abort(error),
            ),
            Ok(balance) => {
                let name = sweep.names[sweep.answered as int];
                let balances = with_balance(sweep.balances, name, balance);
                let answered = sweep.answered + 1;
                if answered < sweep.names.len() {
                    (
                        SweepView { names: sweep.names, answered, balances, open: true },
                        SweepActionView::Fetch(sweep.names[answered as int]),
                    )
                } else {
                    (closed_sweep(sweep.names, answered), SweepActionView::Finish(balances))
                }
            },
        }
    }
}

/// Answers that all hold a balance.
pub open spec fn all_ok<E>(balances: Seq<FundingBalance>) -> Seq<Result<FundingBalance, E>> {
    balances.map_values(|b: FundingBalance| Ok::<FundingBalance, E>(b))
}

/// `start` with each of `balances` put under the name at its place in
/// `names`, one after the other.
pub open spec fn collected(
    start: Entries,
    names: Seq<Seq<char>>,
    balances: Seq<FundingBalance>,
) -> Entries
    decreases names.len(),
{
    if names.len() == 0 || balances.len() == 0 {
        start
    } else {
        collected(
            with_balance(start, names[0], balances[0]),
            names.drop_first(),
            balances.drop_first(),
        )
    }
}

/// Each of `names` with the balance at its place in `balances`.
pub open spec fn paired(names: Seq<Seq<char>>, balances: Seq<FundingBalance>) -> Entries {
    Seq::new(names.len(), |i: int| (names[i], balances[i]))
}

proof fn lemma_collected_appends(
    start: Entries,
    names: Seq<Seq<char>>,
    balances: Seq<FundingBalance>,
)
    requires
        names.len() == balances.len(),
        forall|i: int, j: int| 0 <= i < j < names.len() ==> names[i] != names[j],
        forall|i: int, j: int|
            0 <= i < start.len() && 0 <= j < names.len() ==> start[i].0 != names[j],
    ensures
        collected(start, names, balances) == start + paired(names, balances),
    decreases names.len(),
{
    if names.len() == 0 {
        assert(start + paired(names, balances) =~= start);
    } else {
        assert(!has_name(start, names[0]));
        let next = with_balance(start, names[0], balances[0]);
        assert(next == start.push((names[0], balances[0])));
        let later = names.drop_first();
        assert forall|i: int, j: int| 0 <= i < next.len() && 0 <= j < later.len() implies next[i].0
            != later[j] by {
            assert(later[j] == names[j + 1]);
        }
        assert forall|i: int, j: int| 0 <= i < j < later.len() implies later[i] != later[j] by {
            assert(later[i] == names[i + 1]);
            assert(later[j] == names[j + 1]);
        }
        lemma_collected_appends(next, later, balances.drop_first());
        assert(next + paired(later, balances.drop_first()) =~= start + paired(names, balances));
    }
}

/// Where no name stands twice in the list, the balances that a sweep
/// collects are the names of the list, in its order, each with the balance
/// that was answered for it.
pub proof fn lemma_collected_by_name(names: Seq<Seq<char>>, balances: Seq<FundingBalance>)
    requires
        names.len() == balances.len(),
        forall|i: int, j: int| 0 <= i < j < names.len() ==> names[i] != names[j],
    ensures
        collected(Entries::empty(), names, balances) == paired(names, balances),
        names_distinct(paired(names, balances)),
{
    lemma_collected_appends(Entries::empty(), names, balances);
}

/// What a sweep in the state `sweep` tells its caller as `answers` come in,
/// one action for each answer.
pub open spec fn actions_after<E>(
    sweep: SweepView,
    answers: Seq<Result<FundingBalance, E>>,
) -> Seq<SweepActionView<E>>
    decreases answers.len(),
{
    if answers.len() == 0 {
        Seq::empty()
    } else {
        let (next, action) = sweep_advance(sweep, answers[0]);
        seq![action] + actions_after(next, answers.drop_first())
    }
}

/// What a sweep over `names` tells its caller from its start on, as
/// `answers` come in.
pub open spec fn sweep_actions<E>(
    names: Seq<Seq<char>>,
    answers: Seq<Result<FundingBalance, E>>,
) -> Seq<SweepActionView<E>> {
    let (sweep, action) = sweep_begin::<E>(names);
    seq![action] + actions_after(sweep, answers)
}

proof fn lemma_answers_all_ok<E>(
    sweep: SweepView,
    balances: Seq<FundingBalance>,
)
    requires
        sweep.open,
        sweep.answered + balances.len() == sweep.names.len(),
        balances.len() > 0,
    ensures
        ({
            let actions = actions_after::<E>(sweep, all_ok(balances));
            let last = balances.len() - 1;
            &&& actions.len() == balances.len()
            &&& forall|i: int|
                0 <= i < last ==> actions[i] == SweepActionView::<E>::Fetch(
                    sweep.names[sweep.answered + 1 + i],
                )
            &&& actions[last] == SweepActionView::<E>::Finish(
                collected(sweep.balances, sweep.names.skip(sweep.answered as int), balances),
            )
        }),
    decreases balances.len(),
{
    let answers = all_ok::<E>(balances);
    let (next, action) = sweep_advance(sweep, answers[0]);
    let rest = actions_after::<E>(next, answers.drop_first());
    let actions = actions_after::<E>(sweep, answers);
    assert(actions == seq![action] + rest);
    let remaining = sweep.names.skip(sweep.answered as int);
    let filled = with_balance(sweep.balances, sweep.names[sweep.answered as int], balances[0]);
    assert(remaining[0] == sweep.names[sweep.answered as int]);
    assert(remaining.drop_first() =~= sweep.names.skip(sweep.answered as int + 1));
    assert(answers.drop_first() =~= all_ok::<E>(balances.drop_first()));
    assert(collected(sweep.balances, remaining, balances) == collected(
        filled,
        remaining.drop_first(),
        balances.drop_first(),
    ));
    if balances.len() == 1 {
        assert(remaining.drop_first().len() == 0);
        assert(rest =~= Seq::empty());
        assert(action == SweepActionView::<E>::Finish(filled));
    } else {
        lemma_answers_all_ok::<E>(next, balances.drop_first());
        assert(action == SweepActionView::<E>::Fetch(sweep.names[sweep.answered as int + 1]));
        assert forall|i: int| 0 <= i < balances.len() - 1 implies actions[i] == SweepActionView::<
            E,
        >::Fetch(sweep.names[sweep.answered + 1 + i]) by {
            if i > 0 {
                assert(actions[i] == rest[i - 1]);
            }
        }
        assert(actions[balances.len() - 1] == rest[balances.len() - 2]);
    }
}

proof fn lemma_answers_end_in_error<E>(
    sweep: SweepView,
    balances: Seq<FundingBalance>,
    error: E,
)
    requires
        sweep.open,
        sweep.answered + balances.len() < sweep.names.len(),
    ensures
        ({
            let actions = actions_after::<E>(sweep, all_ok(balances).push(Err(error)));
            &&& actions.len() == balances.len() + 1
            &&& forall|i: int|
                0 <= i < balances.len() ==> actions[i] == SweepActionView::<E>::Fetch(
                    sweep.names[sweep.answered + 1 + i],
                )
            &&& actions[balances.len() as int] == SweepActionView::<E>::Abort(error)
        }),
    decreases balances.len(),
{
    let answers = all_ok::<E>(balances).push(Err(error));
    let (next, action) = sweep_advance(sweep, answers[0]);
    if balances.len() == 0 {
        assert(actions_after::<E>(next, answers.drop_first()) =~= Seq::empty());
    } else {
        assert(answers.drop_first() =~= all_ok::<E>(balances.drop_first()).push(Err(error)));
        lemma_answers_end_in_error::<E>(next, balances.drop_first(), error);
    }
}

/// Where every call succeeds, a sweep over a list of N sub-accounts asks
/// for exactly N balances, one for each sub-account in the order of the
/// list, and then finishes with the balances put under the names.
pub proof fn lemma_sweep_asks_each_account_once<E>(
    names: Seq<Seq<char>>,
    balances: Seq<FundingBalance>,
)
    requires
        names.len() == balances.len(),
    ensures
        ({
            let actions = sweep_actions::<E>(names, all_ok(balances));
            &&& actions.len() == names.len() + 1
            &&& forall|i: int|
                0 <= i < names.len() ==> actions[i] == SweepActionView::<E>::Fetch(names[i])
            &&& actions[names.len() as int] == SweepActionView::<E>::Finish(
                collected(Entries::empty(), names, balances),
            )
        }),
{
    let (sweep, action) = sweep_begin::<E>(names);
    if names.len() == 0 {
        assert(actions_after::<E>(sweep, all_ok(balances)) =~= Seq::empty());
    } else {
        lemma_answers_all_ok::<E>(sweep, balances);
        assert(names.skip(0) =~= names);
    }
}

/// Where the call for the sub-account at place K of the list is the first
/// to fail, a sweep asks for the balances of the sub-accounts up to that
/// one, in the order of the list, and then ends with the error of that
/// call: it asks for no further balance and hands out no balances.
pub proof fn lemma_sweep_ends_with_first_error<E>(
    names: Seq<Seq<char>>,
    balances: Seq<FundingBalance>,
    error: E,
)
    requires
        balances.len() < names.len(),
    ensures
        ({
            let failed = balances.len() as int;
            let actions = sweep_actions::<E>(names, all_ok(balances).push(Err(error)));
            &&& actions.len() == failed + 2
            &&& forall|i: int|
                0 <= i <= failed ==> actions[i] == SweepActionView::<E>::Fetch(names[i])
            &&& actions[failed + 1] == SweepActionView::<E>::Abort(error)
            &&& forall|i: int| 0 <= i < actions.len() ==> !(actions[i] is Finish)
        }),
{
    let (sweep, action) = sweep_begin::<E>(names);
    lemma_answers_end_in_error::<E>(sweep, balances, error);
}

/// Once a sweep is over, whatever is handed to it changes nothing and asks
/// for nothing.
pub proof fn lemma_sweep_stays_closed<E>(sweep: SweepView, answer: Result<FundingBalance, E>)
    requires
        !sweep.open,
    ensures
        sweep_advance(sweep, answer) == (sweep, SweepActionView::<E>::Idle),
{
}

/// The collection of the funding balances of a list of sub-accounts.
#[derive(Debug)]
pub struct BalanceSweep {
    accounts: Vec<GetSubAccountListData>,
    answered: usize,
    balances: SubAccountBalances,
    open: bool,
}

impl View for BalanceSweep {
    type V = SweepView;

    closed spec fn view(&self) -> SweepView {
        SweepView {
            names: account_names(self.accounts@),
            answered: self.answered as nat,
            balances: self.balances@,
            open: self.open,
        }
    }
}

impl BalanceSweep {
    /// Starts a sweep over the sub-accounts of `accounts`.
    pub fn begin<E>(
        accounts: OkxResponseSchema<GetSubAccountListData>,
    ) -> (started: (BalanceSweep, SweepAction<E>))
        ensures
            (started.0@, started.1@) == sweep_begin::<E>(account_names(accounts.data@)),
    {
        let accounts = accounts.data;
        let balances = SubAccountBalances::new();
        if accounts.len() == 0 {
            (
                BalanceSweep { accounts, answered: 0, balances, open: false },
                SweepAction::Finish(SubAccountBalances::new()),
            )
        } else {
            let first = accounts[0].sub_acct.clone();
            let sweep = BalanceSweep { accounts, answered: 0, balances, open: true };
            (sweep, SweepAction::Fetch(first))
        }
    }

    /// Takes the answer to the call that the sweep asked for last, and says
    /// what to do next.
    pub fn advance<E>(
        self,
        answer: Result<FundingBalance, E>,
    ) -> (next: (BalanceSweep, SweepAction<E>))
        ensures
            (next.0@, next.1@) == sweep_advance(self@, answer),
    {
        let BalanceSweep { accounts, answered, balances, open } = self;
        if !open || answered >= accounts.len() {
            return (BalanceSweep { accounts, answered, balances, open }, SweepAction::Idle);
        }
        match answer {
            Err(error) => {
                let balances = SubAccountBalances::new();
                let sweep = BalanceSweep { accounts, answered, balances, open: false };
                (sweep, SweepAction::Abort(error))
            },
            Ok(balance) => {
                let balances = balances.insert(accounts[answered].sub_acct.clone(), balance);
                let answered = answered + 1;
                if answered < accounts.len() {
                    let name = accounts[answered].sub_acct.clone();
                    (
                        BalanceSweep { accounts, answered, balances, open: true },
                        SweepAction::Fetch(name),
                    )
                } else {
                    let left = SubAccountBalances::new();
                    (
                        BalanceSweep { accounts, answered, balances: left, open: false },
                        SweepAction::Finish(balances),
                    )
                }
            },
        }
    }
}

} // verus!
