//! Moving one currency from the funding accounts of the sub-accounts to the
//! master account: one transfer for each sub-account that holds the
//! currency, one at a time, ended by the first transfer that fails. What
//! was transferred before stays transferred.
//!
//! The calls themselves are made by the caller. The sweep tells it what to
//! do next, and the caller hands back what came of it.

use crate::balances::Entries;
use crate::balances::SubAccountBalances;
use crate::constants::ASSETS_TRANSFER_PATH;
use crate::endpoints::post_of;
use crate::endpoints::transfer_fields;
use crate::endpoints::ApiCall;
use crate::endpoints::ApiCallView;
use crate::error::OkxError;
use crate::error::OkxErrorView;
use crate::json::json_object_text;
use crate::method::Method;
use crate::schemas::balance_of_currency;
use crate::schemas::find_balance;
use crate::schemas::transfer_members;
use crate::schemas::AssetsTransferSchema;
use crate::schemas::AssetsTrasnferData;
use crate::schemas::OkxResponseSchema;
use crate::schemas::TransferFields;
use vstd::prelude::*;
use vstd::string::StringExecFns;

verus! {

/// The bodies of the transfers as text.
pub open spec fn transfer_views(plan: Seq<AssetsTransferSchema>) -> Seq<TransferFields> {
    plan.map_values(|t: AssetsTransferSchema| t@)
}

/// The transfers that move `ccy` out of the sub-accounts of `entries`: in
/// the order of the entries, one for each sub-account that has a balance of
/// `ccy`, over the whole of the available balance. Sub-accounts without a
/// balance of the currency are passed over.
pub open spec fn planned_transfers(entries: Entries, ccy: Seq<char>) -> Seq<TransferFields>
    decreases entries.len(),
{
    if entries.len() == 0 {
        Seq::empty()
    } else {
        let earlier = planned_transfers(entries.drop_last(), ccy);
        match balance_of_currency(entries.last().1.data@, ccy) {
            Some(amount) => earlier.push(transfer_fields(ccy, amount, entries.last().0)),
            None => earlier,
        }
    }
}

/// The transfers that move `ccy` out of the sub-accounts of `balances`.
pub fn plan_transfers(balances: &SubAccountBalances, ccy: &str) -> (plan: Vec<AssetsTransferSchema>)
    ensures
        transfer_views(plan@) == planned_transfers(balances@, ccy@),
{
    let mut plan: Vec<AssetsTransferSchema> = Vec::new();
    let count = balances.len();
    let mut i: usize = 0;
    while i < count
        invariant
            count == balances@.len(),
            i <= count,
            transfer_views(plan@) == planned_transfers(balances@.take(i as int), ccy@),
        decreases count - i,
    {
        assert(balances@.take(i + 1).drop_last() =~= balances@.take(i as int));
        if let Some((name, balance)) = balances.entry(i) {
            if let Some(amount) = find_balance(&balance.data, ccy) {
                let account = String::from_str(name);
                plan.push(AssetsTransferSchema::new(String::from_str(ccy), amount, account));
            }
        }
        i += 1;
    }
    assert(balances@.take(count as int) =~= balances@);
    plan
}

/// Why a sweep of transfers ended early.
#[derive(Debug)]
pub enum TransferFailure<E> {
    /// The call failed, or its answer could not be decoded; this is the
    /// caller's error.
    Call(E),
    /// The exchange answered with a code other than `"0"`.
    Refused(OkxError),
}

/// Why a sweep of transfers ended early, as text.
pub ghost enum TransferFailureView<E> {
    Call(E),
    Refused(OkxErrorView),
}

impl<E> View for TransferFailure<E> {
    type V = TransferFailureView<E>;

    open spec fn view(&self) -> TransferFailureView<E> {
        match self {
            TransferFailure::Call(error) => TransferFailureView::Call(*error),
            TransferFailure::Refused(error) => TransferFailureView::Refused(error@),
        }
    }
}

/// What the caller of a sweep of transfers is to do next.
#[derive(Debug)]
pub enum TransferAction<E> {
    /// Make this call, and hand the answer to `advance`.
    Send(ApiCall),
    /// Every transfer has been made.
    Finish,
    /// A transfer failed. The sweep is over; its outcome is this failure.
    Abort(TransferFailure<E>),
    /// The sweep was over before; there is nothing to do.
    Idle,
}

/// A step to take, as text.
pub ghost enum TransferActionView<E> {
    Send(ApiCallView),
    Finish,
    Abort(TransferFailureView<E>),
    Idle,
}

impl<E> View for TransferAction<E> {
    type V = TransferActionView<E>;

    open spec fn view(&self) -> TransferActionView<E> {
        match self {
            TransferAction::Send(call) => TransferActionView::Send(call@),
            TransferAction::Finish => TransferActionView::Finish,
            TransferAction::Abort(failure) => TransferActionView::Abort(failure@),
            TransferAction::Idle => TransferActionView::Idle,
        }
    }
}

/// A sweep of transfers as text.
pub ghost struct TransferSweepView {
    /// The transfers to make, in order.
    pub plan: Seq<TransferFields>,
    /// How many of them have succeeded.
    pub done: nat,
    /// Whether an answer is awaited.
    pub open: bool,
}

/// The call that makes the transfer with the given members.
pub open spec fn send_of(fields: TransferFields) -> ApiCallView {
    post_of(ASSETS_TRANSFER_PATH@, json_object_text(transfer_members(fields)))
}

/// A sweep that awaits no answer.
pub open spec fn closed_transfers(plan: Seq<TransferFields>, done: nat) -> TransferSweepView {
    TransferSweepView { plan, done, open: false }
}

/// What follows when `done` transfers of `plan` have succeeded: the next
/// transfer is sent, or, after the last one, the sweep is complete.
pub open spec fn transfers_continue<E>(
    plan: Seq<TransferFields>,
    done: nat,
) -> (TransferSweepView, TransferActionView<E>) {
    if done >= plan.len() {
        (closed_transfers(plan, done), TransferActionView::Finish)
    } else {
        (
            TransferSweepView { plan, done, open: true },
            TransferActionView::Send(send_of(plan[done as int])),
        )
    }
}

/// What follows an answer. An error ends the sweep, and so does an answer
/// with a code other than `"0"`. After a success the sweep goes on with
/// the next transfer.
pub open spec fn transfers_advance<E>(
    sweep: TransferSweepView,
    answer: Result<OkxResponseSchema<AssetsTrasnferData>, E>,
) -> (TransferSweepView, TransferActionView<E>) {
    if !sweep.open || sweep.done >= sweep.plan.len() {
        (sweep, TransferActionView::Idle)
    } else {
        match answer {
            Err(error) => (
                closed_transfers(sweep.plan, sweep.done),
                TransferActionView::Abort(TransferFailureView::Call(error)),
            ),
            Ok(response) => if response.is_success() {
                transfers_continue(sweep.plan, sweep.done + 1)
            } else {
                (
                    closed_transfers(sweep.plan, sweep.done),
                    TransferActionView::Abort(
                        TransferFailureView::Refused(OkxErrorView::ResponseCode(response.code@)),
                    ),
                )
            },
        }
    }
}

/// Whether an answer reports that the transfer was made.
pub open spec fn made<E>(answer: Result<OkxResponseSchema<AssetsTrasnferData>, E>) -> bool {
    answer matches Ok(response) && response.is_success()
}

/// Why an answer that does not report success ends the sweep.
pub open spec fn failure_of<E>(
    answer: Result<OkxResponseSchema<AssetsTrasnferData>, E>,
) -> TransferFailureView<E> {
    match answer {
        Ok(response) => TransferFailureView::Refused(OkxErrorView::ResponseCode(response.code@)),
        Err(error) => TransferFailureView::Call(error),
    }
}

/// What a sweep in the state `sweep` tells its caller as `answers` come in,
/// one action for each answer.
pub open spec fn transfer_actions_after<E>(
    sweep: TransferSweepView,
    answers: Seq<Result<OkxResponseSchema<AssetsTrasnferData>, E>>,
) -> Seq<TransferActionView<E>>
    decreases answers.len(),
{
    if answers.len() == 0 {
        Seq::empty()
    } else {
        let (next, action) = transfers_advance(sweep, answers[0]);
        seq![action] + transfer_actions_after(next, answers.drop_first())
    }
}

/// What a sweep over `plan` tells its caller from its start on, as
/// `answers` come in.
pub open spec fn transfer_actions<E>(
    plan: Seq<TransferFields>,
    answers: Seq<Result<OkxResponseSchema<AssetsTrasnferData>, E>>,
) -> Seq<TransferActionView<E>> {
    let (sweep, action) = transfers_continue::<E>(plan, 0);
    seq![action] + transfer_actions_after(sweep, answers)
}

proof fn lemma_transfers_after<E>(
    sweep: TransferSweepView,
    answers: Seq<Result<OkxResponseSchema<AssetsTrasnferData>, E>>,
)
    requires
        sweep.open,
        0 < answers.len(),
        sweep.done + answers.len() <= sweep.plan.len(),
        forall|i: int| 0 <= i < answers.len() - 1 ==> made(#[trigger] answers[i]),
    ensures
        ({
            let actions = transfer_actions_after(sweep, answers);
            let last = answers.len() - 1;
            &&& actions.len() == answers.len()
            &&& forall|i: int|
                0 <= i < last ==> actions[i] == TransferActionView::<E>::Send(
                    send_of(sweep.plan[sweep.done + 1 + i]),
                )
            &&& actions[last] == if !made(answers[last]) {
                TransferActionView::<E>::Abort(failure_of(answers[last]))
            } else if sweep.done + answers.len() == sweep.plan.len() {
                TransferActionView::<E>::Finish
            } else {
                TransferActionView::<E>::Send(
                    send_of(sweep.plan[(sweep.done + answers.len()) as int]),
                )
            }
        }),
    decreases answers.len(),
{
    let (next, action) = transfers_advance(sweep, answers[0]);
    let rest = transfer_actions_after(next, answers.drop_first());
    let actions = transfer_actions_after(sweep, answers);
    assert(actions == seq![action] + rest);
    if answers.len() == 1 {
        assert(rest =~= Seq::empty());
    } else {
        assert(made(answers[0]));
        assert forall|i: int| 0 <= i < answers.drop_first().len() - 1 implies made(
            #[trigger] answers.drop_first()[i],
        ) by {
            assert(answers.drop_first()[i] == answers[i + 1]);
        }
        lemma_transfers_after(next, answers.drop_first());
        assert(answers.drop_first()[answers.len() - 2] == answers[answers.len() - 1]);
        assert forall|i: int| 0 <= i < answers.len() - 1 implies actions[i] == TransferActionView::<
            E,
        >::Send(send_of(sweep.plan[sweep.done + 1 + i])) by {
            if i > 0 {
                assert(actions[i] == rest[i - 1]);
            }
        }
        assert(actions[answers.len() - 1] == rest[answers.len() - 2]);
    }
}

/// Where every transfer is made, a sweep sends each transfer of its plan
/// once, in the order of the plan, one after the answer to the one before,
/// and then finishes.
pub proof fn lemma_transfers_are_sent_in_order<E>(
    plan: Seq<TransferFields>,
    answers: Seq<Result<OkxResponseSchema<AssetsTrasnferData>, E>>,
)
    requires
        answers.len() == plan.len(),
        forall|i: int| 0 <= i < answers.len() ==> made(#[trigger] answers[i]),
    ensures
        ({
            let actions = transfer_actions(plan, answers);
            &&& actions.len() == plan.len() + 1
            &&& forall|i: int|
                0 <= i < plan.len() ==> actions[i] == TransferActionView::<E>::Send(
                    send_of(plan[i]),
                )
            &&& actions[plan.len() as int] == TransferActionView::<E>::Finish
        }),
{
    let (sweep, action) = transfers_continue::<E>(plan, 0);
    if plan.len() == 0 {
        assert(transfer_actions_after(sweep, answers) =~= Seq::empty());
    } else {
        lemma_transfers_after(sweep, answers);
    }
}

/// Where the transfer at place K of the plan is the first that is not made,
/// a sweep sends the transfers up to that one, in the order of the plan,
/// and then ends with the failure of that one: the transfers before it have
/// been made and stay made, and none after it is sent.
pub proof fn lemma_transfers_end_with_first_failure<E>(
    plan: Seq<TransferFields>,
    answers: Seq<Result<OkxResponseSchema<AssetsTrasnferData>, E>>,
)
    requires
        0 < answers.len() <= plan.len(),
        forall|i: int| 0 <= i < answers.len() - 1 ==> made(#[trigger] answers[i]),
        !made(answers.last()),
    ensures
        ({
            let failed = answers.len() - 1;
            let actions = transfer_actions(plan, answers);
            &&& actions.len() == failed + 2
            &&& forall|i: int|
                0 <= i <= failed ==> actions[i] == TransferActionView::<E>::Send(send_of(plan[i]))
            &&& actions[failed + 1] == TransferActionView::<E>::Abort(failure_of(answers.last()))
        }),
{
    let (sweep, action) = transfers_continue::<E>(plan, 0);
    lemma_transfers_after(sweep, answers);
}

/// The transfer of one currency out of the sub-accounts.
#[derive(Debug)]
pub struct TransferSweep {
    plan: Vec<AssetsTransferSchema>,
    done: usize,
    open: bool,
}

impl View for TransferSweep {
    type V = TransferSweepView;

    closed spec fn view(&self) -> TransferSweepView {
        TransferSweepView {
            plan: transfer_views(self.plan@),
            done: self.done as nat,
            open: self.open,
        }
    }
}

impl TransferSweep {
    /// Goes on after `done` transfers of `plan` have succeeded.
    fn go_on<E>(
        plan: Vec<AssetsTransferSchema>,
        done: usize,
    ) -> (next: (TransferSweep, TransferAction<E>))
        ensures
            (next.0@, next.1@) == transfers_continue::<E>(transfer_views(plan@), done as nat),
    {
        if done >= plan.len() {
            return (TransferSweep { plan, done, open: false }, TransferAction::Finish);
        }
        let body = Some(plan[done].to_json());
        let call = ApiCall { path: ASSETS_TRANSFER_PATH, params: None, method: Method::Post, body };
        (TransferSweep { plan, done, open: true }, TransferAction::Send(call))
    }

    /// Starts moving `ccy` out of the sub-accounts of `balances`.
    pub fn begin<E>(
        balances: &SubAccountBalances,
        ccy: &str,
    ) -> (started: (TransferSweep, TransferAction<E>))
        ensures
            (started.0@, started.1@) == transfers_continue::<E>(
                planned_transfers(balances@, ccy@),
                0,
            ),
    {
        Self::go_on(plan_transfers(balances, ccy), 0)
    }

    /// Takes the answer to the transfer that the sweep asked for last, and
    /// says what to do next.
    pub fn advance<E>(
        self,
        answer: Result<OkxResponseSchema<AssetsTrasnferData>, E>,
    ) -> (next: (TransferSweep, TransferAction<E>))
        ensures
            (next.0@, next.1@) == transfers_advance(self@, answer),
    {
        let TransferSweep { plan, done, open } = self;
        if !open || done >= plan.len() {
            return (TransferSweep { plan, done, open }, TransferAction::Idle);
        }
        match answer {
            Err(error) => (
                TransferSweep { plan, done, open: false },
                TransferAction::Abort(TransferFailure::Call(error)),
            ),
            Ok(response) => match response.ensure_success() {
                Ok(()) => Self::go_on(plan, done + 1),
                Err(refusal) => (
                    TransferSweep { plan, done, open: false },
                    TransferAction::Abort(TransferFailure::Refused(refusal)),
                ),
            },
        }
    }
}

} // verus!
