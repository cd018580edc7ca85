//! Properties of the order lifecycle over any sequence of operations.
use vstd::prelude::*;

use crate::book::{
    cancel_step, create_step, give_loan_step, lemma_close_well_formed, lemma_fund_well_formed,
    lemma_open_well_formed, liquidate_step, live, payback_step, position, total_collateral,
    well_formed, State,
};
use crate::instructions::{
    cancel_order_legs, create_order_legs, fresh_configuration, funded_order, give_loan_check,
    give_loan_legs, liquidate_check, liquidate_legs, payback_check, payback_legs,
    release_collateral_legs, release_nft_legs, transfer_legs,
};
use crate::types::{
    Authority, CancelOrder, Configuration, CreateOrder, ErrorCode, GiveLoan, Initialize, Key, Leg,
    Liquidate, LoanTerms, Order, Payback,
};

verus! {

/// One operation on the lending state.
#[allow(inconsistent_fields)]
#[derive(Clone, Copy, Debug, PartialEq, Eq, Structural)]
pub enum Action {
    Create { accounts: CreateOrder, terms: LoanTerms, order_nonce: u8, now: u64 },
    Cancel { id: u64, accounts: CancelOrder },
    Fund { id: u64, accounts: GiveLoan, now: u64 },
    Repay { id: u64, accounts: Payback, now: u64 },
    Liquidate { id: u64, accounts: Liquidate, now: u64 },
}

/// The outcome of one operation.
pub open spec fn step(s: State, a: Action) -> Result<State, ErrorCode> {
    match a {
        Action::Create { accounts, terms, order_nonce, now } => create_step(
            s,
            accounts,
            terms,
            order_nonce,
            now,
        ),
        Action::Cancel { id, accounts } => cancel_step(s, id, accounts),
        Action::Fund { id, accounts, now } => give_loan_step(s, id, accounts, now),
        Action::Repay { id, accounts, now } => payback_step(s, id, accounts, now),
        Action::Liquidate { id, accounts, now } => liquidate_step(s, id, accounts, now),
    }
}

/// The state after trying each action in turn; a failed action changes nothing.
pub open spec fn run(s: State, actions: Seq<Action>) -> State
    decreases actions.len(),
{
    if actions.len() == 0 {
        s
    } else {
        let next = match step(s, actions[0]) {
            Ok(t) => t,
            Err(_) => s,
        };
        run(next, actions.drop_first())
    }
}

/// The order an action closes, if it is a cancellation, a repayment or a liquidation.
pub open spec fn closes(a: Action) -> Option<u64> {
    match a {
        Action::Cancel { id, .. } => Some(id),
        Action::Repay { id, .. } => Some(id),
        Action::Liquidate { id, .. } => Some(id),
        _ => None,
    }
}

/// The order an action works on, for every action but a creation.
pub open spec fn targets(a: Action) -> Option<u64> {
    match a {
        Action::Create { .. } => None,
        Action::Cancel { id, .. } => Some(id),
        Action::Fund { id, .. } => Some(id),
        Action::Repay { id, .. } => Some(id),
        Action::Liquidate { id, .. } => Some(id),
    }
}

/// The identifier `id` was issued and its order no longer exists.
pub open spec fn retired(s: State, id: u64) -> bool {
    !live(s.1, id) && id < s.0.order_id
}

/// A freshly bootstrapped registry with no orders is well formed.
pub proof fn law_bootstrap_well_formed(accounts: Initialize, config_nonce: u8)
    ensures
        well_formed((fresh_configuration(accounts, config_nonce), Seq::<Order>::empty())),
{
}

proof fn lemma_found(s: State, id: u64)
    requires
        live(s.1, id),
    ensures
        0 <= position(s.1, id) < s.1.len(),
        s.1[position(s.1, id)].order_id == id,
{
}

/// Every successful operation keeps the state well formed and never lowers the next identifier.
pub proof fn law_step_well_formed(s: State, a: Action)
    requires
        well_formed(s),
    ensures
        step(s, a) matches Ok(t) ==> well_formed(t) && t.0.order_id >= s.0.order_id,
{
    match a {
        Action::Create { accounts, terms, order_nonce, now } => {
            if step(s, a) is Ok {
                lemma_open_well_formed(s, accounts, terms, order_nonce, now);
            }
        },
        Action::Fund { id, accounts, now } => {
            if step(s, a) is Ok {
                lemma_found(s, id);
                let o = s.1[position(s.1, id)];
                lemma_fund_well_formed(s, id, funded_order(o, accounts.lender, now));
            }
        },
        Action::Cancel { id, .. } => {
            if step(s, a) is Ok {
                lemma_close_well_formed(s, id);
            }
        },
        Action::Repay { id, .. } => {
            if step(s, a) is Ok {
                lemma_close_well_formed(s, id);
            }
        },
        Action::Liquidate { id, .. } => {
            if step(s, a) is Ok {
                lemma_close_well_formed(s, id);
            }
        },
    }
}

/// Whatever operations run, the registry's locked total equals the sum of the top-up
/// collateral of the orders not yet closed, and the next identifier never goes down.
pub proof fn law_collateral_matches_live_orders(s: State, actions: Seq<Action>)
    requires
        well_formed(s),
    ensures
        well_formed(run(s, actions)),
        run(s, actions).0.total_additional_collateral == total_collateral(run(s, actions).1),
        run(s, actions).0.order_id >= s.0.order_id,
    decreases actions.len(),
{
    if actions.len() > 0 {
        law_step_well_formed(s, actions[0]);
        let next = match step(s, actions[0]) {
            Ok(t) => t,
            Err(_) => s,
        };
        law_collateral_matches_live_orders(next, actions.drop_first());
    }
}

proof fn lemma_counter_monotone(s: State, actions: Seq<Action>)
    ensures
        run(s, actions).0.order_id >= s.0.order_id,
    decreases actions.len(),
{
    if actions.len() > 0 {
        let next = match step(s, actions[0]) {
            Ok(t) => t,
            Err(_) => s,
        };
        lemma_counter_monotone(next, actions.drop_first());
    }
}

/// A creation gives the new order the registry's next identifier and moves that counter on.
pub proof fn law_create_issues_next_id(s: State, a: Action)
    requires
        a is Create,
    ensures
        step(s, a) matches Ok(t) ==> t.1.len() == s.1.len() + 1 && t.1.last().order_id
            == s.0.order_id && t.0.order_id == s.0.order_id + 1,
{
}

/// Of two successful creations, with any operations between them, the later one receives a
/// strictly larger identifier: identifiers increase and never repeat.
pub proof fn law_order_ids_strictly_increase(
    s: State,
    before: Seq<Action>,
    first: Action,
    between: Seq<Action>,
    second: Action,
)
    requires
        first is Create,
        second is Create,
        step(run(s, before), first) is Ok,
        step(run(step(run(s, before), first)->Ok_0, between), second) is Ok,
    ensures
        step(run(s, before), first)->Ok_0.1.last().order_id < step(
            run(step(run(s, before), first)->Ok_0, between),
            second,
        )->Ok_0.1.last().order_id,
{
    let pre = run(s, before);
    let post = step(pre, first)->Ok_0;
    law_create_issues_next_id(pre, first);
    lemma_counter_monotone(post, between);
    law_create_issues_next_id(run(post, between), second);
}

/// No operation on a retired order succeeds.
pub proof fn law_retired_order_is_gone(s: State, id: u64, a: Action)
    requires
        retired(s, id),
        targets(a) == Some(id),
    ensures
        step(s, a) == Err::<State, ErrorCode>(ErrorCode::OrderNotFound),
{
}

/// A retired identifier stays retired whatever operation follows.
pub proof fn law_retired_stays_retired(s: State, id: u64, a: Action)
    requires
        well_formed(s),
        retired(s, id),
    ensures
        step(s, a) matches Ok(t) ==> retired(t, id),
{
    match a {
        Action::Create { accounts, terms, order_nonce, now } => {
            if let Ok(t) = step(s, a) {
                assert(t.1.last().order_id != id);
                if live(t.1, id) {
                    let k = choose|k: int| 0 <= k < t.1.len() && #[trigger] t.1[k].order_id == id;
                    assert(k < s.1.len());
                    assert(t.1[k] == s.1[k]);
                }
            }
        },
        Action::Fund { id: fid, accounts, now } => {
            if let Ok(t) = step(s, a) {
                lemma_found(s, fid);
                let p = position(s.1, fid);
                if live(t.1, id) {
                    let k = choose|k: int| 0 <= k < t.1.len() && #[trigger] t.1[k].order_id == id;
                    assert(k != p);
                    assert(t.1[k] == s.1[k]);
                }
            }
        },
        Action::Cancel { id: cid, .. } => {
            if let Ok(t) = step(s, a) {
                lemma_retired_after_remove(s, cid, id);
            }
        },
        Action::Repay { id: cid, .. } => {
            if let Ok(t) = step(s, a) {
                lemma_retired_after_remove(s, cid, id);
            }
        },
        Action::Liquidate { id: cid, .. } => {
            if let Ok(t) = step(s, a) {
                lemma_retired_after_remove(s, cid, id);
            }
        },
    }
}

proof fn lemma_retired_after_remove(s: State, cid: u64, id: u64)
    requires
        live(s.1, cid),
        !live(s.1, id),
    ensures
        !live(s.1.remove(position(s.1, cid)), id),
{
    let p = position(s.1, cid);
    let r = s.1.remove(p);
    if live(r, id) {
        let k = choose|k: int| 0 <= k < r.len() && #[trigger] r[k].order_id == id;
        assert(r[k] == s.1[if k < p { k } else { k + 1 }]);
    }
}

/// A successful cancellation, repayment or liquidation retires its order.
pub proof fn law_close_retires(s: State, a: Action)
    requires
        well_formed(s),
        closes(a) is Some,
        step(s, a) is Ok,
    ensures
        retired(step(s, a)->Ok_0, closes(a)->Some_0),
{
    let id = closes(a)->Some_0;
    lemma_found(s, id);
    lemma_close_well_formed(s, id);
}

proof fn lemma_run_keeps_retired(s: State, id: u64, actions: Seq<Action>)
    requires
        well_formed(s),
        retired(s, id),
    ensures
        retired(run(s, actions), id),
    decreases actions.len(),
{
    if actions.len() > 0 {
        law_step_well_formed(s, actions[0]);
        law_retired_stays_retired(s, id, actions[0]);
        let next = match step(s, actions[0]) {
            Ok(t) => t,
            Err(_) => s,
        };
        lemma_run_keeps_retired(next, id, actions.drop_first());
    }
}

/// Once one of cancellation, repayment or liquidation has succeeded on an order, no later
/// cancellation, repayment or liquidation of it succeeds, whatever happens in between.
pub proof fn law_single_close(
    s: State,
    before: Seq<Action>,
    first: Action,
    between: Seq<Action>,
    second: Action,
)
    requires
        well_formed(s),
        closes(first) is Some,
        closes(second) == closes(first),
        step(run(s, before), first) is Ok,
    ensures
        step(run(step(run(s, before), first)->Ok_0, between), second) == Err::<State, ErrorCode>(
            ErrorCode::OrderNotFound,
        ),
{
    let id = closes(first)->Some_0;
    let pre = run(s, before);
    law_collateral_matches_live_orders(s, before);
    law_step_well_formed(pre, first);
    law_close_retires(pre, first);
    let post = step(pre, first)->Ok_0;
    lemma_run_keeps_retired(post, id, between);
    law_retired_order_is_gone(run(post, between), id, second);
}

/// Funding never succeeds when the lender is the order's borrower.
pub proof fn law_no_self_funding(config: Configuration, order: Order, accounts: GiveLoan)
    requires
        accounts.lender == order.borrower,
    ensures
        give_loan_check(config, order, accounts) == Err::<(), ErrorCode>(ErrorCode::Unauthorized),
{
}

/// The deadline instant itself belongs to repayment: repayment succeeds only up to and
/// including `loan_start_time + period`, and then exactly as it would at the loan start;
/// liquidation succeeds only strictly after it, and where it would succeed one second
/// later it fails at the deadline with `RepaymentPeriodNotExceeded`.
pub proof fn law_deadline_boundary(
    config: Configuration,
    order: Order,
    repay: Payback,
    seize: Liquidate,
    now: u64,
)
    ensures
        payback_check(config, order, repay, now) is Ok ==> now <= order.deadline(),
        now <= order.deadline() ==> payback_check(config, order, repay, now) == payback_check(
            config,
            order,
            repay,
            order.loan_start_time,
        ),
        liquidate_check(config, order, seize, now) is Ok ==> now > order.deadline(),
        now == order.deadline() + 1 && liquidate_check(config, order, seize, now) is Ok
            ==> liquidate_check(config, order, seize, (now - 1) as u64) == Err::<(), ErrorCode>(
            ErrorCode::RepaymentPeriodNotExceeded,
        ),
{
}

/// Every transfer in `legs` moves a positive amount.
pub open spec fn no_zero_transfers(legs: Seq<Leg>) -> bool {
    forall|i: int|
        0 <= i < legs.len() ==> (#[trigger] legs[i] matches Leg::Transfer { amount, .. } ==> amount
            > 0)
}

proof fn lemma_concat_no_zero(a: Seq<Leg>, b: Seq<Leg>)
    requires
        no_zero_transfers(a),
        no_zero_transfers(b),
    ensures
        no_zero_transfers(a + b),
{
    assert forall|i: int| 0 <= i < (a + b).len() implies (#[trigger] (a + b)[i] matches Leg::Transfer {
        amount,
        ..
    } ==> amount > 0) by {
        if i >= a.len() {
            assert((a + b)[i] == b[i - a.len()]);
        }
    }
}

proof fn lemma_transfer_no_zero(mint: Key, from: Key, to: Key, authority: Authority, amount: u64)
    ensures
        no_zero_transfers(transfer_legs(mint, from, to, authority, amount)),
{
}

/// No transition ever issues a transfer of amount zero.
pub proof fn law_no_zero_transfers(
    config: Configuration,
    order: Order,
    create: CreateOrder,
    terms: LoanTerms,
    cancel: CancelOrder,
    fund: GiveLoan,
    repay: Payback,
    seize: Liquidate,
    stable_nonce: u8,
    nft_nonce: u8,
)
    ensures
        no_zero_transfers(create_order_legs(create, terms)),
        no_zero_transfers(cancel_order_legs(config, order, cancel, stable_nonce, nft_nonce)),
        no_zero_transfers(give_loan_legs(config, order, fund)),
        no_zero_transfers(payback_legs(config, order, repay, stable_nonce, nft_nonce)),
        no_zero_transfers(liquidate_legs(config, order, seize, stable_nonce, nft_nonce)),
{
    let nft = release_nft_legs(order, cancel.user_nft_vault.key, nft_nonce);
    lemma_concat_no_zero(
        transfer_legs(
            create.nft_mint.key,
            create.user_nft_vault.key,
            create.nft_vault,
            Authority::Signer(create.borrower),
            1,
        ),
        transfer_legs(
            create.stable_coin_mint,
            create.user_stable_coin_vault.key,
            create.stable_coin_vault,
            Authority::Signer(create.borrower),
            terms.additional_collateral,
        ),
    );
    lemma_concat_no_zero(
        nft,
        release_collateral_legs(config, order, cancel.user_stable_coin_vault.key, stable_nonce),
    );
    let pay = transfer_legs(
        config.stable_coin_mint,
        repay.borrower_stable_coin_vault.key,
        repay.lender_stable_coin_vault.key,
        Authority::Signer(repay.borrower),
        (order.request_amount + order.interest) as u64,
    );
    let back = release_nft_legs(order, repay.borrower_nft_vault.key, nft_nonce);
    lemma_concat_no_zero(pay, back);
    lemma_concat_no_zero(
        pay + back,
        release_collateral_legs(config, order, repay.borrower_stable_coin_vault.key, stable_nonce),
    );
    lemma_concat_no_zero(
        release_nft_legs(order, seize.lender_nft_vault.key, nft_nonce),
        release_collateral_legs(config, order, seize.lender_stable_coin_vault.key, stable_nonce),
    );
}

} // verus!
