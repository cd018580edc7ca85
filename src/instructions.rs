//! The five order transitions and the registry bootstrap, each on the records it touches.
//!
//! Every transition validates its accounts and the order's state, and on success returns
//! the ledger legs to execute together with the new state. On failure nothing changes.
use vstd::prelude::*;

use crate::types::{
    Authority, CancelOrder, CanceledOrderEvent, Configuration, CreateOrder, CreatedOrderEvent,
    ErrorCode, GiveLoan, Initialize, Key, Leg, Liquidate, LiquidityOrderEvent, LoanOrderEvent,
    LoanTerms, MintInfo, Order, PayBackOrderEvent, Payback, TokenAccountInfo,
};

verus! {

/// A mint is acceptable collateral only if exactly one indivisible unit exists.
pub open spec fn is_unique_asset(m: MintInfo) -> bool {
    m.supply == 1 && m.decimals == 0
}

/// A token account holds `mint` and belongs to `owner`.
pub open spec fn holds(a: TokenAccountInfo, mint: Key, owner: Key) -> bool {
    a.mint == mint && a.owner == owner
}

/// The supplied stable-coin mint and vault are the registry's, and the order uses that vault.
pub open spec fn vault_matches(config: Configuration, order: Order, mint: Key, vault: Key) -> bool {
    mint == config.stable_coin_mint && vault == config.stable_coin_vault && order.stable_coin_vault
        == vault
}

/// The supplied NFT mint and vault are the order's.
pub open spec fn nft_matches(order: Order, nft_mint: Key, nft_vault: Key) -> bool {
    order.nft_mint == nft_mint && order.nft_vault == nft_vault
}

/// A fungible transfer; a zero amount issues no leg.
pub open spec fn transfer_legs(mint: Key, from: Key, to: Key, authority: Authority, amount: u64) -> Seq<
    Leg,
> {
    if amount == 0 {
        seq![]
    } else {
        seq![Leg::Transfer { mint, from, to, authority, amount }]
    }
}

/// Authority of an order's NFT vault.
pub open spec fn nft_authority(order: Order, nft_nonce: u8) -> Authority {
    Authority::NftVault { nft_mint: order.nft_mint, bump: nft_nonce }
}

/// Authority of the pooled stable-coin vault.
pub open spec fn stable_authority(config: Configuration, stable_nonce: u8) -> Authority {
    Authority::StableVault { stable_coin_mint: config.stable_coin_mint, bump: stable_nonce }
}

/// Move the NFT out of its vault to `to`, then close the vault with the refund to the borrower.
pub open spec fn release_nft_legs(order: Order, to: Key, nft_nonce: u8) -> Seq<Leg> {
    seq![
        Leg::Transfer {
            mint: order.nft_mint,
            from: order.nft_vault,
            to,
            authority: nft_authority(order, nft_nonce),
            amount: 1,
        },
        Leg::CloseAccount {
            account: order.nft_vault,
            destination: order.borrower,
            authority: nft_authority(order, nft_nonce),
        },
    ]
}

/// Pay `order`'s top-up collateral out of the pooled vault to `to`.
pub open spec fn release_collateral_legs(
    config: Configuration,
    order: Order,
    to: Key,
    stable_nonce: u8,
) -> Seq<Leg> {
    transfer_legs(
        config.stable_coin_mint,
        config.stable_coin_vault,
        to,
        stable_authority(config, stable_nonce),
        order.additional_collateral,
    )
}

/// The registry after a closed order's collateral has left the pool.
pub open spec fn closed_configuration(config: Configuration, order: Order) -> Configuration {
    Configuration {
        total_additional_collateral: (config.total_additional_collateral
            - order.additional_collateral) as u64,
        ..config
    }
}

pub open spec fn fresh_configuration(accounts: Initialize, config_nonce: u8) -> Configuration {
    Configuration {
        stable_coin_mint: accounts.stable_coin_mint,
        stable_coin_vault: accounts.stable_coin_vault,
        order_id: 0,
        total_additional_collateral: 0,
        nonce: config_nonce,
    }
}

// ---------------------------------------------------------------- create

pub open spec fn create_order_check(
    config: Configuration,
    accounts: CreateOrder,
    terms: LoanTerms,
) -> Result<(), ErrorCode> {
    if accounts.stable_coin_mint != config.stable_coin_mint || accounts.stable_coin_vault
        != config.stable_coin_vault || !holds(
        accounts.user_stable_coin_vault,
        config.stable_coin_mint,
        accounts.borrower,
    ) || !holds(accounts.user_nft_vault, accounts.nft_mint.key, accounts.borrower) {
        Err(ErrorCode::Unauthorized)
    } else if !is_unique_asset(accounts.nft_mint) {
        Err(ErrorCode::InvalidCollateralAsset)
    } else if config.total_additional_collateral + terms.additional_collateral > u64::MAX
        || config.order_id + 1 > u64::MAX {
        Err(ErrorCode::ArithmeticOverflow)
    } else {
        Ok(())
    }
}

/// The order record that creation writes.
pub open spec fn opened_order(
    config: Configuration,
    accounts: CreateOrder,
    terms: LoanTerms,
    order_nonce: u8,
    now: u64,
) -> Order {
    Order {
        borrower: accounts.borrower,
        stable_coin_vault: accounts.stable_coin_vault,
        nft_mint: accounts.nft_mint.key,
        nft_vault: accounts.nft_vault,
        request_amount: terms.request_amount,
        interest: terms.interest,
        payback_amount: terms.payback_amount,
        period: terms.period,
        additional_collateral: terms.additional_collateral,
        lender: None,
        created_at: now,
        loan_start_time: 0,
        paid_back_at: 0,
        withdrew_at: 0,
        order_status: true,
        order_id: config.order_id,
        nonce: order_nonce,
    }
}

/// The registry after creation: the next identifier, and the new collateral counted.
pub open spec fn opened_configuration(config: Configuration, terms: LoanTerms) -> Configuration {
    Configuration {
        order_id: (config.order_id + 1) as u64,
        total_additional_collateral: (config.total_additional_collateral
            + terms.additional_collateral) as u64,
        ..config
    }
}

/// Lock the NFT in its vault, then the top-up collateral in the pool.
pub open spec fn create_order_legs(accounts: CreateOrder, terms: LoanTerms) -> Seq<Leg> {
    transfer_legs(
        accounts.nft_mint.key,
        accounts.user_nft_vault.key,
        accounts.nft_vault,
        Authority::Signer(accounts.borrower),
        1,
    ) + transfer_legs(
        accounts.stable_coin_mint,
        accounts.user_stable_coin_vault.key,
        accounts.stable_coin_vault,
        Authority::Signer(accounts.borrower),
        terms.additional_collateral,
    )
}

// ---------------------------------------------------------------- cancel

pub open spec fn cancel_order_check(
    config: Configuration,
    order: Order,
    accounts: CancelOrder,
) -> Result<(), ErrorCode> {
    if !vault_matches(config, order, accounts.stable_coin_mint, accounts.stable_coin_vault)
        || order.borrower != accounts.borrower || !nft_matches(
        order,
        accounts.nft_mint.key,
        accounts.nft_vault,
    ) || !holds(accounts.user_stable_coin_vault, config.stable_coin_mint, accounts.borrower)
        || !holds(accounts.user_nft_vault, order.nft_mint, accounts.borrower) {
        Err(ErrorCode::Unauthorized)
    } else if !is_unique_asset(accounts.nft_mint) {
        Err(ErrorCode::InvalidCollateralAsset)
    } else if !order.order_status {
        Err(ErrorCode::LoanAlreadyStarted)
    } else if config.total_additional_collateral < order.additional_collateral {
        Err(ErrorCode::ArithmeticUnderflow)
    } else {
        Ok(())
    }
}

/// Return the NFT and the top-up collateral to the borrower.
pub open spec fn cancel_order_legs(
    config: Configuration,
    order: Order,
    accounts: CancelOrder,
    stable_nonce: u8,
    nft_nonce: u8,
) -> Seq<Leg> {
    release_nft_legs(order, accounts.user_nft_vault.key, nft_nonce) + release_collateral_legs(
        config,
        order,
        accounts.user_stable_coin_vault.key,
        stable_nonce,
    )
}

// ---------------------------------------------------------------- fund

pub open spec fn give_loan_check(
    config: Configuration,
    order: Order,
    accounts: GiveLoan,
) -> Result<(), ErrorCode> {
    if !vault_matches(config, order, accounts.stable_coin_mint, accounts.stable_coin_vault)
        || !holds(accounts.lender_stable_coin_vault, config.stable_coin_mint, accounts.lender)
        || !holds(accounts.borrower_stable_coin_vault, config.stable_coin_mint, order.borrower)
        || accounts.lender == order.borrower {
        Err(ErrorCode::Unauthorized)
    } else if !order.order_status {
        Err(ErrorCode::LoanAlreadyStarted)
    } else {
        Ok(())
    }
}

/// The order once funded by `lender` at `now`.
pub open spec fn funded_order(order: Order, lender: Key, now: u64) -> Order {
    Order { lender: Some(lender), loan_start_time: now, order_status: false, ..order }
}

/// The principal goes from the lender to the borrower.
pub open spec fn give_loan_legs(config: Configuration, order: Order, accounts: GiveLoan) -> Seq<
    Leg,
> {
    transfer_legs(
        config.stable_coin_mint,
        accounts.lender_stable_coin_vault.key,
        accounts.borrower_stable_coin_vault.key,
        Authority::Signer(accounts.lender),
        order.request_amount,
    )
}

// ---------------------------------------------------------------- repay

pub open spec fn payback_check(
    config: Configuration,
    order: Order,
    accounts: Payback,
    now: u64,
) -> Result<(), ErrorCode> {
    if !vault_matches(config, order, accounts.stable_coin_mint, accounts.stable_coin_vault)
        || order.borrower != accounts.borrower || !nft_matches(
        order,
        accounts.nft_mint.key,
        accounts.nft_vault,
    ) || !holds(accounts.borrower_stable_coin_vault, config.stable_coin_mint, accounts.borrower)
        || !holds(accounts.borrower_nft_vault, order.nft_mint, accounts.borrower) {
        Err(ErrorCode::Unauthorized)
    } else if !is_unique_asset(accounts.nft_mint) {
        Err(ErrorCode::InvalidCollateralAsset)
    } else {
        match order.funded_by() {
            None => Err(ErrorCode::LoanNotProvided),
            Some(lender) => if !holds(
                accounts.lender_stable_coin_vault,
                config.stable_coin_mint,
                lender,
            ) {
                Err(ErrorCode::Unauthorized)
            } else if order.deadline() > u64::MAX {
                Err(ErrorCode::ArithmeticOverflow)
            } else if now > order.deadline() {
                Err(ErrorCode::RepaymentPeriodExceeded)
            } else if order.request_amount + order.interest > u64::MAX {
                Err(ErrorCode::ArithmeticOverflow)
            } else if config.total_additional_collateral < order.additional_collateral {
                Err(ErrorCode::ArithmeticUnderflow)
            } else {
                Ok(())
            },
        }
    }
}

/// Principal and interest to the lender; NFT and top-up collateral back to the borrower.
pub open spec fn payback_legs(
    config: Configuration,
    order: Order,
    accounts: Payback,
    stable_nonce: u8,
    nft_nonce: u8,
) -> Seq<Leg> {
    transfer_legs(
        config.stable_coin_mint,
        accounts.borrower_stable_coin_vault.key,
        accounts.lender_stable_coin_vault.key,
        Authority::Signer(accounts.borrower),
        (order.request_amount + order.interest) as u64,
    ) + release_nft_legs(order, accounts.borrower_nft_vault.key, nft_nonce)
        + release_collateral_legs(config, order, accounts.borrower_stable_coin_vault.key, stable_nonce)
}

// ---------------------------------------------------------------- liquidate

pub open spec fn liquidate_check(
    config: Configuration,
    order: Order,
    accounts: Liquidate,
    now: u64,
) -> Result<(), ErrorCode> {
    if !vault_matches(config, order, accounts.stable_coin_mint, accounts.stable_coin_vault)
        || order.borrower != accounts.borrower || !nft_matches(
        order,
        accounts.nft_mint.key,
        accounts.nft_vault,
    ) {
        Err(ErrorCode::Unauthorized)
    } else if !is_unique_asset(accounts.nft_mint) {
        Err(ErrorCode::InvalidCollateralAsset)
    } else {
        match order.funded_by() {
            None => Err(ErrorCode::LoanNotProvided),
            Some(lender) => if accounts.lender != lender || !holds(
                accounts.lender_stable_coin_vault,
                config.stable_coin_mint,
                lender,
            ) || !holds(accounts.lender_nft_vault, order.nft_mint, lender) {
                Err(ErrorCode::Unauthorized)
            } else if order.deadline() > u64::MAX {
                Err(ErrorCode::ArithmeticOverflow)
            } else if now <= order.deadline() {
                Err(ErrorCode::RepaymentPeriodNotExceeded)
            } else if order.withdrew_at != 0 {
                Err(ErrorCode::AlreadyLiquidated)
            } else if config.total_additional_collateral < order.additional_collateral {
                Err(ErrorCode::ArithmeticUnderflow)
            } else {
                Ok(())
            },
        }
    }
}

/// NFT and top-up collateral to the lender; the vault's storage refund still to the borrower.
pub open spec fn liquidate_legs(
    config: Configuration,
    order: Order,
    accounts: Liquidate,
    stable_nonce: u8,
    nft_nonce: u8,
) -> Seq<Leg> {
    release_nft_legs(order, accounts.lender_nft_vault.key, nft_nonce) + release_collateral_legs(
        config,
        order,
        accounts.lender_stable_coin_vault.key,
        stable_nonce,
    )
}

// ---------------------------------------------------------------- executable

fn holds_exec(a: &TokenAccountInfo, mint: Key, owner: Key) -> (r: bool)
    ensures
        r == holds(*a, mint, owner),
{
    a.mint == mint && a.owner == owner
}

fn is_unique_asset_exec(m: &MintInfo) -> (r: bool)
    ensures
        r == is_unique_asset(*m),
{
    m.supply == 1 && m.decimals == 0
}

fn vault_matches_exec(config: &Configuration, order: &Order, mint: Key, vault: Key) -> (r: bool)
    ensures
        r == vault_matches(*config, *order, mint, vault),
{
    mint == config.stable_coin_mint && vault == config.stable_coin_vault && order.stable_coin_vault
        == vault
}

fn nft_matches_exec(order: &Order, nft_mint: Key, nft_vault: Key) -> (r: bool)
    ensures
        r == nft_matches(*order, nft_mint, nft_vault),
{
    order.nft_mint == nft_mint && order.nft_vault == nft_vault
}

/// Append a fungible transfer leg, unless its amount is zero.
fn push_transfer(
    legs: &mut Vec<Leg>,
    mint: Key,
    from: Key,
    to: Key,
    authority: Authority,
    amount: u64,
)
    ensures
        final(legs)@ == old(legs)@ + transfer_legs(mint, from, to, authority, amount),
{
    let ghost before = legs@;
    if amount != 0 {
        legs.push(Leg::Transfer { mint, from, to, authority, amount });
        assert(legs@ =~= before + transfer_legs(mint, from, to, authority, amount));
    } else {
        assert(before + transfer_legs(mint, from, to, authority, amount) =~= before);
    }
}

/// Append the legs that take the NFT out of its vault and close the vault.
fn push_release_nft(legs: &mut Vec<Leg>, order: &Order, to: Key, nft_nonce: u8)
    ensures
        final(legs)@ == old(legs)@ + release_nft_legs(*order, to, nft_nonce),
{
    let ghost before = legs@;
    let authority = Authority::NftVault { nft_mint: order.nft_mint, bump: nft_nonce };
    legs.push(
        Leg::Transfer {
            mint: order.nft_mint,
            from: order.nft_vault,
            to,
            authority,
            amount: 1,
        },
    );
    legs.push(
        Leg::CloseAccount { account: order.nft_vault, destination: order.borrower, authority },
    );
    assert(legs@ =~= before + release_nft_legs(*order, to, nft_nonce));
}

/// Append the leg that pays an order's top-up collateral out of the pool.
fn push_release_collateral(
    legs: &mut Vec<Leg>,
    config: &Configuration,
    order: &Order,
    to: Key,
    stable_nonce: u8,
)
    ensures
        final(legs)@ == old(legs)@ + release_collateral_legs(*config, *order, to, stable_nonce),
{
    push_transfer(
        legs,
        config.stable_coin_mint,
        config.stable_coin_vault,
        to,
        Authority::StableVault { stable_coin_mint: config.stable_coin_mint, bump: stable_nonce },
        order.additional_collateral,
    );
}

/// Create the registry in `slot`; it can be created only once.
pub fn initialize(slot: &mut Option<Configuration>, accounts: &Initialize, config_nonce: u8) -> (r:
    Result<(), ErrorCode>)
    ensures
        match *old(slot) {
            Some(_) => r == Err::<(), ErrorCode>(ErrorCode::AlreadyInitialized) && *final(slot)
                == *old(slot),
            None => r == Ok::<(), ErrorCode>(()) && *final(slot) == Some(
                fresh_configuration(*accounts, config_nonce),
            ),
        },
{
    if slot.is_some() {
        return Err(ErrorCode::AlreadyInitialized);
    }
    *slot = Some(
        Configuration {
            stable_coin_mint: accounts.stable_coin_mint,
            stable_coin_vault: accounts.stable_coin_vault,
            order_id: 0,
            total_additional_collateral: 0,
            nonce: config_nonce,
        },
    );
    Ok(())
}

/// Open an order: lock the NFT and the top-up collateral, and take the next identifier.
pub fn create_order(
    config: &mut Configuration,
    accounts: &CreateOrder,
    terms: &LoanTerms,
    order_nonce: u8,
    now: u64,
) -> (r: Result<(Order, Vec<Leg>, CreatedOrderEvent), ErrorCode>)
    ensures
        match r {
            Ok((order, legs, event)) => {
                &&& create_order_check(*old(config), *accounts, *terms) is Ok
                &&& order == opened_order(*old(config), *accounts, *terms, order_nonce, now)
                &&& legs@ == create_order_legs(*accounts, *terms)
                &&& event == (CreatedOrderEvent {
                    order_key: accounts.order,
                    borrower: accounts.borrower,
                })
                &&& *final(config) == opened_configuration(*old(config), *terms)
            },
            Err(e) => create_order_check(*old(config), *accounts, *terms) == Err::<(), ErrorCode>(e)
                && *final(config) == *old(config),
        },
{
    if !(accounts.stable_coin_mint == config.stable_coin_mint && accounts.stable_coin_vault
        == config.stable_coin_vault && holds_exec(
        &accounts.user_stable_coin_vault,
        config.stable_coin_mint,
        accounts.borrower,
    ) && holds_exec(&accounts.user_nft_vault, accounts.nft_mint.key, accounts.borrower)) {
        return Err(ErrorCode::Unauthorized);
    }
    if !is_unique_asset_exec(&accounts.nft_mint) {
        return Err(ErrorCode::InvalidCollateralAsset);
    }
    let total = match config.total_additional_collateral.checked_add(terms.additional_collateral) {
        Some(t) => t,
        None => return Err(ErrorCode::ArithmeticOverflow),
    };
    let next_id = match config.order_id.checked_add(1) {
        Some(n) => n,
        None => return Err(ErrorCode::ArithmeticOverflow),
    };
    let order = Order {
        borrower: accounts.borrower,
        stable_coin_vault: accounts.stable_coin_vault,
        nft_mint: accounts.nft_mint.key,
        nft_vault: accounts.nft_vault,
        request_amount: terms.request_amount,
        interest: terms.interest,
        payback_amount: terms.payback_amount,
        period: terms.period,
        additional_collateral: terms.additional_collateral,
        lender: None,
        created_at: now,
        loan_start_time: 0,
        paid_back_at: 0,
        withdrew_at: 0,
        order_status: true,
        order_id: config.order_id,
        nonce: order_nonce,
    };
    let mut legs: Vec<Leg> = Vec::new();
    push_transfer(
        &mut legs,
        accounts.nft_mint.key,
        accounts.user_nft_vault.key,
        accounts.nft_vault,
        Authority::Signer(accounts.borrower),
        1,
    );
    push_transfer(
        &mut legs,
        accounts.stable_coin_mint,
        accounts.user_stable_coin_vault.key,
        accounts.stable_coin_vault,
        Authority::Signer(accounts.borrower),
        terms.additional_collateral,
    );
    assert(legs@ =~= create_order_legs(*accounts, *terms));
    config.order_id = next_id;
    config.total_additional_collateral = total;
    Ok((order, legs, CreatedOrderEvent { order_key: accounts.order, borrower: accounts.borrower }))
}

/// Cancel an order that was never funded: the NFT and the collateral go back to the borrower.
pub fn cancel_order(
    config: &mut Configuration,
    order: &Order,
    accounts: &CancelOrder,
    stable_nonce: u8,
    nft_nonce: u8,
) -> (r: Result<(Vec<Leg>, CanceledOrderEvent), ErrorCode>)
    ensures
        match r {
            Ok((legs, event)) => {
                &&& cancel_order_check(*old(config), *order, *accounts) is Ok
                &&& legs@ == cancel_order_legs(*old(config), *order, *accounts, stable_nonce, nft_nonce)
                &&& event == (CanceledOrderEvent {
                    order_key: accounts.order,
                    borrower: accounts.borrower,
                })
                &&& *final(config) == closed_configuration(*old(config), *order)
            },
            Err(e) => cancel_order_check(*old(config), *order, *accounts) == Err::<(), ErrorCode>(e)
                && *final(config) == *old(config),
        },
{
    if !(vault_matches_exec(config, order, accounts.stable_coin_mint, accounts.stable_coin_vault)
        && order.borrower == accounts.borrower && nft_matches_exec(
        order,
        accounts.nft_mint.key,
        accounts.nft_vault,
    ) && holds_exec(&accounts.user_stable_coin_vault, config.stable_coin_mint, accounts.borrower)
        && holds_exec(&accounts.user_nft_vault, order.nft_mint, accounts.borrower)) {
        return Err(ErrorCode::Unauthorized);
    }
    if !is_unique_asset_exec(&accounts.nft_mint) {
        return Err(ErrorCode::InvalidCollateralAsset);
    }
    if !order.order_status {
        return Err(ErrorCode::LoanAlreadyStarted);
    }
    if config.total_additional_collateral < order.additional_collateral {
        return Err(ErrorCode::ArithmeticUnderflow);
    }
    let mut legs: Vec<Leg> = Vec::new();
    push_release_nft(&mut legs, order, accounts.user_nft_vault.key, nft_nonce);
    push_release_collateral(
        &mut legs,
        config,
        order,
        accounts.user_stable_coin_vault.key,
        stable_nonce,
    );
    assert(legs@ =~= cancel_order_legs(*config, *order, *accounts, stable_nonce, nft_nonce));
    config.total_additional_collateral = config.total_additional_collateral
        - order.additional_collateral;
    Ok((legs, CanceledOrderEvent { order_key: accounts.order, borrower: accounts.borrower }))
}

/// Fund an open order: the principal goes from the lender to the borrower and the clock starts.
pub fn give_loan(config: &Configuration, order: &mut Order, accounts: &GiveLoan, now: u64) -> (r:
    Result<(Vec<Leg>, LoanOrderEvent), ErrorCode>)
    ensures
        r is Ok ==> accounts.lender != old(order).borrower,
        match r {
            Ok((legs, event)) => {
                &&& give_loan_check(*config, *old(order), *accounts) is Ok
                &&& *final(order) == funded_order(*old(order), accounts.lender, now)
                &&& legs@ == give_loan_legs(*config, *old(order), *accounts)
                &&& event == (LoanOrderEvent {
                    order_key: accounts.order,
                    borrower: old(order).borrower,
                    lender: accounts.lender,
                })
            },
            Err(e) => give_loan_check(*config, *old(order), *accounts) == Err::<(), ErrorCode>(e)
                && *final(order) == *old(order),
        },
{
    if !(vault_matches_exec(config, order, accounts.stable_coin_mint, accounts.stable_coin_vault)
        && holds_exec(&accounts.lender_stable_coin_vault, config.stable_coin_mint, accounts.lender)
        && holds_exec(
        &accounts.borrower_stable_coin_vault,
        config.stable_coin_mint,
        order.borrower,
    ) && accounts.lender != order.borrower) {
        return Err(ErrorCode::Unauthorized);
    }
    if !order.order_status {
        return Err(ErrorCode::LoanAlreadyStarted);
    }
    let mut legs: Vec<Leg> = Vec::new();
    push_transfer(
        &mut legs,
        config.stable_coin_mint,
        accounts.lender_stable_coin_vault.key,
        accounts.borrower_stable_coin_vault.key,
        Authority::Signer(accounts.lender),
        order.request_amount,
    );
    assert(legs@ =~= give_loan_legs(*config, *order, *accounts));
    order.lender = Some(accounts.lender);
    order.loan_start_time = now;
    order.order_status = false;
    Ok(
        (
            legs,
            LoanOrderEvent {
                order_key: accounts.order,
                borrower: order.borrower,
                lender: accounts.lender,
            },
        ),
    )
}

/// The deadline of a funded order, or `None` where it does not fit in 64 bits.
fn deadline_exec(order: &Order) -> (r: Option<u64>)
    ensures
        match r {
            Some(d) => d == order.deadline(),
            None => order.deadline() > u64::MAX,
        },
{
    order.loan_start_time.checked_add(order.period)
}

/// Repay a funded order by its deadline (inclusive): principal and interest to the lender,
/// NFT and collateral back to the borrower.
pub fn payback(
    config: &mut Configuration,
    order: &Order,
    accounts: &Payback,
    stable_nonce: u8,
    nft_nonce: u8,
    now: u64,
) -> (r: Result<(Vec<Leg>, PayBackOrderEvent), ErrorCode>)
    ensures
        match r {
            Ok((legs, event)) => {
                &&& payback_check(*old(config), *order, *accounts, now) is Ok
                &&& legs@ == payback_legs(*old(config), *order, *accounts, stable_nonce, nft_nonce)
                &&& event == (PayBackOrderEvent {
                    order_key: accounts.order,
                    borrower: accounts.borrower,
                })
                &&& *final(config) == closed_configuration(*old(config), *order)
            },
            Err(e) => payback_check(*old(config), *order, *accounts, now) == Err::<(), ErrorCode>(e)
                && *final(config) == *old(config),
        },
{
    if !(vault_matches_exec(config, order, accounts.stable_coin_mint, accounts.stable_coin_vault)
        && order.borrower == accounts.borrower && nft_matches_exec(
        order,
        accounts.nft_mint.key,
        accounts.nft_vault,
    ) && holds_exec(
        &accounts.borrower_stable_coin_vault,
        config.stable_coin_mint,
        accounts.borrower,
    ) && holds_exec(&accounts.borrower_nft_vault, order.nft_mint, accounts.borrower)) {
        return Err(ErrorCode::Unauthorized);
    }
    if !is_unique_asset_exec(&accounts.nft_mint) {
        return Err(ErrorCode::InvalidCollateralAsset);
    }
    if order.order_status {
        return Err(ErrorCode::LoanNotProvided);
    }
    let lender = match order.lender {
        Some(l) => l,
        None => return Err(ErrorCode::LoanNotProvided),
    };
    if !holds_exec(&accounts.lender_stable_coin_vault, config.stable_coin_mint, lender) {
        return Err(ErrorCode::Unauthorized);
    }
    let deadline = match deadline_exec(order) {
        Some(d) => d,
        None => return Err(ErrorCode::ArithmeticOverflow),
    };
    if now > deadline {
        return Err(ErrorCode::RepaymentPeriodExceeded);
    }
    let due = match order.request_amount.checked_add(order.interest) {
        Some(d) => d,
        None => return Err(ErrorCode::ArithmeticOverflow),
    };
    if config.total_additional_collateral < order.additional_collateral {
        return Err(ErrorCode::ArithmeticUnderflow);
    }
    let mut legs: Vec<Leg> = Vec::new();
    push_transfer(
        &mut legs,
        config.stable_coin_mint,
        accounts.borrower_stable_coin_vault.key,
        accounts.lender_stable_coin_vault.key,
        Authority::Signer(accounts.borrower),
        due,
    );
    push_release_nft(&mut legs, order, accounts.borrower_nft_vault.key, nft_nonce);
    push_release_collateral(
        &mut legs,
        config,
        order,
        accounts.borrower_stable_coin_vault.key,
        stable_nonce,
    );
    assert(legs@ =~= payback_legs(*config, *order, *accounts, stable_nonce, nft_nonce));
    config.total_additional_collateral = config.total_additional_collateral
        - order.additional_collateral;
    Ok((legs, PayBackOrderEvent { order_key: accounts.order, borrower: accounts.borrower }))
}

/// Seize the collateral of a funded order strictly after its deadline: NFT and collateral
/// go to the lender.
pub fn liquidate(
    config: &mut Configuration,
    order: &Order,
    accounts: &Liquidate,
    stable_nonce: u8,
    nft_nonce: u8,
    now: u64,
) -> (r: Result<(Vec<Leg>, LiquidityOrderEvent), ErrorCode>)
    ensures
        match r {
            Ok((legs, event)) => {
                &&& liquidate_check(*old(config), *order, *accounts, now) is Ok
                &&& legs@ == liquidate_legs(*old(config), *order, *accounts, stable_nonce, nft_nonce)
                &&& event == (LiquidityOrderEvent {
                    order_key: accounts.order,
                    borrower: accounts.borrower,
                    lender: accounts.lender,
                })
                &&& *final(config) == closed_configuration(*old(config), *order)
            },
            Err(e) => liquidate_check(*old(config), *order, *accounts, now) == Err::<(), ErrorCode>(
                e,
            ) && *final(config) == *old(config),
        },
{
    if !(vault_matches_exec(config, order, accounts.stable_coin_mint, accounts.stable_coin_vault)
        && order.borrower == accounts.borrower && nft_matches_exec(
        order,
        accounts.nft_mint.key,
        accounts.nft_vault,
    )) {
        return Err(ErrorCode::Unauthorized);
    }
    if !is_unique_asset_exec(&accounts.nft_mint) {
        return Err(ErrorCode::InvalidCollateralAsset);
    }
    if order.order_status {
        return Err(ErrorCode::LoanNotProvided);
    }
    let lender = match order.lender {
        Some(l) => l,
        None => return Err(ErrorCode::LoanNotProvided),
    };
    if !(accounts.lender == lender && holds_exec(
        &accounts.lender_stable_coin_vault,
        config.stable_coin_mint,
        lender,
    ) && holds_exec(&accounts.lender_nft_vault, order.nft_mint, lender)) {
        return Err(ErrorCode::Unauthorized);
    }
    let deadline = match deadline_exec(order) {
        Some(d) => d,
        None => return Err(ErrorCode::ArithmeticOverflow),
    };
    if now <= deadline {
        return Err(ErrorCode::RepaymentPeriodNotExceeded);
    }
    if order.withdrew_at != 0 {
        return Err(ErrorCode::AlreadyLiquidated);
    }
    if config.total_additional_collateral < order.additional_collateral {
        return Err(ErrorCode::ArithmeticUnderflow);
    }
    let mut legs: Vec<Leg> = Vec::new();
    push_release_nft(&mut legs, order, accounts.lender_nft_vault.key, nft_nonce);
    push_release_collateral(
        &mut legs,
        config,
        order,
        accounts.lender_stable_coin_vault.key,
        stable_nonce,
    );
    assert(legs@ =~= liquidate_legs(*config, *order, *accounts, stable_nonce, nft_nonce));
    config.total_additional_collateral = config.total_additional_collateral
        - order.additional_collateral;
    Ok(
        (
            legs,
            LiquidityOrderEvent {
                order_key: accounts.order,
                borrower: accounts.borrower,
                lender: accounts.lender,
            },
        ),
    )
}

} // verus!
