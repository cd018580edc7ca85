use nft_loans::{
    cancel_order, create_order, give_loan, initialize, liquidate, payback, Authority, Book,
    CancelOrder, Configuration, CreateOrder, ErrorCode, GiveLoan, Initialize, Key, Leg, Liquidate,
    LoanTerms, MintInfo, Order, Payback, TokenAccountInfo,
};

const STABLE_MINT: u128 = 1;
const POOL: u128 = 2;
const NFT_MINT: u128 = 3;
const NFT_VAULT: u128 = 4;
const BORROWER: u128 = 10;
const BORROWER_NFT: u128 = 11;
const BORROWER_STABLE: u128 = 12;
const LENDER: u128 = 20;
const LENDER_NFT: u128 = 21;
const LENDER_STABLE: u128 = 22;
const ORDER_KEY: u128 = 30;
const CREATED: u64 = 1_000;
const START: u64 = 2_000;

fn k(n: u128) -> Key {
    Key::new(0, n)
}

fn account(key: u128, mint: u128, owner: u128) -> TokenAccountInfo {
    TokenAccountInfo { key: k(key), mint: k(mint), owner: k(owner) }
}

fn nft() -> MintInfo {
    MintInfo { key: k(NFT_MINT), supply: 1, decimals: 0 }
}

fn init_accounts() -> Initialize {
    Initialize {
        signer: k(BORROWER),
        configuration: k(99),
        stable_coin_mint: k(STABLE_MINT),
        stable_coin_vault: k(POOL),
    }
}

fn create_accounts() -> CreateOrder {
    CreateOrder {
        order: k(ORDER_KEY),
        borrower: k(BORROWER),
        stable_coin_mint: k(STABLE_MINT),
        stable_coin_vault: k(POOL),
        user_stable_coin_vault: account(BORROWER_STABLE, STABLE_MINT, BORROWER),
        nft_mint: nft(),
        nft_vault: k(NFT_VAULT),
        user_nft_vault: account(BORROWER_NFT, NFT_MINT, BORROWER),
    }
}

fn cancel_accounts() -> CancelOrder {
    CancelOrder {
        order: k(ORDER_KEY),
        borrower: k(BORROWER),
        stable_coin_mint: k(STABLE_MINT),
        stable_coin_vault: k(POOL),
        user_stable_coin_vault: account(BORROWER_STABLE, STABLE_MINT, BORROWER),
        nft_mint: nft(),
        nft_vault: k(NFT_VAULT),
        user_nft_vault: account(BORROWER_NFT, NFT_MINT, BORROWER),
    }
}

fn loan_accounts(lender: u128) -> GiveLoan {
    GiveLoan {
        order: k(ORDER_KEY),
        lender: k(lender),
        stable_coin_mint: k(STABLE_MINT),
        stable_coin_vault: k(POOL),
        lender_stable_coin_vault: account(LENDER_STABLE, STABLE_MINT, lender),
        borrower_stable_coin_vault: account(BORROWER_STABLE, STABLE_MINT, BORROWER),
    }
}

fn payback_accounts() -> Payback {
    Payback {
        order: k(ORDER_KEY),
        borrower: k(BORROWER),
        stable_coin_mint: k(STABLE_MINT),
        stable_coin_vault: k(POOL),
        lender_stable_coin_vault: account(LENDER_STABLE, STABLE_MINT, LENDER),
        borrower_stable_coin_vault: account(BORROWER_STABLE, STABLE_MINT, BORROWER),
        nft_mint: nft(),
        nft_vault: k(NFT_VAULT),
        borrower_nft_vault: account(BORROWER_NFT, NFT_MINT, BORROWER),
    }
}

fn liquidate_accounts() -> Liquidate {
    Liquidate {
        order: k(ORDER_KEY),
        borrower: k(BORROWER),
        lender: k(LENDER),
        stable_coin_mint: k(STABLE_MINT),
        stable_coin_vault: k(POOL),
        lender_stable_coin_vault: account(LENDER_STABLE, STABLE_MINT, LENDER),
        nft_mint: nft(),
        nft_vault: k(NFT_VAULT),
        lender_nft_vault: account(LENDER_NFT, NFT_MINT, LENDER),
    }
}

/// Net change of `account`'s balance over a sequence of legs.
fn net(legs: &[Leg], account: u128) -> i128 {
    let mut change: i128 = 0;
    for leg in legs {
        if let Leg::Transfer { from, to, amount, .. } = leg {
            if *from == k(account) {
                change -= *amount as i128;
            }
            if *to == k(account) {
                change += *amount as i128;
            }
        }
    }
    change
}

fn open_book() -> (Book, u64) {
    let mut book = Book::new(&init_accounts(), 7);
    let (order, _, _) =
        book.create_order(&create_accounts(), &LoanTerms::standard(), 5, CREATED).unwrap();
    (book, order.order_id)
}

fn funded_book() -> (Book, u64) {
    let (mut book, id) = open_book();
    book.give_loan(id, &loan_accounts(LENDER), START).unwrap();
    (book, id)
}

fn nft_vault_authority() -> Authority {
    Authority::NftVault { nft_mint: k(NFT_MINT), bump: 9 }
}

fn pool_authority() -> Authority {
    Authority::StableVault { stable_coin_mint: k(STABLE_MINT), bump: 8 }
}

#[test]
fn standard_terms() {
    let t = LoanTerms::standard();
    assert_eq!(t.request_amount, 80_000_000);
    assert_eq!(t.interest, 4_800_000);
    assert_eq!(t.payback_amount, 3_200_000);
    assert_eq!(t.period, 600);
    assert_eq!(t.additional_collateral, 8_000_000);
}

#[test]
fn create_order_locks_nft_and_collateral() {
    let mut book = Book::new(&init_accounts(), 7);
    let (order, legs, event) =
        book.create_order(&create_accounts(), &LoanTerms::standard(), 5, CREATED).unwrap();
    assert_eq!(order.order_id, 0);
    assert!(order.order_status);
    assert_eq!(order.lender, None);
    assert_eq!(order.created_at, CREATED);
    assert_eq!(order.loan_start_time, 0);
    assert_eq!(order.nonce, 5);
    assert_eq!(
        legs,
        vec![
            Leg::Transfer {
                mint: k(NFT_MINT),
                from: k(BORROWER_NFT),
                to: k(NFT_VAULT),
                authority: Authority::Signer(k(BORROWER)),
                amount: 1,
            },
            Leg::Transfer {
                mint: k(STABLE_MINT),
                from: k(BORROWER_STABLE),
                to: k(POOL),
                authority: Authority::Signer(k(BORROWER)),
                amount: 8_000_000,
            },
        ]
    );
    assert_eq!(event.order_key, k(ORDER_KEY));
    assert_eq!(event.borrower, k(BORROWER));
    assert_eq!(book.config().order_id, 1);
    assert_eq!(book.config().total_additional_collateral, 8_000_000);
    assert_eq!(book.orders().len(), 1);
}

#[test]
fn scenario_cancel_returns_everything() {
    let (mut book, id) = open_book();
    let (legs, event) = book.cancel_order(id, &cancel_accounts(), 8, 9).unwrap();
    assert_eq!(
        legs,
        vec![
            Leg::Transfer {
                mint: k(NFT_MINT),
                from: k(NFT_VAULT),
                to: k(BORROWER_NFT),
                authority: nft_vault_authority(),
                amount: 1,
            },
            Leg::CloseAccount {
                account: k(NFT_VAULT),
                destination: k(BORROWER),
                authority: nft_vault_authority(),
            },
            Leg::Transfer {
                mint: k(STABLE_MINT),
                from: k(POOL),
                to: k(BORROWER_STABLE),
                authority: pool_authority(),
                amount: 8_000_000,
            },
        ]
    );
    assert_eq!(event.borrower, k(BORROWER));
    assert_eq!(book.config().total_additional_collateral, 0);
    assert_eq!(book.order(id), None);
    assert_eq!(book.orders().len(), 0);
}

#[test]
fn scenario_cancel_balances_return_to_pre_order_levels() {
    let mut book = Book::new(&init_accounts(), 7);
    let (order, opened, _) =
        book.create_order(&create_accounts(), &LoanTerms::standard(), 5, CREATED).unwrap();
    let (closed, _) = book.cancel_order(order.order_id, &cancel_accounts(), 8, 9).unwrap();
    let all: Vec<Leg> = opened.iter().chain(closed.iter()).cloned().collect();
    assert_eq!(net(&all, BORROWER_NFT), 0);
    assert_eq!(net(&all, BORROWER_STABLE), 0);
    assert_eq!(net(&all, POOL), 0);
    assert_eq!(book.config().total_additional_collateral, 0);
}

#[test]
fn scenario_give_loan_moves_principal() {
    let (mut book, id) = open_book();
    let (legs, event) = book.give_loan(id, &loan_accounts(LENDER), START).unwrap();
    assert_eq!(net(&legs, BORROWER_STABLE), 80_000_000);
    assert_eq!(net(&legs, LENDER_STABLE), -80_000_000);
    assert_eq!(
        legs,
        vec![Leg::Transfer {
            mint: k(STABLE_MINT),
            from: k(LENDER_STABLE),
            to: k(BORROWER_STABLE),
            authority: Authority::Signer(k(LENDER)),
            amount: 80_000_000,
        }]
    );
    assert_eq!(event.lender, k(LENDER));
    assert_eq!(event.borrower, k(BORROWER));
    let order = book.order(id).unwrap();
    assert!(!order.order_status);
    assert_eq!(order.lender, Some(k(LENDER)));
    assert_eq!(order.loan_start_time, START);
    assert_eq!(book.config().total_additional_collateral, 8_000_000);
}

#[test]
fn scenario_payback_before_deadline() {
    let (mut book, id) = funded_book();
    let (legs, event) = book.payback(id, &payback_accounts(), 8, 9, START + 300).unwrap();
    assert_eq!(
        legs,
        vec![
            Leg::Transfer {
                mint: k(STABLE_MINT),
                from: k(BORROWER_STABLE),
                to: k(LENDER_STABLE),
                authority: Authority::Signer(k(BORROWER)),
                amount: 84_800_000,
            },
            Leg::Transfer {
                mint: k(NFT_MINT),
                from: k(NFT_VAULT),
                to: k(BORROWER_NFT),
                authority: nft_vault_authority(),
                amount: 1,
            },
            Leg::CloseAccount {
                account: k(NFT_VAULT),
                destination: k(BORROWER),
                authority: nft_vault_authority(),
            },
            Leg::Transfer {
                mint: k(STABLE_MINT),
                from: k(POOL),
                to: k(BORROWER_STABLE),
                authority: pool_authority(),
                amount: 8_000_000,
            },
        ]
    );
    assert_eq!(net(&legs, LENDER_STABLE), 84_800_000);
    assert_eq!(net(&legs, BORROWER_NFT), 1);
    assert_eq!(event.borrower, k(BORROWER));
    assert_eq!(book.order(id), None);
    assert_eq!(book.config().total_additional_collateral, 0);
}

#[test]
fn scenario_liquidate_after_deadline() {
    let (mut book, id) = funded_book();
    let (legs, event) = book.liquidate(id, &liquidate_accounts(), 8, 9, START + 601).unwrap();
    assert_eq!(
        legs,
        vec![
            Leg::Transfer {
                mint: k(NFT_MINT),
                from: k(NFT_VAULT),
                to: k(LENDER_NFT),
                authority: nft_vault_authority(),
                amount: 1,
            },
            Leg::CloseAccount {
                account: k(NFT_VAULT),
                destination: k(BORROWER),
                authority: nft_vault_authority(),
            },
            Leg::Transfer {
                mint: k(STABLE_MINT),
                from: k(POOL),
                to: k(LENDER_STABLE),
                authority: pool_authority(),
                amount: 8_000_000,
            },
        ]
    );
    assert_eq!(event.lender, k(LENDER));
    assert_eq!(event.borrower, k(BORROWER));
    assert_eq!(book.order(id), None);
    assert_eq!(book.config().total_additional_collateral, 0);
}

#[test]
fn scenario_liquidate_before_deadline_fails() {
    let (mut book, id) = funded_book();
    let before = book.order(id).unwrap();
    let config = book.config();
    let r = book.liquidate(id, &liquidate_accounts(), 8, 9, START + 599);
    assert_eq!(r, Err(ErrorCode::RepaymentPeriodNotExceeded));
    assert_eq!(book.order(id), Some(before));
    assert_eq!(book.config(), config);
}

#[test]
fn payback_at_deadline_succeeds() {
    let (mut book, id) = funded_book();
    assert!(book.payback(id, &payback_accounts(), 8, 9, START + 600).is_ok());
}

#[test]
fn liquidate_at_deadline_fails() {
    let (mut book, id) = funded_book();
    let r = book.liquidate(id, &liquidate_accounts(), 8, 9, START + 600);
    assert_eq!(r, Err(ErrorCode::RepaymentPeriodNotExceeded));
    assert!(book.liquidate(id, &liquidate_accounts(), 8, 9, START + 601).is_ok());
}

#[test]
fn payback_after_deadline_fails() {
    let (mut book, id) = funded_book();
    let r = book.payback(id, &payback_accounts(), 8, 9, START + 601);
    assert_eq!(r, Err(ErrorCode::RepaymentPeriodExceeded));
    assert!(book.order(id).is_some());
}

#[test]
fn no_self_funding() {
    let (mut book, id) = open_book();
    let r = book.give_loan(id, &loan_accounts(BORROWER), START);
    assert_eq!(r, Err(ErrorCode::Unauthorized));
    assert!(book.order(id).unwrap().order_status);
}

#[test]
fn order_ids_increase_and_never_repeat() {
    let mut book = Book::new(&init_accounts(), 7);
    let terms = LoanTerms::standard();
    let (a, _, _) = book.create_order(&create_accounts(), &terms, 5, CREATED).unwrap();
    let (b, _, _) = book.create_order(&create_accounts(), &terms, 5, CREATED).unwrap();
    book.cancel_order(b.order_id, &cancel_accounts(), 8, 9).unwrap();
    let (c, _, _) = book.create_order(&create_accounts(), &terms, 5, CREATED).unwrap();
    assert_eq!((a.order_id, b.order_id, c.order_id), (0, 1, 2));
    assert_eq!(book.config().order_id, 3);
}

#[test]
fn only_one_close_per_order() {
    let (mut book, id) = funded_book();
    book.payback(id, &payback_accounts(), 8, 9, START + 10).unwrap();
    assert_eq!(
        book.liquidate(id, &liquidate_accounts(), 8, 9, START + 700),
        Err(ErrorCode::OrderNotFound)
    );
    assert_eq!(book.payback(id, &payback_accounts(), 8, 9, START + 20), Err(ErrorCode::OrderNotFound));
    assert_eq!(book.cancel_order(id, &cancel_accounts(), 8, 9), Err(ErrorCode::OrderNotFound));
    assert_eq!(book.config().total_additional_collateral, 0);
}

#[test]
fn collateral_total_tracks_live_orders() {
    let mut book = Book::new(&init_accounts(), 7);
    let mut small = LoanTerms::standard();
    small.additional_collateral = 1_000;
    let (a, _, _) = book.create_order(&create_accounts(), &LoanTerms::standard(), 5, 1).unwrap();
    let (b, _, _) = book.create_order(&create_accounts(), &small, 5, 2).unwrap();
    assert_eq!(book.config().total_additional_collateral, 8_001_000);
    book.give_loan(a.order_id, &loan_accounts(LENDER), START).unwrap();
    assert_eq!(book.config().total_additional_collateral, 8_001_000);
    book.liquidate(a.order_id, &liquidate_accounts(), 8, 9, START + 601).unwrap();
    assert_eq!(book.config().total_additional_collateral, 1_000);
    book.cancel_order(b.order_id, &cancel_accounts(), 8, 9).unwrap();
    assert_eq!(book.config().total_additional_collateral, 0);
}

#[test]
fn zero_collateral_issues_no_zero_leg() {
    let mut book = Book::new(&init_accounts(), 7);
    let mut terms = LoanTerms::standard();
    terms.additional_collateral = 0;
    let (order, legs, _) = book.create_order(&create_accounts(), &terms, 5, CREATED).unwrap();
    assert_eq!(legs.len(), 1);
    let (legs, _) = book.cancel_order(order.order_id, &cancel_accounts(), 8, 9).unwrap();
    assert_eq!(legs.len(), 2);
    assert!(matches!(legs[1], Leg::CloseAccount { .. }));
}

#[test]
fn initialize_only_once() {
    let mut slot: Option<Configuration> = None;
    assert_eq!(initialize(&mut slot, &init_accounts(), 7), Ok(()));
    let config = slot.unwrap();
    assert_eq!(config.order_id, 0);
    assert_eq!(config.total_additional_collateral, 0);
    assert_eq!(config.stable_coin_vault, k(POOL));
    assert_eq!(config.nonce, 7);
    assert_eq!(initialize(&mut slot, &init_accounts(), 3), Err(ErrorCode::AlreadyInitialized));
    assert_eq!(slot, Some(config));
}

#[test]
fn cancel_funded_order_fails() {
    let (mut book, id) = funded_book();
    assert_eq!(book.cancel_order(id, &cancel_accounts(), 8, 9), Err(ErrorCode::LoanAlreadyStarted));
    assert_eq!(
        book.give_loan(id, &loan_accounts(LENDER), START + 5),
        Err(ErrorCode::LoanAlreadyStarted)
    );
}

#[test]
fn payback_and_liquidate_need_a_loan() {
    let (mut book, id) = open_book();
    assert_eq!(book.payback(id, &payback_accounts(), 8, 9, START), Err(ErrorCode::LoanNotProvided));
    assert_eq!(
        book.liquidate(id, &liquidate_accounts(), 8, 9, START + 10_000),
        Err(ErrorCode::LoanNotProvided)
    );
}

fn funded_order() -> Order {
    let mut config = Configuration {
        stable_coin_mint: k(STABLE_MINT),
        stable_coin_vault: k(POOL),
        order_id: 0,
        total_additional_collateral: 0,
        nonce: 7,
    };
    let (mut order, _, _) =
        create_order(&mut config, &create_accounts(), &LoanTerms::standard(), 5, CREATED).unwrap();
    give_loan(&config, &mut order, &loan_accounts(LENDER), START).unwrap();
    order
}

fn pool_config(total: u64) -> Configuration {
    Configuration {
        stable_coin_mint: k(STABLE_MINT),
        stable_coin_vault: k(POOL),
        order_id: 1,
        total_additional_collateral: total,
        nonce: 7,
    }
}

#[test]
fn already_liquidated_guard() {
    let mut order = funded_order();
    order.withdrew_at = START + 700;
    let mut config = pool_config(8_000_000);
    let r = liquidate(&mut config, &order, &liquidate_accounts(), 8, 9, START + 800);
    assert_eq!(r, Err(ErrorCode::AlreadyLiquidated));
    assert_eq!(config, pool_config(8_000_000));
}

#[test]
fn collateral_underflow_is_an_error() {
    let order = funded_order();
    let mut config = pool_config(5);
    let r = payback(&mut config, &order, &payback_accounts(), 8, 9, START + 1);
    assert_eq!(r, Err(ErrorCode::ArithmeticUnderflow));
    let mut open = order;
    open.order_status = true;
    open.lender = None;
    let r = cancel_order(&mut config, &open, &cancel_accounts(), 8, 9);
    assert_eq!(r, Err(ErrorCode::ArithmeticUnderflow));
    assert_eq!(config, pool_config(5));
}

#[test]
fn overflow_is_an_error() {
    let mut config = pool_config(u64::MAX - 10);
    let r = create_order(&mut config, &create_accounts(), &LoanTerms::standard(), 5, CREATED);
    assert_eq!(r.map(|_| ()), Err(ErrorCode::ArithmeticOverflow));
    let mut order = funded_order();
    order.period = u64::MAX;
    let mut config = pool_config(8_000_000);
    let r = payback(&mut config, &order, &payback_accounts(), 8, 9, START);
    assert_eq!(r, Err(ErrorCode::ArithmeticOverflow));
    let mut order = funded_order();
    order.interest = u64::MAX;
    let r = payback(&mut config, &order, &payback_accounts(), 8, 9, START);
    assert_eq!(r, Err(ErrorCode::ArithmeticOverflow));
}

#[test]
fn divisible_collateral_is_refused() {
    let mut book = Book::new(&init_accounts(), 7);
    let mut accounts = create_accounts();
    accounts.nft_mint.supply = 2;
    let r = book.create_order(&accounts, &LoanTerms::standard(), 5, CREATED);
    assert_eq!(r.map(|_| ()), Err(ErrorCode::InvalidCollateralAsset));
    accounts.nft_mint.supply = 1;
    accounts.nft_mint.decimals = 6;
    let r = book.create_order(&accounts, &LoanTerms::standard(), 5, CREATED);
    assert_eq!(r.map(|_| ()), Err(ErrorCode::InvalidCollateralAsset));
    assert_eq!(book.config().order_id, 0);
}

#[test]
fn foreign_accounts_are_refused() {
    let mut book = Book::new(&init_accounts(), 7);
    let mut accounts = create_accounts();
    accounts.user_nft_vault.owner = k(LENDER);
    let r = book.create_order(&accounts, &LoanTerms::standard(), 5, CREATED);
    assert_eq!(r.map(|_| ()), Err(ErrorCode::Unauthorized));

    let (mut book, id) = funded_book();
    let mut seize = liquidate_accounts();
    seize.lender = k(BORROWER);
    assert_eq!(book.liquidate(id, &seize, 8, 9, START + 601), Err(ErrorCode::Unauthorized));
    let mut repay = payback_accounts();
    repay.borrower = k(LENDER);
    assert_eq!(book.payback(id, &repay, 8, 9, START + 1), Err(ErrorCode::Unauthorized));
    let mut repay = payback_accounts();
    repay.lender_stable_coin_vault.owner = k(99);
    assert_eq!(book.payback(id, &repay, 8, 9, START + 1), Err(ErrorCode::Unauthorized));
}

#[test]
fn unknown_order_is_refused() {
    let (mut book, _) = open_book();
    assert_eq!(book.cancel_order(42, &cancel_accounts(), 8, 9), Err(ErrorCode::OrderNotFound));
    assert_eq!(book.give_loan(42, &loan_accounts(LENDER), START), Err(ErrorCode::OrderNotFound));
}
