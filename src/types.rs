use vstd::prelude::*;

verus! {

/// A 32-byte account address, held as two 128-bit halves (big-endian order).
#[derive(Clone, Copy, Debug, PartialEq, Eq, Structural)]
pub struct Key {
    pub high: u128,
    pub low: u128,
}

impl Key {
    pub fn new(high: u128, low: u128) -> (r: Key)
        ensures
            r.high == high,
            r.low == low,
    {
        Key { high, low }
    }
}

/// The process-wide registry: order numbering and the aggregate of locked top-up collateral.
#[derive(Clone, Copy, Debug, PartialEq, Eq, Structural)]
pub struct Configuration {
    /// Mint of the stable coin.
    pub stable_coin_mint: Key,
    /// Pooled vault holding every order's top-up collateral.
    pub stable_coin_vault: Key,
    /// The identifier the next created order receives.
    pub order_id: u64,
    /// Sum of `additional_collateral` over all orders not yet closed.
    pub total_additional_collateral: u64,
    pub nonce: u8,
}

/// The terms a borrower asks for when opening an order.
#[derive(Clone, Copy, Debug, PartialEq, Eq, Structural)]
pub struct LoanTerms {
    pub request_amount: u64,
    pub interest: u64,
    pub payback_amount: u64,
    /// Repayment window, in seconds from the loan start.
    pub period: u64,
    pub additional_collateral: u64,
}

/// Standard order terms: 80 stable units (6 decimals) for ten minutes,
/// 4.8 units of interest, 8 units of top-up collateral.
pub const STANDARD_REQUEST_AMOUNT: u64 = 80_000_000;
pub const STANDARD_INTEREST: u64 = 4_800_000;
pub const STANDARD_PAYBACK_AMOUNT: u64 = 3_200_000;
pub const STANDARD_PERIOD: u64 = 600;
pub const STANDARD_ADDITIONAL_COLLATERAL: u64 = 8_000_000;

impl LoanTerms {
    pub fn standard() -> (r: LoanTerms)
        ensures
            r.request_amount == STANDARD_REQUEST_AMOUNT,
            r.interest == STANDARD_INTEREST,
            r.payback_amount == STANDARD_PAYBACK_AMOUNT,
            r.period == STANDARD_PERIOD,
            r.additional_collateral == STANDARD_ADDITIONAL_COLLATERAL,
    {
        LoanTerms {
            request_amount: STANDARD_REQUEST_AMOUNT,
            interest: STANDARD_INTEREST,
            payback_amount: STANDARD_PAYBACK_AMOUNT,
            period: STANDARD_PERIOD,
            additional_collateral: STANDARD_ADDITIONAL_COLLATERAL,
        }
    }
}

/// One loan, from creation until it is cancelled, paid back or liquidated.
#[derive(Clone, Copy, Debug, PartialEq, Eq, Structural)]
pub struct Order {
    pub borrower: Key,
    pub stable_coin_vault: Key,
    pub nft_mint: Key,
    /// The per-order vault that holds the locked NFT.
    pub nft_vault: Key,
    pub request_amount: u64,
    pub interest: u64,
    /// Stored with the order; no transition reads it.
    pub payback_amount: u64,
    pub period: u64,
    pub additional_collateral: u64,
    /// Unset until the order is funded.
    pub lender: Option<Key>,
    pub created_at: u64,
    pub loan_start_time: u64,
    pub paid_back_at: u64,
    pub withdrew_at: u64,
    /// `true` while open (unfunded), `false` once funded.
    pub order_status: bool,
    pub order_id: u64,
    pub nonce: u8,
}

impl Order {
    /// The lender of a funded order; `None` while the order is open.
    pub open spec fn funded_by(self) -> Option<Key> {
        if self.order_status {
            None
        } else {
            self.lender
        }
    }

    /// Last instant (inclusive) at which the loan may still be paid back.
    pub open spec fn deadline(self) -> int {
        self.loan_start_time + self.period
    }
}

#[derive(Clone, Copy, Debug, PartialEq, Eq, Structural)]
pub enum ErrorCode {
    AlreadyInitialized,
    LoanAlreadyStarted,
    LoanNotProvided,
    RepaymentPeriodExceeded,
    RepaymentPeriodNotExceeded,
    AlreadyLiquidated,
    ArithmeticOverflow,
    ArithmeticUnderflow,
    InvalidCollateralAsset,
    Unauthorized,
    /// No live order carries the requested identifier.
    OrderNotFound,
}

/// What the ledger reports about a mint.
#[derive(Clone, Copy, Debug, PartialEq, Eq, Structural)]
pub struct MintInfo {
    pub key: Key,
    pub supply: u64,
    pub decimals: u8,
}

/// A token account supplied by a caller: its address, the mint it holds, its owner.
#[derive(Clone, Copy, Debug, PartialEq, Eq, Structural)]
pub struct TokenAccountInfo {
    pub key: Key,
    pub mint: Key,
    pub owner: Key,
}

/// Who signs a transfer leg: a user, or a vault through its derived authority.
#[derive(Clone, Copy, Debug, PartialEq, Eq, Structural)]
pub enum Authority {
    /// The user's own signature.
    Signer(Key),
    /// The NFT vault, derived from the NFT mint with the given bump.
    NftVault { nft_mint: Key, bump: u8 },
    /// The pooled stable-coin vault, derived from the stable-coin mint with the given bump.
    StableVault { stable_coin_mint: Key, bump: u8 },
}

/// One ledger operation of a transition; a transition's legs succeed or fail together.
#[derive(Clone, Copy, Debug, PartialEq, Eq, Structural)]
pub enum Leg {
    Transfer { mint: Key, from: Key, to: Key, authority: Authority, amount: u64 },
    /// Close a custodial account, refunding its storage cost to `destination`.
    CloseAccount { account: Key, destination: Key, authority: Authority },
}

#[derive(Clone, Copy, Debug, PartialEq, Eq, Structural)]
pub struct CreatedOrderEvent {
    pub order_key: Key,
    pub borrower: Key,
}

#[derive(Clone, Copy, Debug, PartialEq, Eq, Structural)]
pub struct CanceledOrderEvent {
    pub order_key: Key,
    pub borrower: Key,
}

#[derive(Clone, Copy, Debug, PartialEq, Eq, Structural)]
pub struct LoanOrderEvent {
    pub order_key: Key,
    pub borrower: Key,
    pub lender: Key,
}

#[derive(Clone, Copy, Debug, PartialEq, Eq, Structural)]
pub struct PayBackOrderEvent {
    pub order_key: Key,
    pub borrower: Key,
}

#[derive(Clone, Copy, Debug, PartialEq, Eq, Structural)]
pub struct LiquidityOrderEvent {
    pub order_key: Key,
    pub borrower: Key,
    pub lender: Key,
}

/// Accounts of the registry bootstrap.
#[derive(Clone, Copy, Debug, PartialEq, Eq, Structural)]
pub struct Initialize {
    pub signer: Key,
    pub configuration: Key,
    pub stable_coin_mint: Key,
    pub stable_coin_vault: Key,
}

/// Accounts of order creation.
#[derive(Clone, Copy, Debug, PartialEq, Eq, Structural)]
pub struct CreateOrder {
    /// Address of the new order record.
    pub order: Key,
    pub borrower: Key,
    pub stable_coin_mint: Key,
    pub stable_coin_vault: Key,
    pub user_stable_coin_vault: TokenAccountInfo,
    pub nft_mint: MintInfo,
    pub nft_vault: Key,
    pub user_nft_vault: TokenAccountInfo,
}

/// Accounts of an order cancellation.
#[derive(Clone, Copy, Debug, PartialEq, Eq, Structural)]
pub struct CancelOrder {
    pub order: Key,
    pub borrower: Key,
    pub stable_coin_mint: Key,
    pub stable_coin_vault: Key,
    pub user_stable_coin_vault: TokenAccountInfo,
    pub nft_mint: MintInfo,
    pub nft_vault: Key,
    pub user_nft_vault: TokenAccountInfo,
}

/// Accounts of funding an order.
#[derive(Clone, Copy, Debug, PartialEq, Eq, Structural)]
pub struct GiveLoan {
    pub order: Key,
    pub lender: Key,
    pub stable_coin_mint: Key,
    pub stable_coin_vault: Key,
    pub lender_stable_coin_vault: TokenAccountInfo,
    pub borrower_stable_coin_vault: TokenAccountInfo,
}

/// Accounts of a repayment.
#[derive(Clone, Copy, Debug, PartialEq, Eq, Structural)]
pub struct Payback {
    pub order: Key,
    pub borrower: Key,
    pub stable_coin_mint: Key,
    pub stable_coin_vault: Key,
    pub lender_stable_coin_vault: TokenAccountInfo,
    pub borrower_stable_coin_vault: TokenAccountInfo,
    pub nft_mint: MintInfo,
    pub nft_vault: Key,
    pub borrower_nft_vault: TokenAccountInfo,
}

/// Accounts of a liquidation.
#[derive(Clone, Copy, Debug, PartialEq, Eq, Structural)]
pub struct Liquidate {
    pub order: Key,
    pub borrower: Key,
    pub lender: Key,
    pub stable_coin_mint: Key,
    pub stable_coin_vault: Key,
    pub lender_stable_coin_vault: TokenAccountInfo,
    pub nft_mint: MintInfo,
    pub nft_vault: Key,
    pub lender_nft_vault: TokenAccountInfo,
}

} // verus!
