pub mod book;
pub mod instructions;
pub mod laws;
pub mod types;

pub use types::{
    Authority, CancelOrder, CanceledOrderEvent, Configuration, CreateOrder, CreatedOrderEvent,
    ErrorCode, GiveLoan, Initialize, Key, Leg, Liquidate, LiquidityOrderEvent, LoanOrderEvent,
    LoanTerms, MintInfo, Order, PayBackOrderEvent, Payback, TokenAccountInfo,
};
pub use instructions::{cancel_order, create_order, give_loan, initialize, liquidate, payback};
pub use book::Book;
