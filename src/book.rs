//! The whole lending state: the registry together with every live order.
use vstd::prelude::*;

use crate::instructions::{
    cancel_order, cancel_order_check, cancel_order_legs, closed_configuration, create_order,
    create_order_check, create_order_legs, fresh_configuration, funded_order, give_loan,
    give_loan_check, give_loan_legs, liquidate, liquidate_check, liquidate_legs,
    opened_configuration, opened_order, payback, payback_check, payback_legs,
};
use crate::types::{
    CancelOrder, CanceledOrderEvent, Configuration, CreateOrder, CreatedOrderEvent, ErrorCode,
    GiveLoan, Initialize, Leg, Liquidate, LiquidityOrderEvent, LoanOrderEvent, LoanTerms, Order,
    PayBackOrderEvent, Payback,
};

verus! {

/// Sum of the top-up collateral of `orders`.
pub open spec fn total_collateral(orders: Seq<Order>) -> int
    decreases orders.len(),
{
    if orders.len() == 0 {
        0
    } else {
        total_collateral(orders.drop_last()) + orders.last().additional_collateral
    }
}

/// Some order in `orders` carries identifier `id`.
pub open spec fn live(orders: Seq<Order>, id: u64) -> bool {
    exists|i: int| 0 <= i < orders.len() && #[trigger] orders[i].order_id == id
}

/// Where the order with identifier `id` stands (meaningful when it is live).
pub open spec fn position(orders: Seq<Order>, id: u64) -> int {
    choose|i: int| 0 <= i < orders.len() && #[trigger] orders[i].order_id == id
}

/// The state of the system: the registry and the live orders.
pub type State = (Configuration, Seq<Order>);

/// The registry counts exactly the live orders' collateral, every live identifier was issued
/// before, and no two live orders share an identifier.
pub open spec fn well_formed(s: State) -> bool {
    &&& s.0.total_additional_collateral == total_collateral(s.1)
    &&& forall|i: int| 0 <= i < s.1.len() ==> #[trigger] s.1[i].order_id < s.0.order_id
    &&& forall|i: int, j: int|
        0 <= i < s.1.len() && 0 <= j < s.1.len() && i != j ==> #[trigger] s.1[i].order_id
            != #[trigger] s.1[j].order_id
}

pub open spec fn create_step(
    s: State,
    accounts: CreateOrder,
    terms: LoanTerms,
    order_nonce: u8,
    now: u64,
) -> Result<State, ErrorCode> {
    match create_order_check(s.0, accounts, terms) {
        Err(e) => Err(e),
        Ok(_) => Ok(
            (
                opened_configuration(s.0, terms),
                s.1.push(opened_order(s.0, accounts, terms, order_nonce, now)),
            ),
        ),
    }
}

pub open spec fn cancel_step(s: State, id: u64, accounts: CancelOrder) -> Result<State, ErrorCode> {
    if !live(s.1, id) {
        Err(ErrorCode::OrderNotFound)
    } else {
        let order = s.1[position(s.1, id)];
        match cancel_order_check(s.0, order, accounts) {
            Err(e) => Err(e),
            Ok(_) => Ok((closed_configuration(s.0, order), s.1.remove(position(s.1, id)))),
        }
    }
}

pub open spec fn give_loan_step(s: State, id: u64, accounts: GiveLoan, now: u64) -> Result<
    State,
    ErrorCode,
> {
    if !live(s.1, id) {
        Err(ErrorCode::OrderNotFound)
    } else {
        let order = s.1[position(s.1, id)];
        match give_loan_check(s.0, order, accounts) {
            Err(e) => Err(e),
            Ok(_) => Ok(
                (s.0, s.1.update(position(s.1, id), funded_order(order, accounts.lender, now))),
            ),
        }
    }
}

pub open spec fn payback_step(s: State, id: u64, accounts: Payback, now: u64) -> Result<
    State,
    ErrorCode,
> {
    if !live(s.1, id) {
        Err(ErrorCode::OrderNotFound)
    } else {
        let order = s.1[position(s.1, id)];
        match payback_check(s.0, order, accounts, now) {
            Err(e) => Err(e),
            Ok(_) => Ok((closed_configuration(s.0, order), s.1.remove(position(s.1, id)))),
        }
    }
}

pub open spec fn liquidate_step(s: State, id: u64, accounts: Liquidate, now: u64) -> Result<
    State,
    ErrorCode,
> {
    if !live(s.1, id) {
        Err(ErrorCode::OrderNotFound)
    } else {
        let order = s.1[position(s.1, id)];
        match liquidate_check(s.0, order, accounts, now) {
            Err(e) => Err(e),
            Ok(_) => Ok((closed_configuration(s.0, order), s.1.remove(position(s.1, id)))),
        }
    }
}

proof fn lemma_total_push(s: Seq<Order>, o: Order)
    ensures
        total_collateral(s.push(o)) == total_collateral(s) + o.additional_collateral,
{
    assert(s.push(o).drop_last() =~= s);
}

proof fn lemma_total_remove(s: Seq<Order>, i: int)
    requires
        0 <= i < s.len(),
    ensures
        total_collateral(s.remove(i)) == total_collateral(s) - s[i].additional_collateral,
    decreases s.len(),
{
    if i == s.len() - 1 {
        assert(s.remove(i) =~= s.drop_last());
    } else {
        lemma_total_remove(s.drop_last(), i);
        assert(s.remove(i).drop_last() =~= s.drop_last().remove(i));
    }
}

proof fn lemma_total_update(s: Seq<Order>, i: int, o: Order)
    requires
        0 <= i < s.len(),
    ensures
        total_collateral(s.update(i, o)) == total_collateral(s) - s[i].additional_collateral
            + o.additional_collateral,
    decreases s.len(),
{
    if i == s.len() - 1 {
        assert(s.update(i, o).drop_last() =~= s.drop_last());
    } else {
        lemma_total_update(s.drop_last(), i, o);
        assert(s.update(i, o).drop_last() =~= s.drop_last().update(i, o));
    }
}

/// In a well-formed state, the position of a live identifier is the one index holding it.
proof fn lemma_position(s: State, id: u64, i: int)
    requires
        well_formed(s),
        0 <= i < s.1.len(),
        s.1[i].order_id == id,
    ensures
        live(s.1, id),
        position(s.1, id) == i,
{
    assert(live(s.1, id));
    let p = position(s.1, id);
    assert(s.1[p].order_id == id);
}

/// Closing a live order keeps the state well formed.
pub proof fn lemma_close_well_formed(s: State, id: u64)
    requires
        well_formed(s),
        live(s.1, id),
        s.0.total_additional_collateral >= s.1[position(s.1, id)].additional_collateral,
    ensures
        well_formed(
            (closed_configuration(s.0, s.1[position(s.1, id)]), s.1.remove(position(s.1, id))),
        ),
        !live(s.1.remove(position(s.1, id)), id),
{
    let p = position(s.1, id);
    let r = s.1.remove(p);
    lemma_total_remove(s.1, p);
    assert forall|k: int| 0 <= k < r.len() implies r[k] == s.1[if k < p { k } else { k + 1 }] by {}
    if live(r, id) {
        let k = choose|k: int| 0 <= k < r.len() && #[trigger] r[k].order_id == id;
        assert(r[k] == s.1[if k < p { k } else { k + 1 }]);
    }
}

/// Funding a live order keeps the state well formed.
pub proof fn lemma_fund_well_formed(s: State, id: u64, o: Order)
    requires
        well_formed(s),
        live(s.1, id),
        o.order_id == id,
        o.additional_collateral == s.1[position(s.1, id)].additional_collateral,
    ensures
        well_formed((s.0, s.1.update(position(s.1, id), o))),
        live(s.1.update(position(s.1, id), o), id),
{
    let p = position(s.1, id);
    lemma_total_update(s.1, p, o);
    assert(s.1.update(p, o)[p].order_id == id);
}

/// Opening an order keeps the state well formed.
pub proof fn lemma_open_well_formed(
    s: State,
    accounts: CreateOrder,
    terms: LoanTerms,
    order_nonce: u8,
    now: u64,
)
    requires
        well_formed(s),
        create_order_check(s.0, accounts, terms) is Ok,
    ensures
        well_formed(
            (
                opened_configuration(s.0, terms),
                s.1.push(opened_order(s.0, accounts, terms, order_nonce, now)),
            ),
        ),
{
    lemma_total_push(s.1, opened_order(s.0, accounts, terms, order_nonce, now));
}

/// The registry and every live order, held together so that the registry's aggregate
/// always matches the orders.
pub struct Book {
    config: Configuration,
    orders: Vec<Order>,
}

impl View for Book {
    type V = State;

    closed spec fn view(&self) -> State {
        (self.config, self.orders@)
    }
}

impl Book {
    pub open spec fn wf(&self) -> bool {
        well_formed(self@)
    }

    /// A freshly bootstrapped registry with no orders.
    pub fn new(accounts: &Initialize, config_nonce: u8) -> (r: Book)
        ensures
            r@ == (fresh_configuration(*accounts, config_nonce), Seq::<Order>::empty()),
            r.wf(),
    {
        Book {
            config: Configuration {
                stable_coin_mint: accounts.stable_coin_mint,
                stable_coin_vault: accounts.stable_coin_vault,
                order_id: 0,
                total_additional_collateral: 0,
                nonce: config_nonce,
            },
            orders: Vec::new(),
        }
    }

    pub fn config(&self) -> (r: Configuration)
        ensures
            r == self@.0,
    {
        self.config
    }

    /// The live orders, in order of creation.
    pub fn orders(&self) -> (r: &Vec<Order>)
        ensures
            r@ == self@.1,
    {
        &self.orders
    }

    /// The live order with identifier `id`, if any.
    pub fn order(&self, id: u64) -> (r: Option<Order>)
        requires
            self.wf(),
        ensures
            match r {
                Some(o) => live(self@.1, id) && o == self@.1[position(self@.1, id)],
                None => !live(self@.1, id),
            },
    {
        match self.find(id) {
            Some(i) => Some(self.orders[i]),
            None => None,
        }
    }

    fn find(&self, id: u64) -> (r: Option<usize>)
        requires
            self.wf(),
        ensures
            match r {
                Some(i) => live(self@.1, id) && i == position(self@.1, id) && i < self@.1.len(),
                None => !live(self@.1, id),
            },
    {
        let mut i: usize = 0;
        while i < self.orders.len()
            invariant
                self.wf(),
                i <= self.orders@.len(),
                forall|k: int| 0 <= k < i ==> #[trigger] self.orders@[k].order_id != id,
            decreases self.orders@.len() - i,
        {
            if self.orders[i].order_id == id {
                proof {
                    lemma_position(self@, id, i as int);
                }
                return Some(i);
            }
            i = i + 1;
        }
        None
    }

    /// Open an order; see [`create_order`].
    pub fn create_order(
        &mut self,
        accounts: &CreateOrder,
        terms: &LoanTerms,
        order_nonce: u8,
        now: u64,
    ) -> (r: Result<(Order, Vec<Leg>, CreatedOrderEvent), ErrorCode>)
        requires
            old(self).wf(),
        ensures
            final(self).wf(),
            match create_step(old(self)@, *accounts, *terms, order_nonce, now) {
                Ok(s) => r is Ok && final(self)@ == s,
                Err(e) => r == Err::<(Order, Vec<Leg>, CreatedOrderEvent), ErrorCode>(e)
                    && final(self)@ == old(self)@,
            },
            r matches Ok((o, legs, event)) ==> {
                &&& o == opened_order(old(self)@.0, *accounts, *terms, order_nonce, now)
                &&& legs@ == create_order_legs(*accounts, *terms)
                &&& event == (CreatedOrderEvent {
                    order_key: accounts.order,
                    borrower: accounts.borrower,
                })
            },
            r matches Ok((o, _, _)) ==> o.order_id == old(self)@.0.order_id && forall|i: int|
                0 <= i < old(self)@.1.len() ==> #[trigger] old(self)@.1[i].order_id < o.order_id,
    {
        let result = create_order(&mut self.config, accounts, terms, order_nonce, now);
        match result {
            Ok((order, legs, event)) => {
                proof {
                    lemma_open_well_formed(old(self)@, *accounts, *terms, order_nonce, now);
                }
                self.orders.push(order);
                Ok((order, legs, event))
            },
            Err(e) => Err(e),
        }
    }

    /// Cancel the open order `id`; see [`cancel_order`].
    pub fn cancel_order(
        &mut self,
        id: u64,
        accounts: &CancelOrder,
        stable_nonce: u8,
        nft_nonce: u8,
    ) -> (r: Result<(Vec<Leg>, CanceledOrderEvent), ErrorCode>)
        requires
            old(self).wf(),
        ensures
            final(self).wf(),
            match cancel_step(old(self)@, id, *accounts) {
                Ok(s) => r is Ok && final(self)@ == s,
                Err(e) => r == Err::<(Vec<Leg>, CanceledOrderEvent), ErrorCode>(e) && final(self)@ == old(self)@,
            },
            r matches Ok((legs, event)) ==> {
                &&& legs@ == cancel_order_legs(
                    old(self)@.0,
                    old(self)@.1[position(old(self)@.1, id)],
                    *accounts,
                    stable_nonce,
                    nft_nonce,
                )
                &&& event == (CanceledOrderEvent {
                    order_key: accounts.order,
                    borrower: accounts.borrower,
                })
            },
    {
        let i = match self.find(id) {
            Some(i) => i,
            None => return Err(ErrorCode::OrderNotFound),
        };
        let order = self.orders[i];
        let result = cancel_order(&mut self.config, &order, accounts, stable_nonce, nft_nonce);
        match result {
            Ok(done) => {
                proof {
                    lemma_close_well_formed(old(self)@, id);
                }
                self.orders.remove(i);
                Ok(done)
            },
            Err(e) => Err(e),
        }
    }

    /// Fund the open order `id`; see [`give_loan`].
    pub fn give_loan(&mut self, id: u64, accounts: &GiveLoan, now: u64) -> (r: Result<
        (Vec<Leg>, LoanOrderEvent),
        ErrorCode,
    >)
        requires
            old(self).wf(),
        ensures
            final(self).wf(),
            match give_loan_step(old(self)@, id, *accounts, now) {
                Ok(s) => r is Ok && final(self)@ == s,
                Err(e) => r == Err::<(Vec<Leg>, LoanOrderEvent), ErrorCode>(e) && final(self)@
                    == old(self)@,
            },
            r matches Ok((legs, event)) ==> {
                &&& legs@ == give_loan_legs(
                    old(self)@.0,
                    old(self)@.1[position(old(self)@.1, id)],
                    *accounts,
                )
                &&& event == (LoanOrderEvent {
                    order_key: accounts.order,
                    borrower: old(self)@.1[position(old(self)@.1, id)].borrower,
                    lender: accounts.lender,
                })
            },
    {
        let i = match self.find(id) {
            Some(i) => i,
            None => return Err(ErrorCode::OrderNotFound),
        };
        let mut order = self.orders[i];
        let result = give_loan(&self.config, &mut order, accounts, now);
        match result {
            Ok(done) => {
                proof {
                    lemma_fund_well_formed(old(self)@, id, order);
                }
                self.orders.set(i, order);
                Ok(done)
            },
            Err(e) => Err(e),
        }
    }

    /// Repay the funded order `id` at time `now`; see [`payback`].
    pub fn payback(
        &mut self,
        id: u64,
        accounts: &Payback,
        stable_nonce: u8,
        nft_nonce: u8,
        now: u64,
    ) -> (r: Result<(Vec<Leg>, PayBackOrderEvent), ErrorCode>)
        requires
            old(self).wf(),
        ensures
            final(self).wf(),
            match payback_step(old(self)@, id, *accounts, now) {
                Ok(s) => r is Ok && final(self)@ == s,
                Err(e) => r == Err::<(Vec<Leg>, PayBackOrderEvent), ErrorCode>(e) && final(self)@ == old(self)@,
            },
            r matches Ok((legs, event)) ==> {
                &&& legs@ == payback_legs(
                    old(self)@.0,
                    old(self)@.1[position(old(self)@.1, id)],
                    *accounts,
                    stable_nonce,
                    nft_nonce,
                )
                &&& event == (PayBackOrderEvent {
                    order_key: accounts.order,
                    borrower: accounts.borrower,
                })
            },
    {
        let i = match self.find(id) {
            Some(i) => i,
            None => return Err(ErrorCode::OrderNotFound),
        };
        let order = self.orders[i];
        let result = payback(&mut self.config, &order, accounts, stable_nonce, nft_nonce, now);
        match result {
            Ok(done) => {
                proof {
                    lemma_close_well_formed(old(self)@, id);
                }
                self.orders.remove(i);
                Ok(done)
            },
            Err(e) => Err(e),
        }
    }

    /// Liquidate the funded order `id` at time `now`; see [`liquidate`].
    pub fn liquidate(
        &mut self,
        id: u64,
        accounts: &Liquidate,
        stable_nonce: u8,
        nft_nonce: u8,
        now: u64,
    ) -> (r: Result<(Vec<Leg>, LiquidityOrderEvent), ErrorCode>)
        requires
            old(self).wf(),
        ensures
            final(self).wf(),
            match liquidate_step(old(self)@, id, *accounts, now) {
                Ok(s) => r is Ok && final(self)@ == s,
                Err(e) => r == Err::<(Vec<Leg>, LiquidityOrderEvent), ErrorCode>(e) && final(self)@ == old(self)@,
            },
            r matches Ok((legs, event)) ==> {
                &&& legs@ == liquidate_legs(
                    old(self)@.0,
                    old(self)@.1[position(old(self)@.1, id)],
                    *accounts,
                    stable_nonce,
                    nft_nonce,
                )
                &&& event == (LiquidityOrderEvent {
                    order_key: accounts.order,
                    borrower: accounts.borrower,
                    lender: accounts.lender,
                })
            },
    {
        let i = match self.find(id) {
            Some(i) => i,
            None => return Err(ErrorCode::OrderNotFound),
        };
        let order = self.orders[i];
        let result = liquidate(&mut self.config, &order, accounts, stable_nonce, nft_nonce, now);
        match result {
            Ok(done) => {
                proof {
                    lemma_close_well_formed(old(self)@, id);
                }
                self.orders.remove(i);
                Ok(done)
            },
            Err(e) => Err(e),
        }
    }
}

} // verus!
