//! Fees taken from the coins sent along with a call.
use vstd::prelude::*;

use crate::context::CwIbcCoreContext;
use crate::error::ContractError;

verus! {

/// An amount of one denomination.
#[derive(Debug)]
pub struct Coin {
    pub denom: String,
    pub amount: u128,
}

/// The gas schedule that prices gas: a numerator, an adjustment numerator and
/// the denominator that a fee is divided by.
#[derive(Debug, Clone, Copy)]
pub struct GasSchedule {
    pub numerator: u64,
    pub adjustment_numerator: u64,
    pub denominator: u64,
}

/// Whether the schedule can price gas: its denominator is not zero and the
/// product of its numerators fits in a `u64`.
pub open spec fn schedule_usable(g: GasSchedule) -> bool {
    g.denominator != 0 && g.numerator * g.adjustment_numerator <= u64::MAX
}

/// The price of gas: the product of the two numerators.
pub open spec fn gas_price_of(g: GasSchedule) -> int {
    g.numerator * g.adjustment_numerator
}

impl CwIbcCoreContext {
    /// The price of gas under the schedule `g`.
    pub fn gas_price(&self, g: &GasSchedule) -> (r: u128)
        requires
            schedule_usable(*g),
        ensures
            r == gas_price_of(*g),
    {
        let price: u64 = g.numerator * g.adjustment_numerator;
        price as u128
    }

    /// The fee for `expected_gas` under the schedule `g`: the gas times its
    /// price, divided by the schedule's denominator (rounded down).
    pub fn calculate_fee(&self, expected_gas: u64, g: &GasSchedule) -> (r: u128)
        requires
            schedule_usable(*g),
        ensures
            r == (expected_gas * gas_price_of(*g)) / (g.denominator as int),
    {
        let price = self.gas_price(g);
        assert(expected_gas * price <= u64::MAX * u64::MAX) by (nonlinear_arith)
            requires
                expected_gas <= u64::MAX,
                price <= u64::MAX;
        let fee: u128 = (expected_gas as u128) * price;
        fee / (g.denominator as u128)
    }

    /// Takes `fee` from every coin; fails where no coin was sent.
    pub fn update_fee(&self, coins: Vec<Coin>, fee: u128) -> (r: Result<Vec<Coin>, ContractError>)
        requires
            forall|i: int| 0 <= i < coins.len() ==> #[trigger] coins@[i].amount >= fee,
        ensures
            coins.len() == 0 ==> r == Err::<Vec<Coin>, ContractError>(ContractError::InsufficientBalance),
            coins.len() > 0 ==> (r matches Ok(v) && v.len() == coins.len() && forall|i: int| 0 <= i < v.len() ==> {
                &&& (#[trigger] v@[i]).amount == coins@[i].amount - fee
                &&& v@[i].denom@ == coins@[i].denom@
            }),
    {
        if coins.len() == 0 {
            return Err(ContractError::InsufficientBalance);
        }
        let mut updated: Vec<Coin> = Vec::new();
        let mut i: usize = 0;
        while i < coins.len()
            invariant
                0 <= i <= coins.len(),
                updated.len() == i,
                forall|j: int| 0 <= j < coins.len() ==> #[trigger] coins@[j].amount >= fee,
                forall|j: int| 0 <= j < i ==> {
                    &&& (#[trigger] updated@[j]).amount == coins@[j].amount - fee
                    &&& updated@[j].denom@ == coins@[j].denom@
                },
            decreases coins.len() - i,
        {
            let coin = &coins[i];
            updated.push(Coin { denom: coin.denom.clone(), amount: coin.amount - fee });
            i = i + 1;
        }
        Ok(updated)
    }
}

} // verus!
