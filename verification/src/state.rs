use vstd::arithmetic::div_mod::lemma_div_is_ordered;
use vstd::prelude::*;

verus! {

/// Slope coefficient of the linear curve: each unit of supply adds
/// `PRICE_SLOPE / PRICE_SCALE` to the unit price.
pub const PRICE_SLOPE: u64 = 10;

/// Scale divisor of the linear curve; the division truncates toward zero,
/// a deliberate rounding-down bias in the buyer's favor.
pub const PRICE_SCALE: u64 = 1000;

/// The curve record: the cumulative token supply and the base price fixed
/// at creation.  The supply moves only through the buy and sell
/// operations; the base price never changes after initialization.
#[derive(Clone, Copy, Debug, PartialEq, Eq, Structural)]
pub struct BondingCurve {
    pub token_supply: u64,
    pub base_price: u64,
}

/// Unit price quoted to a buyer of `amount` tokens at supply `supply`:
/// the curve evaluated at the post-trade supply, rounded down.
pub open spec fn spec_buy_price(base_price: u64, supply: u64, amount: u64) -> int {
    base_price + ((supply + amount) * PRICE_SLOPE) / (PRICE_SCALE as int)
}

/// Unit price quoted to a seller of `amount` tokens at supply `supply`:
/// the curve evaluated at the pre-trade supply minus the amount, rounded
/// down.  Meaningful only for `amount <= supply`.
pub open spec fn spec_sell_price(base_price: u64, supply: u64, amount: u64) -> int {
    base_price + ((supply - amount) * PRICE_SLOPE) / (PRICE_SCALE as int)
}

impl BondingCurve {
    /// Persisted size of the record: two 8-byte fields.
    pub const LEN: usize = 8 + 8;

    /// A record is well formed when the unit price at its current supply
    /// is representable.  Initialization establishes this and every
    /// operation preserves it, so the sell-side price can never overflow.
    pub open spec fn wf(self) -> bool {
        self.base_price + (self.token_supply * PRICE_SLOPE) / (PRICE_SCALE as int) <= u64::MAX
    }

    /// Runtime check of [`BondingCurve::wf`], for callers outside
    /// verified code that assemble a record from raw fields.
    pub fn is_well_formed(&self) -> (r: bool)
        ensures
            r == self.wf(),
    {
        let term: u128 = (self.token_supply as u128) * (PRICE_SLOPE as u128) / (PRICE_SCALE as u128);
        (self.base_price as u128) + term <= u64::MAX as u128
    }

    /// Price for buying `amount` tokens at the current supply.
    pub fn price_for_buy(&self, amount: u64) -> (price: u64)
        requires
            self.token_supply + amount <= u64::MAX,
            spec_buy_price(self.base_price, self.token_supply, amount) <= u64::MAX,
        ensures
            price == spec_buy_price(self.base_price, self.token_supply, amount),
    {
        let scaled: u128 = ((self.token_supply as u128) + (amount as u128)) * (PRICE_SLOPE as u128)
            / (PRICE_SCALE as u128);
        self.base_price + (scaled as u64)
    }

    /// Price for selling `amount` tokens at the current supply, evaluated
    /// at the pre-trade supply minus the amount.
    pub fn price_for_sell(&self, amount: u64) -> (price: u64)
        requires
            amount <= self.token_supply,
            self.wf(),
        ensures
            price == spec_sell_price(self.base_price, self.token_supply, amount),
    {
        let scaled: u128 = ((self.token_supply - amount) as u128) * (PRICE_SLOPE as u128)
            / (PRICE_SCALE as u128);
        proof {
            lemma_div_is_ordered(
                (self.token_supply - amount) * PRICE_SLOPE,
                self.token_supply * PRICE_SLOPE,
                PRICE_SCALE as int,
            );
        }
        self.base_price + (scaled as u64)
    }
}

} // verus!
