use crate::error::CurveError;
use crate::state::BondingCurve;
use crate::state::PRICE_SCALE;
use crate::state::PRICE_SLOPE;
use crate::state::spec_buy_price;
use crate::state::spec_sell_price;
use vstd::arithmetic::div_mod::lemma_div_is_ordered;
use vstd::prelude::*;

verus! {

/// Creates a fresh curve record: zero supply, the given base price.
/// Claiming the identity that will hold the record, and refusing a second
/// initialization of it, is the storage layer's concern.
pub fn initialize(base_price: u64) -> (curve: BondingCurve)
    ensures
        curve.token_supply == 0,
        curve.base_price == base_price,
        curve.wf(),
{
    BondingCurve { token_supply: 0, base_price }
}

/// Buys `amount` tokens: quotes the price at the post-trade supply, then
/// raises the supply by exactly `amount`.  Fails with `SupplyOverflow`,
/// leaving the record untouched, when the new supply or its price would
/// not be representable.  An `amount` of zero is a legal trade that
/// leaves the supply unchanged and still returns a valid price.
pub fn buy(curve: &mut BondingCurve, amount: u64) -> (result: Result<u64, CurveError>)
    ensures
        final(curve).base_price == old(curve).base_price,
        match result {
            Ok(price) => {
                &&& old(curve).token_supply + amount <= u64::MAX
                &&& spec_buy_price(old(curve).base_price, old(curve).token_supply, amount)
                    <= u64::MAX
                &&& price == spec_buy_price(
                    old(curve).base_price,
                    old(curve).token_supply,
                    amount,
                )
                &&& final(curve).token_supply == old(curve).token_supply + amount
                &&& final(curve).wf()
            },
            Err(e) => {
                &&& e == CurveError::SupplyOverflow
                &&& {
                    ||| old(curve).token_supply + amount > u64::MAX
                    ||| spec_buy_price(old(curve).base_price, old(curve).token_supply, amount)
                        > u64::MAX
                }
                &&& *final(curve) == *old(curve)
            },
        },
{
    let new_supply: u64 = match curve.token_supply.checked_add(amount) {
        Some(v) => v,
        None => {
            return Err(CurveError::SupplyOverflow);
        },
    };
    let scaled: u128 = (new_supply as u128) * (PRICE_SLOPE as u128) / (PRICE_SCALE as u128);
    if (curve.base_price as u128) + scaled > u64::MAX as u128 {
        return Err(CurveError::SupplyOverflow);
    }
    let price = curve.price_for_buy(amount);
    curve.token_supply = new_supply;
    Ok(price)
}

/// Sells `amount` tokens: quotes the price at the pre-trade supply minus
/// the amount, then lowers the supply by exactly `amount`.  Fails with
/// `InsufficientSupply`, leaving the record untouched, when `amount`
/// exceeds the current supply.
pub fn sell(curve: &mut BondingCurve, amount: u64) -> (result: Result<u64, CurveError>)
    requires
        old(curve).wf(),
    ensures
        final(curve).base_price == old(curve).base_price,
        final(curve).wf(),
        match result {
            Ok(price) => {
                &&& amount <= old(curve).token_supply
                &&& price == spec_sell_price(
                    old(curve).base_price,
                    old(curve).token_supply,
                    amount,
                )
                &&& final(curve).token_supply == old(curve).token_supply - amount
            },
            Err(e) => {
                &&& e == CurveError::InsufficientSupply
                &&& amount > old(curve).token_supply
                &&& *final(curve) == *old(curve)
            },
        },
{
    if amount > curve.token_supply {
        return Err(CurveError::InsufficientSupply);
    }
    let price = curve.price_for_sell(amount);
    // Defensive guard: the supply check above already rules the
    // underflow out, and the contract proves this arm unreachable.
    let new_supply: u64 = match curve.token_supply.checked_sub(amount) {
        Some(v) => v,
        None => {
            return Err(CurveError::SupplyUnderflow);
        },
    };
    proof {
        lemma_div_is_ordered(
            new_supply * PRICE_SLOPE,
            old(curve).token_supply * PRICE_SLOPE,
            PRICE_SCALE as int,
        );
    }
    curve.token_supply = new_supply;
    Ok(price)
}

/// Buying and then selling the same amount restores the supply exactly,
/// while the two quoted prices generally differ: the buy price is
/// evaluated at the post-trade supply, the later sell price at that
/// supply minus the amount, so the buy price is never below the sell
/// price and exceeds it whenever the two curve terms differ.
pub proof fn lemma_buy_then_sell_restores_supply(c0: BondingCurve, c1: BondingCurve, amount: u64)
    requires
        c0.token_supply + amount <= u64::MAX,
        c1.base_price == c0.base_price,
        c1.token_supply == c0.token_supply + amount,
    ensures
        c1.token_supply - amount == c0.token_supply,
        spec_sell_price(c1.base_price, c1.token_supply, amount) == c0.base_price + (
        c0.token_supply * PRICE_SLOPE) / (PRICE_SCALE as int),
        spec_buy_price(c0.base_price, c0.token_supply, amount) - spec_sell_price(
            c1.base_price,
            c1.token_supply,
            amount,
        ) == ((c0.token_supply + amount) * PRICE_SLOPE) / (PRICE_SCALE as int) - (
        c0.token_supply * PRICE_SLOPE) / (PRICE_SCALE as int),
        spec_buy_price(c0.base_price, c0.token_supply, amount) >= spec_sell_price(
            c1.base_price,
            c1.token_supply,
            amount,
        ),
{
    lemma_div_is_ordered(
        c0.token_supply * PRICE_SLOPE,
        (c0.token_supply + amount) * PRICE_SLOPE,
        PRICE_SCALE as int,
    );
}

} // verus!
