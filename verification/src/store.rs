use crate::error::CurveError;
use crate::instructions;
use crate::state::BondingCurve;
use crate::state::spec_buy_price;
use crate::state::spec_sell_price;
use std::collections::HashMap;
use vstd::prelude::*;

verus! {

broadcast use vstd::std_specs::hash::group_hash_axioms;

/// An in-memory storage backend for curve records, keyed by a
/// caller-chosen 64-bit identity (the record's address on the ledger).
/// It exposes the record-level interface `create`, `load`, `store` and
/// the operation surface `initialize`, `buy`, `sell`; each operation is
/// one read-compute-write cycle against a single record, serialized by
/// `&mut` access to the whole store.
pub struct CurveStore {
    records: HashMap<u64, BondingCurve>,
}

impl View for CurveStore {
    type V = Map<u64, BondingCurve>;

    closed spec fn view(&self) -> Map<u64, BondingCurve> {
        self.records@
    }
}

impl CurveStore {
    /// Every record held by the store is well formed; `new` establishes
    /// this and every method preserves it.
    pub open spec fn inv(self) -> bool {
        forall|id: u64| #[trigger] self@.contains_key(id) ==> self@[id].wf()
    }

    /// An empty store.
    pub fn new() -> (s: CurveStore)
        ensures
            s@ == Map::<u64, BondingCurve>::empty(),
            s.inv(),
    {
        CurveStore { records: HashMap::new() }
    }

    /// Claims the identity `id` for the given record.  Fails with
    /// `AlreadyInitialized`, leaving the store untouched, when the
    /// identity already carries a record.
    pub fn create(&mut self, id: u64, curve: BondingCurve) -> (result: Result<(), CurveError>)
        requires
            old(self).inv(),
            curve.wf(),
        ensures
            final(self).inv(),
            match result {
                Ok(()) => {
                    &&& !old(self)@.contains_key(id)
                    &&& final(self)@ == old(self)@.insert(id, curve)
                },
                Err(e) => {
                    &&& e == CurveError::AlreadyInitialized
                    &&& old(self)@.contains_key(id)
                    &&& final(self)@ == old(self)@
                },
            },
    {
        if self.records.contains_key(&id) {
            return Err(CurveError::AlreadyInitialized);
        }
        self.records.insert(id, curve);
        proof {
            assert forall|other: u64| #[trigger] self@.contains_key(other) implies self@[other].wf() by {
                if other != id {
                    assert(old(self)@.contains_key(other));
                }
            }
        }
        Ok(())
    }

    /// Reads the record held under `id`, if any.
    pub fn load(&self, id: u64) -> (result: Option<BondingCurve>)
        ensures
            match result {
                Some(curve) => self@.contains_key(id) && curve == self@[id],
                None => !self@.contains_key(id),
            },
    {
        match self.records.get(&id) {
            Some(curve) => Some(*curve),
            None => None,
        }
    }

    /// Writes a record under `id`, replacing whatever the identity held.
    pub fn store(&mut self, id: u64, curve: BondingCurve)
        requires
            old(self).inv(),
            curve.wf(),
        ensures
            final(self).inv(),
            final(self)@ == old(self)@.insert(id, curve),
    {
        self.records.insert(id, curve);
    }

    /// Creates the curve record for identity `id` with zero supply and
    /// the given base price.  Fails with `AlreadyInitialized`, leaving
    /// the store untouched, when `id` already carries a record.
    pub fn initialize(&mut self, id: u64, base_price: u64) -> (result: Result<(), CurveError>)
        requires
            old(self).inv(),
        ensures
            final(self).inv(),
            match result {
                Ok(()) => {
                    &&& !old(self)@.contains_key(id)
                    &&& final(self)@ == old(self)@.insert(
                        id,
                        (BondingCurve { token_supply: 0, base_price }),
                    )
                },
                Err(e) => {
                    &&& e == CurveError::AlreadyInitialized
                    &&& old(self)@.contains_key(id)
                    &&& final(self)@ == old(self)@
                },
            },
    {
        let curve = instructions::initialize(base_price);
        self.create(id, curve)
    }

    /// Buys `amount` tokens against the record under `id`: one load,
    /// one price computation, one store.  On success the supply rises by
    /// exactly `amount` and the quoted price is returned; on
    /// `SupplyOverflow` the record is left exactly as it was.
    pub fn buy(&mut self, id: u64, amount: u64) -> (result: Result<u64, CurveError>)
        requires
            old(self).inv(),
            old(self)@.contains_key(id),
        ensures
            final(self).inv(),
            match result {
                Ok(price) => {
                    &&& old(self)@[id].token_supply + amount <= u64::MAX
                    &&& spec_buy_price(
                        old(self)@[id].base_price,
                        old(self)@[id].token_supply,
                        amount,
                    ) <= u64::MAX
                    &&& price == spec_buy_price(
                        old(self)@[id].base_price,
                        old(self)@[id].token_supply,
                        amount,
                    )
                    &&& final(self)@ == old(self)@.insert(
                        id,
                        (BondingCurve {
                            token_supply: (old(self)@[id].token_supply + amount) as u64,
                            base_price: old(self)@[id].base_price,
                        }),
                    )
                },
                Err(e) => {
                    &&& e == CurveError::SupplyOverflow
                    &&& {
                        ||| old(self)@[id].token_supply + amount > u64::MAX
                        ||| spec_buy_price(
                            old(self)@[id].base_price,
                            old(self)@[id].token_supply,
                            amount,
                        ) > u64::MAX
                    }
                    &&& final(self)@ == old(self)@
                },
            },
    {
        let mut curve = match self.load(id) {
            Some(curve) => curve,
            None => {
                return Err(CurveError::SupplyOverflow);  // unreachable: the record exists
            },
        };
        let price = match instructions::buy(&mut curve, amount) {
            Ok(price) => price,
            Err(e) => {
                return Err(e);
            },
        };
        self.store(id, curve);
        Ok(price)
    }

    /// Sells `amount` tokens against the record under `id`: one load,
    /// one price computation, one store.  On success the supply falls by
    /// exactly `amount` and the quoted price is returned; on
    /// `InsufficientSupply` the record is left exactly as it was.
    pub fn sell(&mut self, id: u64, amount: u64) -> (result: Result<u64, CurveError>)
        requires
            old(self).inv(),
            old(self)@.contains_key(id),
        ensures
            final(self).inv(),
            match result {
                Ok(price) => {
                    &&& amount <= old(self)@[id].token_supply
                    &&& price == spec_sell_price(
                        old(self)@[id].base_price,
                        old(self)@[id].token_supply,
                        amount,
                    )
                    &&& final(self)@ == old(self)@.insert(
                        id,
                        (BondingCurve {
                            token_supply: (old(self)@[id].token_supply - amount) as u64,
                            base_price: old(self)@[id].base_price,
                        }),
                    )
                },
                Err(e) => {
                    &&& e == CurveError::InsufficientSupply
                    &&& amount > old(self)@[id].token_supply
                    &&& final(self)@ == old(self)@
                },
            },
    {
        let mut curve = match self.load(id) {
            Some(curve) => curve,
            None => {
                return Err(CurveError::InsufficientSupply);  // unreachable: the record exists
            },
        };
        let price = match instructions::sell(&mut curve, amount) {
            Ok(price) => price,
            Err(e) => {
                return Err(e);
            },
        };
        self.store(id, curve);
        Ok(price)
    }
}

} // verus!
