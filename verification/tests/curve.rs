use bonding_curve::codec::decode_record;
use bonding_curve::codec::encode_record;
use bonding_curve::error::CurveError;
use bonding_curve::instructions;
use bonding_curve::state::BondingCurve;
use bonding_curve::store::CurveStore;

#[test]
fn initialize_sets_zero_supply_and_exact_base_price() {
    let curve = instructions::initialize(100);
    assert_eq!(curve.token_supply, 0);
    assert_eq!(curve.base_price, 100);
}

#[test]
fn buy_price_matches_linear_formula() {
    // base + ((supply + amount) * 10) / 1000, rounded down
    let curve = BondingCurve { token_supply: 300, base_price: 5 };
    assert_eq!(curve.price_for_buy(250), 5 + (300 + 250) * 10 / 1000);
    assert_eq!(curve.price_for_buy(250), 10);
    assert_eq!(curve.price_for_buy(0), 5 + 3000 / 1000);
}

#[test]
fn sell_price_matches_linear_formula() {
    // base + ((supply - amount) * 10) / 1000, rounded down
    let curve = BondingCurve { token_supply: 550, base_price: 5 };
    assert_eq!(curve.price_for_sell(250), 5 + (550 - 250) * 10 / 1000);
    assert_eq!(curve.price_for_sell(250), 8);
    assert_eq!(curve.price_for_sell(550), 5);
}

#[test]
fn buy_raises_supply_by_exactly_the_amount() {
    let mut curve = instructions::initialize(100);
    assert_eq!(instructions::buy(&mut curve, 50), Ok(100));
    assert_eq!(curve.token_supply, 50);
    assert_eq!(instructions::buy(&mut curve, 250), Ok(103));
    assert_eq!(curve.token_supply, 300);
    assert_eq!(curve.base_price, 100);
}

#[test]
fn buy_zero_is_a_supply_noop_with_a_valid_price() {
    let mut curve = BondingCurve { token_supply: 400, base_price: 7 };
    assert_eq!(instructions::buy(&mut curve, 0), Ok(7 + 400 * 10 / 1000));
    assert_eq!(curve.token_supply, 400);
    assert_eq!(curve.base_price, 7);
}

#[test]
fn sell_above_supply_fails_and_leaves_supply_unchanged() {
    let mut curve = BondingCurve { token_supply: 30, base_price: 100 };
    assert_eq!(
        instructions::sell(&mut curve, 31),
        Err(CurveError::InsufficientSupply)
    );
    assert_eq!(curve.token_supply, 30);
    assert_eq!(curve.base_price, 100);
}

#[test]
fn buy_past_the_supply_bound_fails_and_leaves_state() {
    let mut curve = BondingCurve { token_supply: u64::MAX, base_price: 1 };
    assert_eq!(instructions::buy(&mut curve, 1), Err(CurveError::SupplyOverflow));
    assert_eq!(curve.token_supply, u64::MAX);
    assert_eq!(curve.base_price, 1);
}

#[test]
fn buy_whose_price_cannot_be_represented_fails() {
    let mut curve = BondingCurve { token_supply: 0, base_price: u64::MAX };
    // (0 + 100) * 10 / 1000 == 1, one above the representable price
    assert_eq!(instructions::buy(&mut curve, 100), Err(CurveError::SupplyOverflow));
    assert_eq!(curve.token_supply, 0);
    assert_eq!(curve.base_price, u64::MAX);
}

#[test]
fn buy_then_sell_restores_supply_but_prices_differ() {
    let mut curve = instructions::initialize(100);
    let buy_price = instructions::buy(&mut curve, 150).unwrap();
    let sell_price = instructions::sell(&mut curve, 150).unwrap();
    assert_eq!(curve.token_supply, 0);
    assert_eq!(buy_price, 101);
    assert_eq!(sell_price, 100);
    assert_ne!(buy_price, sell_price);
}

#[test]
fn well_formedness_check_matches_the_price_bound() {
    let fine = BondingCurve { token_supply: 1000, base_price: u64::MAX - 10 };
    assert!(fine.is_well_formed());
    let broken = BondingCurve { token_supply: 1100, base_price: u64::MAX - 10 };
    assert!(!broken.is_well_formed());
}

#[test]
fn store_runs_the_documented_trading_scenario() {
    // base_price = 100: buy(50) and sell(20) both quote 100, and a sell
    // of 100 against a supply of 30 fails without touching the record.
    let mut store = CurveStore::new();
    assert_eq!(store.initialize(7, 100), Ok(()));
    assert_eq!(store.load(7), Some(BondingCurve { token_supply: 0, base_price: 100 }));
    assert_eq!(store.buy(7, 50), Ok(100));
    assert_eq!(store.load(7).unwrap().token_supply, 50);
    assert_eq!(store.sell(7, 20), Ok(100));
    assert_eq!(store.load(7).unwrap().token_supply, 30);
    assert_eq!(store.sell(7, 100), Err(CurveError::InsufficientSupply));
    assert_eq!(store.load(7).unwrap().token_supply, 30);
}

#[test]
fn initializing_the_same_identity_twice_fails() {
    let mut store = CurveStore::new();
    assert_eq!(store.initialize(1, 100), Ok(()));
    assert_eq!(store.initialize(1, 200), Err(CurveError::AlreadyInitialized));
    // the first record is untouched
    assert_eq!(store.load(1), Some(BondingCurve { token_supply: 0, base_price: 100 }));
}

#[test]
fn store_keeps_records_apart_by_identity() {
    let mut store = CurveStore::new();
    assert_eq!(store.load(5), None);
    assert_eq!(store.initialize(5, 10), Ok(()));
    assert_eq!(store.initialize(6, 20), Ok(()));
    assert_eq!(store.buy(5, 1000), Ok(10 + 1000 * 10 / 1000));
    assert_eq!(store.load(5).unwrap().token_supply, 1000);
    assert_eq!(store.load(6).unwrap().token_supply, 0);
    store.store(6, BondingCurve { token_supply: 3, base_price: 20 });
    assert_eq!(store.load(6), Some(BondingCurve { token_supply: 3, base_price: 20 }));
}

#[test]
fn record_layout_is_two_little_endian_words() {
    let curve = BondingCurve { token_supply: 1, base_price: 2 };
    let bytes = encode_record(&curve);
    assert_eq!(
        bytes,
        vec![1, 0, 0, 0, 0, 0, 0, 0, 2, 0, 0, 0, 0, 0, 0, 0]
    );
}

#[test]
fn record_codec_round_trips() {
    let curve = BondingCurve { token_supply: 0x1122334455667788, base_price: u64::MAX };
    let bytes = encode_record(&curve);
    assert_eq!(bytes.len(), 16);
    assert_eq!(decode_record(&bytes), curve);
    let fixed: Vec<u8> = vec![0x88, 0x77, 0x66, 0x55, 0x44, 0x33, 0x22, 0x11, 0, 0, 0, 0, 0, 0, 0, 9];
    let decoded = decode_record(&fixed);
    assert_eq!(decoded.token_supply, 0x1122334455667788);
    assert_eq!(decoded.base_price, 9 << 56);
    assert_eq!(encode_record(&decoded), fixed);
}
