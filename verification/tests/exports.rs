use drift_ffi::account::{AccountLayout, AccountRef, Pubkey};
use drift_ffi::boundary::FfiResult;
use drift_ffi::compat::{I128, U128};
use drift_ffi::error::{CallError, LookupError, StructuralError};
use drift_ffi::exports::{
    load_maps, local_clock, margin_request, math_calculate_auction_price,
    math_calculate_margin_requirement_and_total_collateral_and_liability_info,
    oracle_get_oracle_price, order_is_resting_limit_order, orders_place_perp_order,
    perp_market_get_margin_ratio, perp_market_get_open_interest, perp_order_request,
    perp_position_get_unrealized_pnl, perp_position_simulate_settled_lp_position,
    perp_position_worst_case_base_asset_amount, spot_market_get_asset_weight,
    spot_market_get_liability_weight, spot_market_get_margin_ratio,
    spot_position_get_signed_token_amount, spot_position_get_token_amount,
    user_get_perp_position, user_get_spot_position, AccountsList, Clock, MarketLayouts,
    OraclePriceData, User,
};
use drift_ffi::margin::{
    EngineMarginCalculation, MarginCalculation, MarginContextMode, MarginRequirementType,
};
use drift_ffi::oracle_map::{OracleGuardRails, PriceDivergenceGuardRails, ValidityGuardRails};
use drift_ffi::order::{
    order_is_limit_order, MarketType, Order, OrderParams, OrderTriggerCondition, OrderType,
    PositionDirection, PostOnlyParam,
};

const SPOT_TAG: [u8; 8] = [1, 2, 3, 4, 5, 6, 7, 8];
const PERP_TAG: [u8; 8] = [8, 7, 6, 5, 4, 3, 2, 1];

fn layouts() -> MarketLayouts {
    MarketLayouts {
        spot: AccountLayout { discriminator: SPOT_TAG, size: 20, index_offset: 10 },
        perp: AccountLayout { discriminator: PERP_TAG, size: 32, index_offset: 30 },
    }
}

fn key(n: u8) -> Pubkey {
    Pubkey { bytes: [n; 32] }
}

fn spot(n: u8, index: u16) -> AccountRef {
    let mut data = vec![0u8; 20];
    data[..8].copy_from_slice(&SPOT_TAG);
    data[10..12].copy_from_slice(&index.to_le_bytes());
    AccountRef { key: key(n), data }
}

fn perp(n: u8, index: u16) -> AccountRef {
    let mut data = vec![0u8; 32];
    data[..8].copy_from_slice(&PERP_TAG);
    data[30..32].copy_from_slice(&index.to_le_bytes());
    AccountRef { key: key(n), data }
}

fn oracle(n: u8) -> AccountRef {
    AccountRef { key: key(n), data: vec![0xAB; 12] }
}

fn rails() -> OracleGuardRails {
    OracleGuardRails {
        price_divergence: PriceDivergenceGuardRails {
            mark_oracle_percent_divergence: 1,
            oracle_twap_5min_percent_divergence: 2,
        },
        validity: ValidityGuardRails {
            slots_before_stale_for_amm: 3,
            slots_before_stale_for_margin: 4,
            confidence_interval_max_size: 5,
            too_volatile_ratio: 6,
        },
    }
}

fn accounts() -> AccountsList {
    AccountsList {
        spot_markets: vec![spot(10, 0)],
        perp_markets: vec![perp(20, 0)],
        oracles: vec![oracle(30)],
        latest_slot: 250_000_000,
        oracle_guard_rails: rails(),
    }
}

fn user() -> User {
    User { authority: key(77), data: (0..200u8).collect() }
}

fn params() -> OrderParams {
    OrderParams {
        order_type: OrderType::Limit,
        market_type: MarketType::Perp,
        direction: PositionDirection::Short,
        user_order_id: 9,
        base_asset_amount: 1_000_000_000,
        price: 101_500_000,
        market_index: 0,
        reduce_only: true,
        post_only: PostOnlyParam::MustPostOnly,
        immediate_or_cancel: false,
        max_ts: Some(1_700_000_100),
        trigger_price: None,
        trigger_condition: OrderTriggerCondition::Above,
        oracle_price_offset: Some(-250),
        auction_duration: Some(0),
        auction_start_price: Some(-7),
        auction_end_price: Some(101_500_000),
    }
}

#[test]
fn limit_orders_are_the_two_limit_kinds() {
    assert!(order_is_limit_order(&Order { order_type: OrderType::Limit }));
    assert!(order_is_limit_order(&Order { order_type: OrderType::TriggerLimit }));
    assert!(!order_is_limit_order(&Order { order_type: OrderType::Market }));
    assert!(!order_is_limit_order(&Order { order_type: OrderType::TriggerMarket }));
    assert!(!order_is_limit_order(&Order { order_type: OrderType::Oracle }));
}

#[test]
fn maps_of_one_account_each() {
    let list = accounts();
    let maps = load_maps(&layouts(), &list).unwrap();
    assert_eq!(maps.spot_markets.len(), 1);
    assert_eq!(maps.perp_markets.len(), 1);
    assert_eq!(maps.oracles.len(), 1);
    assert_eq!(maps.spot_markets.get(0), Ok(&list.spot_markets[0]));
    assert_eq!(maps.perp_markets.get(0), Ok(&list.perp_markets[0]));
    assert_eq!(maps.oracles.get(&key(30)), Ok(&list.oracles[0]));
    assert_eq!(maps.oracles.slot(), 250_000_000);
    assert_eq!(maps.oracles.guard_rails(), rails());
    assert_eq!(maps.perp_markets.get(1), Err(LookupError::MarketNotFound));
    assert_eq!(maps.oracles.get(&key(31)), Err(LookupError::OracleNotFound));
}

#[test]
fn maps_fail_with_the_first_list_that_fails() {
    let mut list = accounts();
    list.oracles.push(oracle(30));
    assert_eq!(
        load_maps(&layouts(), &list).err(),
        Some(CallError::Malformed(StructuralError::DuplicateKey))
    );
    list.perp_markets[0].data[0] = 0;
    assert_eq!(
        load_maps(&layouts(), &list).err(),
        Some(CallError::Malformed(StructuralError::DiscriminatorMismatch))
    );
    list.spot_markets[0].data.truncate(19);
    assert_eq!(
        load_maps(&layouts(), &list).err(),
        Some(CallError::Malformed(StructuralError::AccountTooSmall))
    );
}

#[test]
fn a_market_of_the_other_kind_is_refused() {
    let mut list = accounts();
    list.spot_markets.push(perp(11, 1));
    assert_eq!(
        load_maps(&layouts(), &list).err(),
        Some(CallError::Malformed(StructuralError::DiscriminatorMismatch))
    );
}

#[test]
fn a_failed_load_leaves_as_its_code() {
    let mut list = accounts();
    list.spot_markets.push(spot(11, 0));
    let outcome = margin_request(&layouts(), &list, MarginContextMode::StandardInitial)
        .map(|_| EngineMarginCalculation {
            total_collateral: 0,
            margin_requirement: 0,
            with_perp_isolated_liability: false,
            with_spot_isolated_liability: false,
            total_spot_asset_value: 0,
            total_spot_liability_value: 0,
            total_perp_liability_value: 0,
            total_perp_pnl: 0,
            open_orders_margin_requirement: 0,
        });
    assert_eq!(
        math_calculate_margin_requirement_and_total_collateral_and_liability_info(outcome),
        FfiResult::RErr(3)
    );
}

#[test]
fn margin_request_names_the_requirement() {
    let list = accounts();
    let r = margin_request(&layouts(), &list, MarginContextMode::StandardMaintenance).unwrap();
    assert_eq!(r.requirement, MarginRequirementType::Maintenance);
    let r = margin_request(&layouts(), &list, MarginContextMode::StandardInitial).unwrap();
    assert_eq!(r.requirement, MarginRequirementType::Initial);
    for t in
        [MarginRequirementType::Initial, MarginRequirementType::Fill, MarginRequirementType::Maintenance]
    {
        let r = margin_request(&layouts(), &list, MarginContextMode::StandardCustom(t)).unwrap();
        assert_eq!(r.requirement, t);
        assert_eq!(MarginContextMode::StandardCustom(t).requirement_type(), t);
    }
    assert_eq!(r_len(&list), 1);
}

fn r_len(list: &AccountsList) -> usize {
    margin_request(&layouts(), list, MarginContextMode::StandardInitial)
        .unwrap()
        .maps
        .perp_markets
        .len()
}

#[test]
fn margin_result_for_one_perp_position() {
    let list = accounts();
    let request = margin_request(&layouts(), &list, MarginContextMode::StandardInitial).unwrap();
    assert_eq!(request.maps.spot_markets.get(0), Ok(&list.spot_markets[0]));
    assert_eq!(request.maps.perp_markets.get(0), Ok(&list.perp_markets[0]));
    assert_eq!(request.maps.oracles.slot(), list.latest_slot);
    let native = EngineMarginCalculation {
        total_collateral: 1_000_000_000,
        margin_requirement: 50_000_000,
        with_perp_isolated_liability: false,
        with_spot_isolated_liability: false,
        total_spot_asset_value: 1_000_000_000,
        total_spot_liability_value: 0,
        total_perp_liability_value: 500_000_000,
        total_perp_pnl: 0,
        open_orders_margin_requirement: 0,
    };
    let first =
        math_calculate_margin_requirement_and_total_collateral_and_liability_info(Ok(native));
    let second =
        math_calculate_margin_requirement_and_total_collateral_and_liability_info(Ok(native));
    assert_eq!(first, second);
    let m = match first {
        FfiResult::ROk(m) => m,
        FfiResult::RErr(code) => panic!("failed with {}", code),
    };
    assert!(m.total_collateral.to_native() >= 0);
    assert_eq!(m.total_collateral, I128 { lo: 1_000_000_000, hi: 0 });
    assert_eq!(m.margin_requirement, U128 { lo: 50_000_000, hi: 0 });
    assert_eq!(m.margin_requirement.to_native(), 50_000_000);
    assert!(!m.with_perp_isolated_liability);
    assert!(!m.with_spot_isolated_liability);
    assert_eq!(m.total_perp_liability_value.to_native(), 500_000_000);
}

#[test]
fn margin_result_keeps_every_field() {
    let native = EngineMarginCalculation {
        total_collateral: -3,
        margin_requirement: u128::MAX,
        with_perp_isolated_liability: true,
        with_spot_isolated_liability: false,
        total_spot_asset_value: i128::MIN,
        total_spot_liability_value: 1u128 << 64,
        total_perp_liability_value: 12,
        total_perp_pnl: i128::MAX,
        open_orders_margin_requirement: (5u128 << 64) + 6,
    };
    let expected = MarginCalculation {
        total_collateral: I128 { lo: u64::MAX - 2, hi: -1 },
        margin_requirement: U128 { lo: u64::MAX, hi: u64::MAX },
        with_perp_isolated_liability: true,
        with_spot_isolated_liability: false,
        total_spot_asset_value: I128 { lo: 0, hi: i64::MIN },
        total_spot_liability_value: U128 { lo: 0, hi: 1 },
        total_perp_liability_value: U128 { lo: 12, hi: 0 },
        total_perp_pnl: I128 { lo: u64::MAX, hi: i64::MAX },
        open_orders_margin_requirement: U128 { lo: 6, hi: 5 },
    };
    assert_eq!(MarginCalculation::from_engine(&native), expected);
    assert_eq!(
        math_calculate_margin_requirement_and_total_collateral_and_liability_info(Ok(native)),
        FfiResult::ROk(expected)
    );
    let flipped = EngineMarginCalculation {
        with_perp_isolated_liability: false,
        with_spot_isolated_liability: true,
        ..native
    };
    let m = MarginCalculation::from_engine(&flipped);
    assert!(!m.with_perp_isolated_liability);
    assert!(m.with_spot_isolated_liability);
}

#[test]
fn margin_failure_is_returned_as_its_code() {
    assert_eq!(
        math_calculate_margin_requirement_and_total_collateral_and_liability_info(Err(
            CallError::Missing(LookupError::MarketNotFound)
        )),
        FfiResult::RErr(4)
    );
    assert_eq!(
        math_calculate_margin_requirement_and_total_collateral_and_liability_info(Err(
            CallError::Missing(LookupError::OracleNotFound)
        )),
        FfiResult::RErr(5)
    );
    assert_eq!(
        math_calculate_margin_requirement_and_total_collateral_and_liability_info(Err(
            CallError::Domain(6078)
        )),
        FfiResult::RErr(6078)
    );
}

#[test]
fn place_perp_order_leaves_the_user_untouched() {
    let list = accounts();
    let caller = user();
    let before = caller.clone();
    let mut request = perp_order_request(&layouts(), &caller, &params(), &list, 1_700_000_000)
        .unwrap();
    assert_eq!(request.user, before);
    assert_eq!(request.authority, key(77));
    for byte in request.user.data.iter_mut() {
        *byte = !*byte;
    }
    request.user.data.push(1);
    request.user.authority = key(0);
    assert_eq!(caller, before);
    assert_eq!(orders_place_perp_order(Ok(())), FfiResult::ROk(true));
    assert_eq!(caller, before);
    assert_eq!(orders_place_perp_order(Err(CallError::Domain(6010))), FfiResult::RErr(6010));
    assert_eq!(caller, before);
}

#[test]
fn place_perp_order_hands_over_clock_and_parameters() {
    let list = accounts();
    let caller = user();
    let given = params();
    let request =
        perp_order_request(&layouts(), &caller, &given, &list, 1_700_000_000).unwrap();
    assert_eq!(
        request.clock,
        Clock {
            slot: 250_000_000,
            epoch_start_timestamp: 0,
            epoch: 0,
            leader_schedule_epoch: 0,
            unix_timestamp: 1_700_000_000,
        }
    );
    let p = request.params;
    assert_eq!(p.order_type, OrderType::Limit);
    assert_eq!(p.market_type, MarketType::Perp);
    assert_eq!(p.direction, PositionDirection::Short);
    assert_eq!(p.user_order_id, 9);
    assert_eq!(p.base_asset_amount, 1_000_000_000);
    assert_eq!(p.price, 101_500_000);
    assert_eq!(p.market_index, 0);
    assert!(p.reduce_only);
    assert_eq!(p.post_only, PostOnlyParam::MustPostOnly);
    assert!(!p.immediate_or_cancel);
    assert_eq!(p.max_ts, Some(1_700_000_100));
    assert_eq!(p.trigger_price, None);
    assert_eq!(p.trigger_condition, OrderTriggerCondition::Above);
    assert_eq!(p.oracle_price_offset, Some(-250));
    assert_eq!(p.auction_duration, Some(0));
    assert_eq!(p.auction_start_price, Some(-7));
    assert_eq!(p.auction_end_price, Some(101_500_000));
    assert_eq!(given.to_engine(), p);
    assert_eq!(request.maps.perp_markets.get(0), Ok(&list.perp_markets[0]));
    assert_eq!(request.maps.oracles.slot(), 250_000_000);
}

#[test]
fn place_perp_order_ends_on_a_failed_load() {
    let mut list = accounts();
    list.perp_markets.push(perp(21, 0));
    let caller = user();
    let r = perp_order_request(&layouts(), &caller, &params(), &list, 5);
    assert_eq!(r.err(), Some(CallError::Malformed(StructuralError::DuplicateKey)));
    assert_eq!(
        orders_place_perp_order(Err(CallError::Malformed(StructuralError::DuplicateKey))),
        FfiResult::RErr(3)
    );
    assert_eq!(caller, user());
}

#[test]
fn local_clock_wraps_the_seconds() {
    assert_eq!(local_clock(7, 0).unix_timestamp, 0);
    assert_eq!(local_clock(7, i64::MAX as u64).unix_timestamp, i64::MAX);
    assert_eq!(local_clock(7, (i64::MAX as u64) + 1).unix_timestamp, i64::MIN);
    assert_eq!(local_clock(7, u64::MAX).unix_timestamp, -1);
    let c = local_clock(u64::MAX, 12);
    assert_eq!(c.slot, u64::MAX);
    assert_eq!(c.epoch_start_timestamp, 0);
    assert_eq!(c.epoch, 0);
    assert_eq!(c.leader_schedule_epoch, 0);
}

#[test]
fn resting_limit_order_failure_is_an_error_value() {
    assert_eq!(order_is_resting_limit_order(Ok(true)), FfiResult::ROk(true));
    assert_eq!(order_is_resting_limit_order(Ok(false)), FfiResult::ROk(false));
    assert_eq!(order_is_resting_limit_order(Err(CallError::Domain(6006))), FfiResult::RErr(6006));
}

#[test]
fn auction_price_is_returned_as_the_engine_gave_it() {
    for slot_outcome in [101_500_000u64, 101_500_000, 101_500_000] {
        assert_eq!(math_calculate_auction_price(Ok(slot_outcome)), FfiResult::ROk(101_500_000));
    }
    assert_eq!(math_calculate_auction_price(Ok(u64::MAX)), FfiResult::ROk(u64::MAX));
    assert_eq!(math_calculate_auction_price(Err(CallError::Domain(6001))), FfiResult::RErr(6001));
}

#[test]
fn oracle_price_is_returned_as_the_engine_gave_it() {
    let data = OraclePriceData {
        price: -45,
        confidence: 1_000,
        delay: 3,
        has_sufficient_number_of_data_points: true,
    };
    assert_eq!(oracle_get_oracle_price(Ok(data)), FfiResult::ROk(data));
    assert_eq!(oracle_get_oracle_price(Err(CallError::Domain(6035))), FfiResult::RErr(6035));
}

#[test]
fn open_interest_is_split() {
    assert_eq!(perp_market_get_open_interest(0), U128 { lo: 0, hi: 0 });
    assert_eq!(perp_market_get_open_interest((3u128 << 64) + 4), U128 { lo: 4, hi: 3 });
    assert_eq!(perp_market_get_open_interest(u128::MAX).to_native(), u128::MAX);
}

#[test]
fn signed_amounts_are_split_inside_the_result() {
    let minus_one = FfiResult::ROk(I128 { lo: u64::MAX, hi: -1 });
    assert_eq!(perp_position_get_unrealized_pnl(Ok(-1)), minus_one);
    assert_eq!(perp_position_worst_case_base_asset_amount(Ok(-1)), minus_one);
    assert_eq!(spot_position_get_signed_token_amount(Ok(-1)), minus_one);
    assert_eq!(
        perp_position_get_unrealized_pnl(Ok(i128::MIN)),
        FfiResult::ROk(I128 { lo: 0, hi: i64::MIN })
    );
    assert_eq!(
        perp_position_worst_case_base_asset_amount(Ok(1i128 << 64)),
        FfiResult::ROk(I128 { lo: 0, hi: 1 })
    );
    assert_eq!(perp_position_get_unrealized_pnl(Err(CallError::Domain(6002))), FfiResult::RErr(6002));
    assert_eq!(
        perp_position_worst_case_base_asset_amount(Err(CallError::Domain(6003))),
        FfiResult::RErr(6003)
    );
    assert_eq!(
        spot_position_get_signed_token_amount(Err(CallError::Domain(6004))),
        FfiResult::RErr(6004)
    );
}

#[test]
fn unsigned_amounts_are_split_inside_the_result() {
    assert_eq!(
        spot_position_get_token_amount(Ok((9u128 << 64) + 1)),
        FfiResult::ROk(U128 { lo: 1, hi: 9 })
    );
    assert_eq!(spot_position_get_token_amount(Err(CallError::Domain(6005))), FfiResult::RErr(6005));
}

#[test]
fn ratios_and_weights_are_returned_as_they_are() {
    assert_eq!(perp_market_get_margin_ratio(Ok(500)), FfiResult::ROk(500));
    assert_eq!(spot_market_get_asset_weight(Ok(8_000)), FfiResult::ROk(8_000));
    assert_eq!(spot_market_get_liability_weight(Ok(12_000)), FfiResult::ROk(12_000));
    assert_eq!(spot_market_get_margin_ratio(Ok(2_000)), FfiResult::ROk(2_000));
    assert_eq!(perp_market_get_margin_ratio(Err(CallError::Domain(6100))), FfiResult::RErr(6100));
    assert_eq!(spot_market_get_asset_weight(Err(CallError::Domain(6101))), FfiResult::RErr(6101));
    assert_eq!(
        spot_market_get_liability_weight(Err(CallError::Domain(6102))),
        FfiResult::RErr(6102)
    );
    assert_eq!(spot_market_get_margin_ratio(Err(CallError::Domain(6103))), FfiResult::RErr(6103));
}

#[test]
fn positions_are_returned_as_they_are() {
    let position: (u16, i64) = (4, -9);
    assert_eq!(perp_position_simulate_settled_lp_position(Ok(position)), FfiResult::ROk(position));
    assert_eq!(user_get_spot_position(Ok(&position)), FfiResult::ROk(&position));
    assert_eq!(user_get_perp_position(Ok(&position)), FfiResult::ROk(&position));
    assert_eq!(
        perp_position_simulate_settled_lp_position(Err::<(u16, i64), CallError>(
            CallError::Domain(6200)
        )),
        FfiResult::RErr(6200)
    );
    assert_eq!(
        user_get_spot_position(Err::<&(u16, i64), CallError>(CallError::Domain(6201))),
        FfiResult::RErr(6201)
    );
    assert_eq!(
        user_get_perp_position(Err::<&(u16, i64), CallError>(CallError::Domain(6202))),
        FfiResult::RErr(6202)
    );
}

#[test]
fn a_missing_market_or_oracle_is_a_failure_with_its_code() {
    let list = accounts();
    let maps = load_maps(&layouts(), &list).unwrap();
    assert_eq!(maps.spot_market(0), Ok(&list.spot_markets[0]));
    assert_eq!(maps.perp_market(0), Ok(&list.perp_markets[0]));
    assert_eq!(maps.oracle(&key(30)), Ok(&list.oracles[0]));
    let no_spot = maps.spot_market(3).err().unwrap();
    let no_perp = maps.perp_market(1).err().unwrap();
    let no_oracle = maps.oracle(&key(10)).err().unwrap();
    assert_eq!(no_spot, CallError::Missing(LookupError::MarketNotFound));
    assert_eq!(no_perp, CallError::Missing(LookupError::MarketNotFound));
    assert_eq!(no_oracle, CallError::Missing(LookupError::OracleNotFound));
    assert_eq!(
        math_calculate_margin_requirement_and_total_collateral_and_liability_info(Err(no_perp)),
        FfiResult::RErr(4)
    );
    assert_eq!(
        math_calculate_margin_requirement_and_total_collateral_and_liability_info(Err(no_oracle)),
        FfiResult::RErr(5)
    );
}
