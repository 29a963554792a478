//! The entry points of the boundary, as far as they are this library's own
//! work.
//!
//! Every computation belongs to the engine behind the boundary. What
//! happens before the engine is asked, and after it has answered, belongs
//! here. Before: the account lists of the call are loaded into maps, which
//! either succeeds as a whole or ends the call, and what the engine is
//! handed is put together. After: the engine's outcome is brought into the
//! shape that the boundary returns, a success with its payload in boundary
//! form, a failure with its code and nothing else.
//!
//! The functions named after entry points take the engine's outcome for
//! that entry point and give what the entry point returns.

use vstd::prelude::*;
use crate::account::{AccountLayout, AccountRef, Pubkey};
use crate::boundary::FfiResult;
use crate::compat::{I128, U128};
use crate::error::{CallError, LookupError, StructuralError};
use crate::margin::{
    EngineMarginCalculation,
    MarginCalculation,
    MarginContextMode,
    MarginRequirementType,
};
use crate::market_map::MarketMap;
use crate::oracle_map::{OracleGuardRails, OracleMap};
use crate::order::{EngineOrderParams, OrderParams};

verus! {

/// The accounts of one call: the spot markets, the perp markets and the
/// oracles, each in the caller's order, with the slot of the call and the
/// guard rails for its oracles.
#[derive(Clone, Debug, PartialEq, Eq)]
pub struct AccountsList {
    pub spot_markets: Vec<AccountRef>,
    pub perp_markets: Vec<AccountRef>,
    pub oracles: Vec<AccountRef>,
    pub latest_slot: u64,
    pub oracle_guard_rails: OracleGuardRails,
}

/// The layouts of the two kinds of market record.
#[derive(Clone, Copy, Debug, PartialEq, Eq)]
pub struct MarketLayouts {
    pub spot: AccountLayout,
    pub perp: AccountLayout,
}

/// The three maps of one call.
#[derive(Debug)]
pub struct AccountMaps<'a> {
    pub spot_markets: MarketMap<'a>,
    pub perp_markets: MarketMap<'a>,
    pub oracles: OracleMap<'a>,
}

/// A price as an oracle reports it.
#[derive(Clone, Copy, Debug, PartialEq, Eq, Structural)]
pub struct OraclePriceData {
    pub price: i64,
    pub confidence: u64,
    pub delay: i64,
    pub has_sufficient_number_of_data_points: bool,
}

/// A point in time as the engine takes it.
#[derive(Clone, Copy, Debug, PartialEq, Eq, Structural)]
pub struct Clock {
    pub slot: u64,
    pub epoch_start_timestamp: i64,
    pub epoch: u64,
    pub leader_schedule_epoch: u64,
    pub unix_timestamp: i64,
}

/// A user record: the authority it belongs to, and its bytes.
#[derive(Clone, Debug, PartialEq, Eq)]
pub struct User {
    pub authority: Pubkey,
    pub data: Vec<u8>,
}

/// What the engine is handed for a margin calculation, besides the user.
#[derive(Debug)]
pub struct MarginRequest<'a> {
    pub maps: AccountMaps<'a>,
    pub requirement: MarginRequirementType,
}

/// What the engine is handed for the trial placement of a perp order.
#[derive(Debug)]
pub struct PerpOrderRequest<'a> {
    /// A copy of the caller's user record, for the engine to change.
    pub user: User,
    /// The authority that places the order: the user's own.
    pub authority: Pubkey,
    pub maps: AccountMaps<'a>,
    pub clock: Clock,
    pub params: EngineOrderParams,
}

/// What ends the loading of the three lists, if anything: the spot markets
/// are loaded first, then the perp markets, then the oracles, and the
/// first list that fails decides.
pub open spec fn maps_fault(layouts: MarketLayouts, accounts: AccountsList) -> Option<
    StructuralError,
> {
    match crate::market_map::load_outcome(layouts.spot, accounts.spot_markets@) {
        Err(e) => Some(e),
        Ok(_) => match crate::market_map::load_outcome(layouts.perp, accounts.perp_markets@) {
            Err(e) => Some(e),
            Ok(_) => match crate::oracle_map::load_outcome(accounts.oracles@) {
                Err(e) => Some(e),
                Ok(_) => None,
            },
        },
    }
}

impl<'a> AccountMaps<'a> {
    /// Whether these are the maps of `accounts`: each list loaded whole,
    /// and the oracle map with the slot and the guard rails of the call.
    pub open spec fn are_maps_of(&self, layouts: MarketLayouts, accounts: AccountsList) -> bool {
        &&& crate::market_map::load_outcome(layouts.spot, accounts.spot_markets@) == Ok::<
            Map<u16, AccountRef>,
            StructuralError,
        >(self.spot_markets@)
        &&& crate::market_map::load_outcome(layouts.perp, accounts.perp_markets@) == Ok::<
            Map<u16, AccountRef>,
            StructuralError,
        >(self.perp_markets@)
        &&& crate::oracle_map::load_outcome(accounts.oracles@) == Ok::<
            Map<Seq<u8>, AccountRef>,
            StructuralError,
        >(self.oracles@)
        &&& self.oracles.spec_slot() == accounts.latest_slot
        &&& self.oracles.spec_guard_rails() == accounts.oracle_guard_rails
    }
}

impl<'a> AccountMaps<'a> {
    /// The account of the spot market with index `market_index`, or the
    /// failure that says it is missing.
    pub fn spot_market(&self, market_index: u16) -> (r: Result<&'a AccountRef, CallError>)
        ensures
            match r {
                Ok(account) => self.spot_markets@.contains_key(market_index) && *account
                    == self.spot_markets@[market_index],
                Err(e) => !self.spot_markets@.contains_key(market_index) && e
                    == CallError::Missing(LookupError::MarketNotFound),
            },
    {
        match self.spot_markets.get(market_index) {
            Ok(account) => Ok(account),
            Err(e) => Err(CallError::Missing(e)),
        }
    }

    /// The account of the perp market with index `market_index`, or the
    /// failure that says it is missing.
    pub fn perp_market(&self, market_index: u16) -> (r: Result<&'a AccountRef, CallError>)
        ensures
            match r {
                Ok(account) => self.perp_markets@.contains_key(market_index) && *account
                    == self.perp_markets@[market_index],
                Err(e) => !self.perp_markets@.contains_key(market_index) && e
                    == CallError::Missing(LookupError::MarketNotFound),
            },
    {
        match self.perp_markets.get(market_index) {
            Ok(account) => Ok(account),
            Err(e) => Err(CallError::Missing(e)),
        }
    }

    /// The account of the oracle with key `key`, or the failure that says
    /// it is missing.
    pub fn oracle(&self, key: &Pubkey) -> (r: Result<&'a AccountRef, CallError>)
        ensures
            match r {
                Ok(account) => self.oracles@.contains_key(key@) && *account == self.oracles@[key@],
                Err(e) => !self.oracles@.contains_key(key@) && e == CallError::Missing(
                    LookupError::OracleNotFound,
                ),
            },
    {
        match self.oracles.get(key) {
            Ok(account) => Ok(account),
            Err(e) => Err(CallError::Missing(e)),
        }
    }
}

/// Loads the three lists of `accounts` into their maps: the spot markets,
/// then the perp markets, then the oracles. The first list that fails to
/// load ends the call with its structural failure, and no map is handed
/// out.
pub fn load_maps<'a>(layouts: &MarketLayouts, accounts: &'a AccountsList) -> (r: Result<
    AccountMaps<'a>,
    CallError,
>)
    ensures
        match r {
            Ok(maps) => maps_fault(*layouts, *accounts) is None && maps.are_maps_of(
                *layouts,
                *accounts,
            ),
            Err(e) => maps_fault(*layouts, *accounts) matches Some(fault) && e
                == CallError::Malformed(fault),
        },
{
    let spot_markets = match MarketMap::load(&layouts.spot, &accounts.spot_markets) {
        Ok(map) => map,
        Err(e) => {
            return Err(CallError::Malformed(e));
        },
    };
    let perp_markets = match MarketMap::load(&layouts.perp, &accounts.perp_markets) {
        Ok(map) => map,
        Err(e) => {
            return Err(CallError::Malformed(e));
        },
    };
    let oracles = match OracleMap::load(
        &accounts.oracles,
        accounts.latest_slot,
        accounts.oracle_guard_rails,
    ) {
        Ok(map) => map,
        Err(e) => {
            return Err(CallError::Malformed(e));
        },
    };
    Ok(AccountMaps { spot_markets, perp_markets, oracles })
}

/// A count of seconds as a signed timestamp: itself where it fits, and
/// else wrapped round into the negative numbers.
pub open spec fn wrapped_seconds(unix_secs: u64) -> i64 {
    if unix_secs <= i64::MAX {
        unix_secs as i64
    } else {
        (unix_secs - 0x1_0000_0000_0000_0000) as i64
    }
}

/// The clock that a trial placement at slot `slot` runs under, `unix_secs`
/// seconds after the epoch of the wall clock.
pub open spec fn clock_at(slot: u64, unix_secs: u64) -> Clock {
    Clock {
        slot,
        epoch_start_timestamp: 0,
        epoch: 0,
        leader_schedule_epoch: 0,
        unix_timestamp: wrapped_seconds(unix_secs),
    }
}

/// Makes the clock for a trial placement: the slot of the call and the
/// wall clock's time. It knows nothing of epochs, which the placement of an
/// order does not ask for, and leaves those fields at zero.
pub fn local_clock(slot: u64, unix_secs: u64) -> (r: Clock)
    ensures
        r == clock_at(slot, unix_secs),
{
    let unix_timestamp: i64 = if unix_secs <= 0x7fff_ffff_ffff_ffff {
        unix_secs as i64
    } else {
        ((unix_secs - 0x8000_0000_0000_0000) as i64) + i64::MIN
    };
    Clock { slot, epoch_start_timestamp: 0, epoch: 0, leader_schedule_epoch: 0, unix_timestamp }
}

impl User {
    /// A copy of this record, byte for byte, that can be changed without
    /// touching this one.
    pub fn scratch_copy(&self) -> (r: User)
        ensures
            r.authority == self.authority,
            r.data@ == self.data@,
    {
        User { authority: self.authority, data: self.data.clone() }
    }
}

/// Puts together what the engine is handed for a margin calculation: the
/// maps of `accounts` and the requirement that `margin_context` stands for.
/// Where a list fails to load, the call ends with that structural failure
/// and the engine is not asked.
pub fn margin_request<'a>(
    layouts: &MarketLayouts,
    accounts: &'a AccountsList,
    margin_context: MarginContextMode,
) -> (r: Result<MarginRequest<'a>, CallError>)
    ensures
        match r {
            Ok(request) => {
                &&& maps_fault(*layouts, *accounts) is None
                &&& request.maps.are_maps_of(*layouts, *accounts)
                &&& request.requirement == margin_context.spec_requirement_type()
            },
            Err(e) => maps_fault(*layouts, *accounts) matches Some(fault) && e
                == CallError::Malformed(fault),
        },
{
    let maps = match load_maps(layouts, accounts) {
        Ok(maps) => maps,
        Err(e) => {
            return Err(e);
        },
    };
    Ok(MarginRequest { maps, requirement: margin_context.requirement_type() })
}

/// Puts together what the engine is handed for the trial placement of a
/// perp order: the maps of `accounts`, a clock for the slot of the call and
/// the time given, the parameters in the engine's form, and a copy of
/// `user` with the user's own authority. The engine works on the copy; the
/// caller's record is only read. Where a list fails to load, the call ends
/// with that structural failure and the engine is not asked.
pub fn perp_order_request<'a>(
    layouts: &MarketLayouts,
    user: &User,
    order_params: &OrderParams,
    accounts: &'a AccountsList,
    unix_secs: u64,
) -> (r: Result<PerpOrderRequest<'a>, CallError>)
    ensures
        match r {
            Ok(request) => {
                &&& maps_fault(*layouts, *accounts) is None
                &&& request.maps.are_maps_of(*layouts, *accounts)
                &&& request.user.authority == user.authority
                &&& request.user.data@ == user.data@
                &&& request.authority == user.authority
                &&& request.clock == clock_at(accounts.latest_slot, unix_secs)
                &&& request.params == order_params.engine_form()
            },
            Err(e) => maps_fault(*layouts, *accounts) matches Some(fault) && e
                == CallError::Malformed(fault),
        },
{
    let maps = match load_maps(layouts, accounts) {
        Ok(maps) => maps,
        Err(e) => {
            return Err(e);
        },
    };
    Ok(
        PerpOrderRequest {
            user: user.scratch_copy(),
            authority: user.authority,
            maps,
            clock: local_clock(accounts.latest_slot, unix_secs),
            params: order_params.to_engine(),
        },
    )
}

/// What the boundary returns for `result`: a success with its value, a
/// failure with its code.
pub open spec fn ffi_result_of<T>(result: Result<T, CallError>) -> FfiResult<T> {
    match result {
        Ok(value) => FfiResult::ROk(value),
        Err(e) => FfiResult::RErr(e.spec_code()),
    }
}

/// Brings the outcome of a call into the shape that the boundary returns.
/// A failure is neither swallowed nor read anew: it leaves with its code.
pub fn to_ffi_result<T>(result: Result<T, CallError>) -> (r: FfiResult<T>)
    ensures
        r == ffi_result_of(result),
{
    match result {
        Ok(value) => FfiResult::ROk(value),
        Err(e) => FfiResult::RErr(e.code()),
    }
}

/// What the price lookup returns for the engine's outcome: the price data
/// as it is.
pub fn oracle_get_oracle_price(outcome: Result<OraclePriceData, CallError>) -> (r: FfiResult<
    OraclePriceData,
>)
    ensures
        r == ffi_result_of(outcome),
{
    to_ffi_result(outcome)
}

/// What the auction price calculation returns for the engine's outcome.
pub fn math_calculate_auction_price(outcome: Result<u64, CallError>) -> (r: FfiResult<u64>)
    ensures
        r == ffi_result_of(outcome),
{
    to_ffi_result(outcome)
}

/// What the margin calculation returns for the engine's outcome: the
/// result with every amount in two halves.
pub fn math_calculate_margin_requirement_and_total_collateral_and_liability_info(
    outcome: Result<EngineMarginCalculation, CallError>,
) -> (r: FfiResult<MarginCalculation>)
    ensures
        r == match outcome {
            Ok(native) => FfiResult::ROk(MarginCalculation::of(native)),
            Err(e) => FfiResult::RErr(e.spec_code()),
        },
{
    match outcome {
        Ok(native) => FfiResult::ROk(MarginCalculation::from_engine(&native)),
        Err(e) => FfiResult::RErr(e.code()),
    }
}

/// What the trial placement of a perp order returns for the engine's
/// outcome: `true` where the engine took the order, the failure's code
/// where it did not. Nothing else of the trial is read back.
pub fn orders_place_perp_order(outcome: Result<(), CallError>) -> (r: FfiResult<bool>)
    ensures
        r == match outcome {
            Ok(_) => FfiResult::ROk(true),
            Err(e) => FfiResult::RErr(e.spec_code()),
        },
{
    match outcome {
        Ok(_) => FfiResult::ROk(true),
        Err(e) => FfiResult::RErr(e.code()),
    }
}

/// What the test for a resting limit order returns for the engine's
/// outcome.
pub fn order_is_resting_limit_order(outcome: Result<bool, CallError>) -> (r: FfiResult<bool>)
    ensures
        r == ffi_result_of(outcome),
{
    to_ffi_result(outcome)
}

/// What the margin ratio of a perp market returns for the engine's
/// outcome.
pub fn perp_market_get_margin_ratio(outcome: Result<u32, CallError>) -> (r: FfiResult<u32>)
    ensures
        r == ffi_result_of(outcome),
{
    to_ffi_result(outcome)
}

/// The open interest of a perp market in two halves.
pub fn perp_market_get_open_interest(open_interest: u128) -> (r: U128)
    ensures
        r == U128::split(open_interest),
{
    U128::from_native(open_interest)
}

/// An outcome with a signed 128-bit payload, at the boundary.
pub open spec fn signed_result_of(outcome: Result<i128, CallError>) -> FfiResult<I128> {
    match outcome {
        Ok(value) => FfiResult::ROk(I128::split(value)),
        Err(e) => FfiResult::RErr(e.spec_code()),
    }
}

/// An outcome with an unsigned 128-bit payload, at the boundary.
pub open spec fn unsigned_result_of(outcome: Result<u128, CallError>) -> FfiResult<U128> {
    match outcome {
        Ok(value) => FfiResult::ROk(U128::split(value)),
        Err(e) => FfiResult::RErr(e.spec_code()),
    }
}

/// Brings an outcome with a signed 128-bit payload into boundary form.
fn to_ffi_signed(outcome: Result<i128, CallError>) -> (r: FfiResult<I128>)
    ensures
        r == signed_result_of(outcome),
{
    match outcome {
        Ok(value) => FfiResult::ROk(I128::from_native(value)),
        Err(e) => FfiResult::RErr(e.code()),
    }
}

/// What the unrealized profit of a perp position returns for the engine's
/// outcome: the amount in two halves.
pub fn perp_position_get_unrealized_pnl(outcome: Result<i128, CallError>) -> (r: FfiResult<I128>)
    ensures
        r == signed_result_of(outcome),
{
    to_ffi_signed(outcome)
}

/// What the worst-case base amount of a perp position returns for the
/// engine's outcome: the amount in two halves.
pub fn perp_position_worst_case_base_asset_amount(outcome: Result<i128, CallError>) -> (r:
    FfiResult<I128>)
    ensures
        r == signed_result_of(outcome),
{
    to_ffi_signed(outcome)
}

/// What the trial settlement of a perp position returns for the engine's
/// outcome: the settled position as it is.
pub fn perp_position_simulate_settled_lp_position<P>(outcome: Result<P, CallError>) -> (r:
    FfiResult<P>)
    ensures
        r == ffi_result_of(outcome),
{
    to_ffi_result(outcome)
}

/// What the asset weight of a spot market returns for the engine's
/// outcome.
pub fn spot_market_get_asset_weight(outcome: Result<u32, CallError>) -> (r: FfiResult<u32>)
    ensures
        r == ffi_result_of(outcome),
{
    to_ffi_result(outcome)
}

/// What the liability weight of a spot market returns for the engine's
/// outcome.
pub fn spot_market_get_liability_weight(outcome: Result<u32, CallError>) -> (r: FfiResult<u32>)
    ensures
        r == ffi_result_of(outcome),
{
    to_ffi_result(outcome)
}

/// What the margin ratio of a spot market returns for the engine's
/// outcome.
pub fn spot_market_get_margin_ratio(outcome: Result<u32, CallError>) -> (r: FfiResult<u32>)
    ensures
        r == ffi_result_of(outcome),
{
    to_ffi_result(outcome)
}

/// What the signed token amount of a spot position returns for the
/// engine's outcome: the amount in two halves.
pub fn spot_position_get_signed_token_amount(outcome: Result<i128, CallError>) -> (r: FfiResult<
    I128,
>)
    ensures
        r == signed_result_of(outcome),
{
    to_ffi_signed(outcome)
}

/// What the token amount of a spot position returns for the engine's
/// outcome: the amount in two halves.
pub fn spot_position_get_token_amount(outcome: Result<u128, CallError>) -> (r: FfiResult<U128>)
    ensures
        r == unsigned_result_of(outcome),
{
    match outcome {
        Ok(value) => FfiResult::ROk(U128::from_native(value)),
        Err(e) => FfiResult::RErr(e.code()),
    }
}

/// What the lookup of a user's spot position returns for the engine's
/// outcome: the position found, borrowed from the user.
pub fn user_get_spot_position<'a, P>(outcome: Result<&'a P, CallError>) -> (r: FfiResult<&'a P>)
    ensures
        r == ffi_result_of(outcome),
{
    to_ffi_result(outcome)
}

/// What the lookup of a user's perp position returns for the engine's
/// outcome: the position found, borrowed from the user.
pub fn user_get_perp_position<'a, P>(outcome: Result<&'a P, CallError>) -> (r: FfiResult<&'a P>)
    ensures
        r == ffi_result_of(outcome),
{
    to_ffi_result(outcome)
}

} // verus!
