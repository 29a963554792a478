//! Orders and order parameters as the boundary sees them.

use vstd::prelude::*;

verus! {

/// The kind of an order.
#[derive(Clone, Copy, Debug, PartialEq, Eq, Structural)]
pub enum OrderType {
    Market,
    Limit,
    TriggerMarket,
    TriggerLimit,
    Oracle,
}

/// The kind of market an order is for.
#[derive(Clone, Copy, Debug, PartialEq, Eq, Structural)]
pub enum MarketType {
    Spot,
    Perp,
}

/// The side of an order.
#[derive(Clone, Copy, Debug, PartialEq, Eq, Structural)]
pub enum PositionDirection {
    Long,
    Short,
}

/// What is to happen to an order that would take liquidity.
#[derive(Clone, Copy, Debug, PartialEq, Eq, Structural)]
pub enum PostOnlyParam {
    /// The order may take.
    Off,
    /// The placement fails.
    MustPostOnly,
    /// The order is not placed.
    TryPostOnly,
    /// The price is moved until the order no longer takes.
    Slide,
}

/// When a trigger order fires.
#[derive(Clone, Copy, Debug, PartialEq, Eq, Structural)]
pub enum OrderTriggerCondition {
    Above,
    Below,
    TriggeredAbove,
    TriggeredBelow,
}

/// An order, as far as this library reads it.
#[derive(Clone, Copy, Debug, PartialEq, Eq, Structural)]
pub struct Order {
    /// The kind of the order.
    pub order_type: OrderType,
}

impl OrderType {
    /// Whether orders of this kind rest at a limit price: the limit order
    /// and the trigger order that becomes one.
    pub open spec fn is_limit(self) -> bool {
        self is Limit || self is TriggerLimit
    }
}

/// Whether `order` is a limit order.
pub fn order_is_limit_order(order: &Order) -> (r: bool)
    ensures
        r == order.order_type.is_limit(),
{
    match order.order_type {
        OrderType::Limit | OrderType::TriggerLimit => true,
        OrderType::Market | OrderType::TriggerMarket | OrderType::Oracle => false,
    }
}

/// The parameters of an order as a caller states them.
#[derive(Clone, Copy, Debug, PartialEq, Eq)]
pub struct OrderParams {
    pub order_type: OrderType,
    pub market_type: MarketType,
    pub direction: PositionDirection,
    pub user_order_id: u8,
    pub base_asset_amount: u64,
    pub price: u64,
    pub market_index: u16,
    pub reduce_only: bool,
    pub post_only: PostOnlyParam,
    pub immediate_or_cancel: bool,
    pub max_ts: Option<i64>,
    pub trigger_price: Option<u64>,
    pub trigger_condition: OrderTriggerCondition,
    pub oracle_price_offset: Option<i32>,
    pub auction_duration: Option<u8>,
    pub auction_start_price: Option<i64>,
    pub auction_end_price: Option<i64>,
}

/// The parameters of an order as the engine takes them.
#[derive(Clone, Copy, Debug, PartialEq, Eq)]
pub struct EngineOrderParams {
    pub order_type: OrderType,
    pub market_type: MarketType,
    pub direction: PositionDirection,
    pub user_order_id: u8,
    pub base_asset_amount: u64,
    pub price: u64,
    pub market_index: u16,
    pub reduce_only: bool,
    pub post_only: PostOnlyParam,
    pub immediate_or_cancel: bool,
    pub max_ts: Option<i64>,
    pub trigger_price: Option<u64>,
    pub trigger_condition: OrderTriggerCondition,
    pub oracle_price_offset: Option<i32>,
    pub auction_duration: Option<u8>,
    pub auction_start_price: Option<i64>,
    pub auction_end_price: Option<i64>,
}

impl OrderParams {
    /// These parameters as the engine takes them: field for field.
    pub open spec fn engine_form(&self) -> EngineOrderParams {
        EngineOrderParams {
            order_type: self.order_type,
            market_type: self.market_type,
            direction: self.direction,
            user_order_id: self.user_order_id,
            base_asset_amount: self.base_asset_amount,
            price: self.price,
            market_index: self.market_index,
            reduce_only: self.reduce_only,
            post_only: self.post_only,
            immediate_or_cancel: self.immediate_or_cancel,
            max_ts: self.max_ts,
            trigger_price: self.trigger_price,
            trigger_condition: self.trigger_condition,
            oracle_price_offset: self.oracle_price_offset,
            auction_duration: self.auction_duration,
            auction_start_price: self.auction_start_price,
            auction_end_price: self.auction_end_price,
        }
    }

    /// Hands the parameters to the engine's form, changing none.
    pub fn to_engine(&self) -> (r: EngineOrderParams)
        ensures
            r == self.engine_form(),
    {
        EngineOrderParams {
            order_type: self.order_type,
            market_type: self.market_type,
            direction: self.direction,
            user_order_id: self.user_order_id,
            base_asset_amount: self.base_asset_amount,
            price: self.price,
            market_index: self.market_index,
            reduce_only: self.reduce_only,
            post_only: self.post_only,
            immediate_or_cancel: self.immediate_or_cancel,
            max_ts: self.max_ts,
            trigger_price: self.trigger_price,
            trigger_condition: self.trigger_condition,
            oracle_price_offset: self.oracle_price_offset,
            auction_duration: self.auction_duration,
            auction_start_price: self.auction_start_price,
            auction_end_price: self.auction_end_price,
        }
    }
}

} // verus!
