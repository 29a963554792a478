//! The margin calculation: which requirement it is made for, and the shape
//! of its result at the boundary.

use vstd::prelude::*;
use crate::compat::{I128, U128};

verus! {

/// The requirement that a margin calculation is made for.
#[derive(Clone, Copy, Debug, PartialEq, Eq, Structural)]
pub enum MarginRequirementType {
    Initial,
    Fill,
    Maintenance,
}

/// How a caller chooses the requirement.
#[derive(Clone, Copy, Debug, PartialEq, Eq, Structural)]
pub enum MarginContextMode {
    /// The maintenance requirement.
    StandardMaintenance,
    /// The initial requirement.
    StandardInitial,
    /// The requirement named.
    StandardCustom(MarginRequirementType),
}

impl MarginContextMode {
    /// The requirement that this mode stands for.
    pub open spec fn spec_requirement_type(self) -> MarginRequirementType {
        match self {
            MarginContextMode::StandardMaintenance => MarginRequirementType::Maintenance,
            MarginContextMode::StandardInitial => MarginRequirementType::Initial,
            MarginContextMode::StandardCustom(requirement) => requirement,
        }
    }

    /// The requirement that this mode stands for.
    #[verifier::when_used_as_spec(spec_requirement_type)]
    pub fn requirement_type(self) -> (r: MarginRequirementType)
        ensures
            r == self.spec_requirement_type(),
    {
        match self {
            MarginContextMode::StandardMaintenance => MarginRequirementType::Maintenance,
            MarginContextMode::StandardInitial => MarginRequirementType::Initial,
            MarginContextMode::StandardCustom(requirement) => requirement,
        }
    }
}

/// The result of a margin calculation as the engine gives it.
#[derive(Clone, Copy, Debug, PartialEq, Eq)]
pub struct EngineMarginCalculation {
    pub total_collateral: i128,
    pub margin_requirement: u128,
    pub with_perp_isolated_liability: bool,
    pub with_spot_isolated_liability: bool,
    pub total_spot_asset_value: i128,
    pub total_spot_liability_value: u128,
    pub total_perp_liability_value: u128,
    pub total_perp_pnl: i128,
    pub open_orders_margin_requirement: u128,
}

/// The result of a margin calculation at the boundary: every 128-bit
/// amount in two halves.
#[derive(Clone, Copy, Debug, PartialEq, Eq, Structural)]
pub struct MarginCalculation {
    pub total_collateral: I128,
    pub margin_requirement: U128,
    pub with_perp_isolated_liability: bool,
    pub with_spot_isolated_liability: bool,
    pub total_spot_asset_value: I128,
    pub total_spot_liability_value: U128,
    pub total_perp_liability_value: U128,
    pub total_perp_pnl: I128,
    pub open_orders_margin_requirement: U128,
}

impl MarginCalculation {
    /// The boundary form of `native`: each amount split into its halves,
    /// each flag as it is.
    pub open spec fn of(native: EngineMarginCalculation) -> MarginCalculation {
        MarginCalculation {
            total_collateral: I128::split(native.total_collateral),
            margin_requirement: U128::split(native.margin_requirement),
            with_perp_isolated_liability: native.with_perp_isolated_liability,
            with_spot_isolated_liability: native.with_spot_isolated_liability,
            total_spot_asset_value: I128::split(native.total_spot_asset_value),
            total_spot_liability_value: U128::split(native.total_spot_liability_value),
            total_perp_liability_value: U128::split(native.total_perp_liability_value),
            total_perp_pnl: I128::split(native.total_perp_pnl),
            open_orders_margin_requirement: U128::split(native.open_orders_margin_requirement),
        }
    }

    /// Brings a result of the engine into its boundary form.
    pub fn from_engine(native: &EngineMarginCalculation) -> (r: MarginCalculation)
        ensures
            r == MarginCalculation::of(*native),
    {
        MarginCalculation {
            total_collateral: I128::from_native(native.total_collateral),
            margin_requirement: U128::from_native(native.margin_requirement),
            with_perp_isolated_liability: native.with_perp_isolated_liability,
            with_spot_isolated_liability: native.with_spot_isolated_liability,
            total_spot_asset_value: I128::from_native(native.total_spot_asset_value),
            total_spot_liability_value: U128::from_native(native.total_spot_liability_value),
            total_perp_liability_value: U128::from_native(native.total_perp_liability_value),
            total_perp_pnl: I128::from_native(native.total_perp_pnl),
            open_orders_margin_requirement: U128::from_native(
                native.open_orders_margin_requirement,
            ),
        }
    }
}

/// The boundary form of a margin result stands for the same numbers and
/// the same flags as the engine's result.
pub proof fn lemma_margin_values_kept(native: EngineMarginCalculation)
    ensures
        MarginCalculation::of(native).total_collateral@ == native.total_collateral,
        MarginCalculation::of(native).margin_requirement@ == native.margin_requirement,
        MarginCalculation::of(native).with_perp_isolated_liability
            == native.with_perp_isolated_liability,
        MarginCalculation::of(native).with_spot_isolated_liability
            == native.with_spot_isolated_liability,
        MarginCalculation::of(native).total_spot_asset_value@ == native.total_spot_asset_value,
        MarginCalculation::of(native).total_spot_liability_value@
            == native.total_spot_liability_value,
        MarginCalculation::of(native).total_perp_liability_value@
            == native.total_perp_liability_value,
        MarginCalculation::of(native).total_perp_pnl@ == native.total_perp_pnl,
        MarginCalculation::of(native).open_orders_margin_requirement@
            == native.open_orders_margin_requirement,
{
    crate::compat::lemma_u128_round_trip(native.margin_requirement);
    crate::compat::lemma_u128_round_trip(native.total_spot_liability_value);
    crate::compat::lemma_u128_round_trip(native.total_perp_liability_value);
    crate::compat::lemma_u128_round_trip(native.open_orders_margin_requirement);
    crate::compat::lemma_i128_round_trip(native.total_collateral);
    crate::compat::lemma_i128_round_trip(native.total_spot_asset_value);
    crate::compat::lemma_i128_round_trip(native.total_perp_pnl);
}

} // verus!
