//! Verified core of a fixed-layout call boundary in front of a margin and
//! order engine: layout-stable values, validated account views, indexed
//! market and oracle maps, and the shape in which outcomes are returned.

pub mod account;
pub mod boundary;
pub mod compat;
pub mod error;
pub mod exports;
pub mod margin;
pub mod market_map;
pub mod oracle_map;
pub mod order;
