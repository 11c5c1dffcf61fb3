//! Typed on-chain events of the three marketplace contract dialects, and
//! their conversion into store rows.

pub mod activity;
pub mod aptos_labs;
pub mod tradeport_v1;
pub mod tradeport_v2;
