//! Portfolio rebalancing over fixed-point money: valuation of a snapshot of
//! holdings, detection of instruments that drifted from their target share,
//! and sizing of the whole-lot trades that bring them back.

pub mod arith;
pub mod money;
pub mod allocation;
pub mod snapshot;
pub mod drift;
pub mod planner;
pub mod pipeline;
