//! Verified core of a two-asset rotation ("hop") trading strategy.
//!
//! The library models prices and asset amounts as fixed-point integers with
//! eight decimal places (see [`units::SCALE`]) and verifies the full decision
//! pipeline of the strategy: aggregating order-book snapshots into mid-prices,
//! classifying the account's position, evaluating the gain since the last
//! completed order, deciding whether to rotate ("hop") and building the limit
//! order, and tracking the lifecycle of the submitted order.  Everything that
//! talks to the outside world (exchange connectivity, chat notifications,
//! durable files) stays outside the library and hands it plain values.

pub mod balance;
pub mod gain;
pub mod orders;
pub mod persist;
pub mod position;
pub mod prices;
pub mod render;
pub mod report;
pub mod strategy;
pub mod tick;
pub mod units;
pub mod util;
