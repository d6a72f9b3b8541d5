//! Verified core of a decentralised-exchange contract suite: proportional
//! (rule-of-three) arithmetic, weighted averages, farm-position token merging,
//! reward-per-share accrual, a time-weighted safe-price oracle over a circular
//! observation buffer, price discovery, and locked-token energy accounting.

pub mod errors;
pub mod farm;
pub mod farm_staking;
pub mod farm_staking_proxy;
pub mod farm_token;
pub mod farm_token_merge;
pub mod fees_collector;
pub mod math;
pub mod payment;
pub mod price_discovery;
pub mod progress_update;
pub mod proxy_common;
pub mod proxy_farm;
pub mod router;
pub mod safe_price;
pub mod simple_lock_energy;
