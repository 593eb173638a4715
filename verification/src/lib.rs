//! A liquid-bonding vault: deposits of a base asset mint receipt tokens at a
//! dynamically computed exchange rate; unbonding requests are batched per
//! epoch and settled after a waiting period at a rate retroactively adjusted
//! for slashing; idle funds can be lent out within a single transaction under
//! a profit check. All amounts are plain integers and all rates are exact
//! rationals; every operation is a pure transition on an explicit state
//! aggregate that returns an ordered list of pending effects.

pub mod admin;
pub mod bond;
pub mod commands;
pub mod community_fund;
pub mod dapp_base;
pub mod dapp_template;
pub mod effect;
pub mod error;
pub mod flashloan;
pub mod query;
pub mod rate;
pub mod stable_arb;
pub mod state;
pub mod unbond;
pub mod waitlist;
pub mod war_chest;
pub mod withdraw;
