//! A linear bonding curve over a single supply counter.
//!
//! The curve record ([`state::BondingCurve`]) holds the cumulative token
//! supply and a base price fixed at creation.  Unit prices rise linearly
//! with supply: `base_price + (supply_term * PRICE_SLOPE) / PRICE_SCALE`.
//! The operations ([`instructions`]) initialize a record and move supply
//! up and down under checked arithmetic; [`store`] keeps records keyed by
//! an identity and serializes every read-compute-write cycle through one
//! record at a time; [`codec`] fixes the 16-byte persisted layout.

pub mod codec;
pub mod error;
pub mod instructions;
pub mod state;
pub mod store;
