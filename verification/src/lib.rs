//! Whitelisting of a server's egress IP across several proxy vendors.
//!
//! The orchestrator in [`proxier`] drives one uniform lifecycle —
//! setup, whitelist, delist — over a set of enabled vendor
//! configurations, while each vendor module decides what that vendor's
//! HTTP replies mean. All network traffic happens outside this crate;
//! it comes in and goes out as plain values, so every decision the
//! system makes is verified here.

pub mod adapter;
pub mod datainpulse;
pub mod evomi;
pub mod iproyale;
pub mod proxier;
pub mod webshare;
