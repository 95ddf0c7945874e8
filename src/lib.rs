//! Finds the addresses a host currently has (on a network interface, or as an echo service
//! sees it), compares them with those its domain name publishes, and decides whether a
//! dynamic-DNS update is needed and which addresses it should carry.

pub mod addr;
pub mod addrset;
pub mod config;
pub mod dyndns;
pub mod ipsource;
pub mod reconcile;
mod text;
