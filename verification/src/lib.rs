//! Verified core of the Ora workspace: contract payloads, domain models,
//! error normalisation, and the pure decisions of its runtime adapters.

pub mod domain;
pub mod contracts;
pub mod logging;
mod os_clock;
pub mod application;
pub mod backend;
pub mod web;
pub mod desktop;
pub mod xtask;
