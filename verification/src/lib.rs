//! Verified core of the galaxy backend: configuration, error mapping,
//! GitHub request planning, contributor bookkeeping and the deterministic
//! galaxy layout plan.

pub mod text;
pub mod db;
pub mod ranking;
pub mod galaxy;
pub mod error;
pub mod config;
pub mod github;
pub mod services;
pub mod worker;
pub mod api;
