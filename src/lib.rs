//! Adaptive CPU power management: cached telemetry, a hot-reloading
//! configuration store, the governor/turbo policy, vendor battery-threshold
//! planning and daemon installation planning, each with a verified contract.

pub mod text;
pub mod tlp_stat_parser;
pub mod config;
pub mod overrides;
pub mod policy;
pub mod globals;
pub mod caches;
pub mod system_info;
pub mod battery;
pub mod supervisor;
pub mod daemon;
pub mod system_monitor;
pub mod power_helper;
