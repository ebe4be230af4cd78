//! Charge thresholds on ASUS laptops (`asus_wmi`).

use vstd::prelude::*;
use crate::config::store::Config;
use crate::text::texts;
use super::{plain_setup, plain_setup_spec, reads_spec, threshold_reads, writes_view, ThresholdRead, ThresholdWrite};

verus! {

/// The ASUS WMI threshold manager.
pub struct AsusManager;

impl AsusManager {
    /// The threshold writes: start then stop on every battery, when
    /// management is enabled and the power-supply directory exists.
    pub fn setup(&self, config: &Config, power_supply_exists: bool, batteries: &Vec<String>) -> (r: Vec<ThresholdWrite>)
        ensures
            writes_view(r@) == plain_setup_spec(*config, power_supply_exists, texts(batteries@)),
    {
        plain_setup(config, power_supply_exists, batteries)
    }

    /// The threshold files to report: start then stop for every battery, from the primary file and else the legacy `charge_control_*` one.
    pub fn print_thresholds(&self, batteries: &Vec<String>) -> (r: Vec<ThresholdRead>)
        ensures
            reads_spec(r@, texts(batteries@), true),
    {
        threshold_reads(batteries, true)
    }
}

} // verus!
