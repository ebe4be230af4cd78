//! Charge thresholds on Ideapad laptops (`ideapad_laptop`), whose
//! conservation mode, while on, replaces the discrete thresholds.

use vstd::prelude::*;
use crate::config::store::Config;
use crate::text::{same_text, texts, trim, trim_spec};
use super::{
    conservation_request_spec, ideapad_laptop_setup_spec, threshold_reads, threshold_writes,
    thresholds_enabled, writes_view, reads_spec, ThresholdMode, ThresholdRead, ThresholdWrite,
};

verus! {

/// The Ideapad laptop threshold manager.
pub struct IdeapadLaptopManager;

/// Whether the conservation toggle's text says the mode is on ("1"); any
/// other text, or none, counts as off.
pub open spec fn conservation_state_spec(text: Option<Seq<char>>) -> bool {
    match text {
        Some(t) => trim_spec(t) == "1"@,
        None => false,
    }
}

/// Reads the conservation toggle's text.
pub fn check_conservation_mode(text: Option<&str>) -> (r: bool)
    ensures
        r == conservation_state_spec(
            match text {
                Some(t) => Some(t@),
                None => None,
            },
        ),
{
    match text {
        Some(t) => same_text(trim(t), "1"),
        None => false,
    }
}

impl IdeapadLaptopManager {
    /// The value to write to the conservation toggle before thresholds are
    /// considered: 1 when the configuration turns the mode on (the setup
    /// then ends there), 0 when it turns it off. Nothing is written unless
    /// threshold management is enabled.
    pub fn conservation_request(&self, config: &Config) -> (r: Option<u8>)
        ensures
            !thresholds_enabled(*config) ==> r is None,
            thresholds_enabled(*config) ==> r == conservation_request_spec(*config),
    {
        let enabled = match config.get_bool("battery", "enable_thresholds") {
            Ok(b) => b,
            Err(_) => false,
        };
        if !enabled {
            return None;
        }
        match config.get_string("battery", "ideapad_laptop_conservation_mode") {
            Some(v) => {
                if same_text(v.as_str(), "true") {
                    Some(1)
                } else if same_text(v.as_str(), "false") {
                    Some(0)
                } else {
                    None
                }
            },
            None => None,
        }
    }

    /// The threshold writes; `conservation_on` is the toggle as read after
    /// the requested conservation change.
    pub fn setup(&self, config: &Config, batteries: &Vec<String>, conservation_on: bool) -> (r: Vec<ThresholdWrite>)
        ensures
            writes_view(r@) == ideapad_laptop_setup_spec(*config, texts(batteries@), conservation_on),
    {
        let request = self.conservation_request(config);
        let wants_on = match request {
            Some(v) => v == 1,
            None => false,
        };
        let enabled = match config.get_bool("battery", "enable_thresholds") {
            Ok(b) => b,
            Err(_) => false,
        };
        if !enabled || wants_on || conservation_on {
            let r: Vec<ThresholdWrite> = Vec::new();
            assert(writes_view(r@) =~= Seq::<(Seq<char>, ThresholdMode, u8)>::empty());
            return r;
        }
        threshold_writes(config, batteries)
    }

    /// The threshold files to report; none while conservation mode is on.
    pub fn print_thresholds(&self, conservation_on: bool, batteries: &Vec<String>) -> (r: Vec<ThresholdRead>)
        ensures
            conservation_on ==> r@.len() == 0,
            !conservation_on ==> reads_spec(r@, texts(batteries@), false),
    {
        if conservation_on {
            return Vec::new();
        }
        threshold_reads(batteries, false)
    }
}

} // verus!
