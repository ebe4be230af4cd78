use auto_cpufreq::config::store::Config;
use auto_cpufreq::overrides::{
    get_override, get_turbo_override, set_override, set_turbo_override, GovernorOverride,
    OverrideChange, TurboOverride,
};
use auto_cpufreq::policy::{
    average_core_temp, get_appropriate_governor, mean, set_autofreq, set_turbo_based_on_usage,
    AutoCpuFreqState,
};

fn govs(names: &[&str]) -> Vec<String> {
    names.iter().map(|s| s.to_string()).collect()
}

fn config_with(text: &str) -> Config {
    let mut c = Config::new();
    assert!(c.update_config(Some(text.to_string())));
    c
}

#[test]
fn test_governor_override() {
    assert_eq!(GovernorOverride::from_str("powersave"), GovernorOverride::Powersave);
    assert_eq!(GovernorOverride::from_str("performance"), GovernorOverride::Performance);
    assert_eq!(GovernorOverride::from_str("invalid"), GovernorOverride::Default);
}

#[test]
fn test_turbo_override() {
    assert_eq!(TurboOverride::from_str("never"), TurboOverride::Never);
    assert_eq!(TurboOverride::from_str("always"), TurboOverride::Always);
    assert_eq!(TurboOverride::from_str("auto"), TurboOverride::Auto);
}

#[test]
fn override_tokens() {
    assert_eq!(GovernorOverride::Powersave.to_str(), "powersave");
    assert_eq!(GovernorOverride::Default.to_str(), "default");
    assert_eq!(TurboOverride::Always.to_str(), "always");
    assert_eq!(TurboOverride::Auto.to_str(), "auto");
}

#[test]
fn governor_override_round_trip() {
    match set_override("powersave") {
        OverrideChange::Write(t) => assert_eq!(get_override(Some(&t)), GovernorOverride::Powersave),
        other => panic!("unexpected {:?}", other),
    }
    assert!(matches!(set_override("reset"), OverrideChange::Remove));
    assert_eq!(get_override(None), GovernorOverride::Default);
    assert!(matches!(set_override("fast"), OverrideChange::Invalid));
    assert_eq!(get_override(Some("performance\n")), GovernorOverride::Performance);
}

#[test]
fn turbo_override_round_trip() {
    match set_turbo_override("never") {
        OverrideChange::Write(t) => assert_eq!(get_turbo_override(Some(&t)), TurboOverride::Never),
        other => panic!("unexpected {:?}", other),
    }
    assert!(matches!(set_turbo_override("auto"), OverrideChange::Remove));
    assert_eq!(get_turbo_override(None), TurboOverride::Auto);
    assert_eq!(get_turbo_override(Some(" always ")), TurboOverride::Always);
}

#[test]
fn charging_busy_picks_performance() {
    let state = AutoCpuFreqState::new(4, false);
    assert_eq!(state.performance_load_threshold, 200);
    assert_eq!(state.powersave_load_threshold, 300);
    let available = govs(&["performance", "schedutil", "powersave"]);
    let g = get_appropriate_governor(true, 6000, 300, &state, GovernorOverride::Default, &Config::new(), &available);
    assert_eq!(g, "performance");
}

#[test]
fn battery_idle_picks_powersave() {
    let state = AutoCpuFreqState::new(4, false);
    let available = govs(&["performance", "schedutil", "powersave"]);
    let g = get_appropriate_governor(false, 1000, 20, &state, GovernorOverride::Default, &Config::new(), &available);
    assert_eq!(g, "powersave");
}

#[test]
fn performance_override_wins() {
    let state = AutoCpuFreqState::new(4, false);
    let available = govs(&["powersave"]);
    let c = config_with("[battery]\ngovernor = powersave\n");
    for (charging, usage, load) in [(false, 0, 0), (true, 9000, 900), (false, 1000, 20)] {
        let g = get_appropriate_governor(charging, usage, load, &state, GovernorOverride::Performance, &c, &available);
        assert_eq!(g, "performance");
    }
    let g = get_appropriate_governor(true, 9000, 900, &state, GovernorOverride::Powersave, &c, &available);
    assert_eq!(g, "powersave");
}

#[test]
fn configured_governor_used_when_supported() {
    let state = AutoCpuFreqState::new(4, false);
    let available = govs(&["performance", "schedutil", "powersave"]);
    let c = config_with("[charger]\ngovernor = schedutil\n[battery]\ngovernor = ondemand\n");
    assert_eq!(get_appropriate_governor(true, 9000, 900, &state, GovernorOverride::Default, &c, &available), "schedutil");
    // ondemand is not supported: the load rules decide.
    assert_eq!(get_appropriate_governor(false, 1000, 20, &state, GovernorOverride::Default, &c, &available), "powersave");
}

#[test]
fn governor_fallbacks() {
    let state = AutoCpuFreqState::new(4, false);
    assert_eq!(get_appropriate_governor(true, 1000, 10, &state, GovernorOverride::Default, &Config::new(), &govs(&["performance", "ondemand"])), "ondemand");
    assert_eq!(get_appropriate_governor(false, 9000, 10, &state, GovernorOverride::Default, &Config::new(), &govs(&["performance", "schedutil"])), "schedutil");
    assert_eq!(get_appropriate_governor(false, 9000, 10, &state, GovernorOverride::Default, &Config::new(), &govs(&["userspace", "performance"])), "userspace");
    assert_eq!(get_appropriate_governor(false, 9000, 10, &state, GovernorOverride::Default, &Config::new(), &Vec::new()), "schedutil");
}

#[test]
fn load_threshold_alone_triggers_performance() {
    let state = AutoCpuFreqState::new(4, false);
    let available = govs(&["performance", "schedutil"]);
    assert_eq!(get_appropriate_governor(true, 100, 201, &state, GovernorOverride::Default, &Config::new(), &available), "performance");
    assert_eq!(get_appropriate_governor(true, 100, 200, &state, GovernorOverride::Default, &Config::new(), &available), "schedutil");
}

#[test]
fn turbo_decisions() {
    let none = Config::new();
    assert_eq!(set_turbo_based_on_usage(0, false, TurboOverride::Always, &none, &vec![]), Some(true));
    assert_eq!(set_turbo_based_on_usage(9000, true, TurboOverride::Never, &none, &vec![]), Some(false));
    let c = config_with("[charger]\nturbo = never\n[battery]\nturbo = always\n");
    assert_eq!(set_turbo_based_on_usage(9000, true, TurboOverride::Auto, &c, &vec![]), Some(false));
    assert_eq!(set_turbo_based_on_usage(0, false, TurboOverride::Auto, &c, &vec![]), Some(true));
    // charging: usage above 25% and cool cores enable turbo
    assert_eq!(set_turbo_based_on_usage(3000, true, TurboOverride::Auto, &none, &vec![60000, 0, 70000]), Some(true));
    // charging: hot cores disable turbo
    assert_eq!(set_turbo_based_on_usage(3000, true, TurboOverride::Auto, &none, &vec![80000, 75000]), Some(false));
    // charging: low usage and cool cores leave turbo alone
    assert_eq!(set_turbo_based_on_usage(1000, true, TurboOverride::Auto, &none, &vec![40000]), None);
    // battery: only above 75%
    assert_eq!(set_turbo_based_on_usage(7600, false, TurboOverride::Auto, &none, &vec![]), Some(true));
    assert_eq!(set_turbo_based_on_usage(7500, false, TurboOverride::Auto, &none, &vec![]), Some(false));
}

#[test]
fn averages() {
    assert_eq!(average_core_temp(&vec![0, 0]), 0);
    assert_eq!(average_core_temp(&vec![40000, 0, 50000]), 45000);
    assert_eq!(mean(&vec![]), 0);
    assert_eq!(mean(&vec![1000, 2000, 3001]), 2000);
}

#[test]
fn autofreq_tick_skips_redundant_governor_write() {
    let state = AutoCpuFreqState::new(4, false);
    let available = govs(&["performance", "schedutil", "powersave"]);
    let none = Config::new();
    let a = set_autofreq(true, 6000, 300, &state, GovernorOverride::Default, TurboOverride::Auto, &none, &available, "performance", &vec![50000]);
    assert_eq!(a.set_governor, None);
    assert_eq!(a.set_turbo, Some(true));
    let b = set_autofreq(true, 6000, 300, &state, GovernorOverride::Default, TurboOverride::Auto, &none, &available, "powersave", &vec![50000]);
    assert_eq!(b.set_governor, Some("performance".to_string()));
}
