use auto_cpufreq::battery::ideapad_laptop::{check_conservation_mode, IdeapadLaptopManager};
use auto_cpufreq::battery::{
    battery_get_thresholds, battery_setup, get_batteries, get_threshold_value, LaptopModule,
    ThresholdMode,
};
use auto_cpufreq::config::store::Config;

fn config_with(text: &str) -> Config {
    let mut c = Config::new();
    assert!(c.update_config(Some(text.to_string())));
    c
}

fn bats() -> Vec<String> {
    vec!["BAT0".to_string(), "BAT1".to_string()]
}

#[test]
fn test_threshold_mode_strings() {
    assert_eq!(ThresholdMode::Start.as_str(), "start");
    assert_eq!(ThresholdMode::Stop.as_str(), "stop");
    assert_eq!(ThresholdMode::Stop.fallback_str(), "end");
}

#[test]
fn threshold_paths() {
    assert_eq!(ThresholdMode::Start.primary_path("BAT0"), "/sys/class/power_supply/BAT0/charge_start_threshold");
    assert_eq!(ThresholdMode::Stop.fallback_path("BAT1"), "/sys/class/power_supply/BAT1/charge_control_end_threshold");
}

#[test]
fn detect_vendor_module() {
    assert_eq!(LaptopModule::detect(Some("thinkpad_acpi 123 0\nasus_wmi 1 0")), LaptopModule::ThinkpadAcpi);
    assert_eq!(LaptopModule::detect(Some("ideapad_laptop 1 0\nideapad_acpi 2 0")), LaptopModule::IdeapadAcpi);
    assert_eq!(LaptopModule::detect(Some("snd 1 0")), LaptopModule::NoModule);
    assert_eq!(LaptopModule::detect(None), LaptopModule::NoModule);
    assert_eq!(LaptopModule::AsusWmi.name(), "asus_wmi");
    assert_eq!(LaptopModule::NoModule.name(), "none");
}

#[test]
fn batteries_are_bat_entries() {
    let names = vec!["AC".to_string(), "BAT0".to_string(), "hidpp_battery_0".to_string(), "BAT1".to_string()];
    assert_eq!(get_batteries(&names), vec!["BAT0", "BAT1"]);
}

#[test]
fn batteries_sorted_and_unique() {
    let names = vec!["BAT2".to_string(), "BAT0".to_string(), "AC".to_string(), "BAT10".to_string(), "BAT0".to_string()];
    assert_eq!(get_batteries(&names), vec!["BAT0", "BAT10", "BAT2"]);
    assert!(get_batteries(&Vec::new()).is_empty());
}

#[test]
fn threshold_values_default_on_error() {
    let c = config_with("[battery]\ncharging_start_threshold = 300\ncharging_stop_threshold = 80\n");
    assert_eq!(get_threshold_value(&c, ThresholdMode::Start), 0);
    assert_eq!(get_threshold_value(&c, ThresholdMode::Stop), 80);
}

#[test]
fn setup_writes_start_then_stop_per_battery() {
    let c = config_with("[battery]\nenable_thresholds = true\ncharging_start_threshold = 20\ncharging_stop_threshold = 80\n");
    let w = battery_setup(LaptopModule::ThinkpadAcpi, &c, true, &bats(), false);
    let got: Vec<(String, ThresholdMode, u8)> = w.into_iter().map(|x| (x.battery, x.mode, x.value)).collect();
    assert_eq!(got, vec![
        ("BAT0".to_string(), ThresholdMode::Start, 20),
        ("BAT0".to_string(), ThresholdMode::Stop, 80),
        ("BAT1".to_string(), ThresholdMode::Start, 20),
        ("BAT1".to_string(), ThresholdMode::Stop, 80),
    ]);
}

#[test]
fn setup_disabled_or_missing_dir_writes_nothing() {
    let off = config_with("[battery]\nenable_thresholds = false\n");
    assert!(battery_setup(LaptopModule::AsusWmi, &off, true, &bats(), false).is_empty());
    let on = config_with("[battery]\nenable_thresholds = true\n");
    assert!(battery_setup(LaptopModule::IdeapadAcpi, &on, false, &bats(), false).is_empty());
    assert!(battery_setup(LaptopModule::NoModule, &on, true, &bats(), false).is_empty());
}

#[test]
fn conservation_mode_blocks_threshold_writes() {
    let wants = config_with("[battery]\nenable_thresholds = true\nideapad_laptop_conservation_mode = true\n");
    assert_eq!(IdeapadLaptopManager.conservation_request(&wants), Some(1));
    assert!(battery_setup(LaptopModule::IdeapadLaptop, &wants, true, &bats(), false).is_empty());
    let off = config_with("[battery]\nenable_thresholds = true\nideapad_laptop_conservation_mode = false\n");
    assert_eq!(IdeapadLaptopManager.conservation_request(&off), Some(0));
    assert!(battery_setup(LaptopModule::IdeapadLaptop, &off, true, &bats(), true).is_empty());
    assert_eq!(battery_setup(LaptopModule::IdeapadLaptop, &off, true, &bats(), false).len(), 4);
}

#[test]
fn conservation_toggle_text() {
    assert!(check_conservation_mode(Some("1\n")));
    assert!(!check_conservation_mode(Some("0")));
    assert!(!check_conservation_mode(Some("x")));
    assert!(!check_conservation_mode(None));
}

#[test]
fn threshold_reads_per_vendor() {
    let r = battery_get_thresholds(LaptopModule::AsusWmi, false, &bats());
    assert_eq!(r.len(), 4);
    assert_eq!(r[1].paths, vec![
        "/sys/class/power_supply/BAT0/charge_stop_threshold".to_string(),
        "/sys/class/power_supply/BAT0/charge_control_end_threshold".to_string(),
    ]);
    assert_eq!(battery_get_thresholds(LaptopModule::ThinkpadAcpi, false, &bats())[0].paths.len(), 1);
    assert!(battery_get_thresholds(LaptopModule::IdeapadLaptop, true, &bats()).is_empty());
    assert!(battery_get_thresholds(LaptopModule::NoModule, false, &bats()).is_empty());
}
