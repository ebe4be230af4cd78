use auto_cpufreq::caches::{
    read_core_temp, read_fan_speed, read_package_temp, CachedSystem, HwmonDevice, TempSensorCache,
};
use auto_cpufreq::config::store::Config;
use auto_cpufreq::system_info::{
    battery_info, turbo_control_of, turbo_write_value, BatteryFiles, BatteryPathCache, SupplyEntry, SystemInfo,
    TurboControl,
};

fn entry(path: &str, kind: Option<&str>) -> SupplyEntry {
    SupplyEntry { path: path.to_string(), kind: kind.map(|k| k.to_string()) }
}

#[test]
fn test_battery_cache() {
    let (battery, mains) = BatteryPathCache::scan_power_supply("", None, &Vec::new());
    let cache = BatteryPathCache::new(battery, mains, 0);
    // Just ensure it doesn't panic
    let _ = cache.battery_path.is_some();
}

#[test]
fn power_supply_scan_picks_first_of_each_kind() {
    let entries = vec![
        entry("/sys/class/power_supply/hidpp", Some("Battery\n")),
        entry("/sys/class/power_supply/AC", Some("Mains\n")),
        entry("/sys/class/power_supply/BAT0", Some("Battery\n")),
        entry("/sys/class/power_supply/X", None),
    ];
    let (b, m) = BatteryPathCache::scan_power_supply("", None, &entries);
    assert_eq!(b.as_deref(), Some("/sys/class/power_supply/hidpp"));
    assert_eq!(m.as_deref(), Some("/sys/class/power_supply/AC"));
    let (b, _) = BatteryPathCache::scan_power_supply("BAT1", Some("BATTERY\n"), &entries);
    assert_eq!(b.as_deref(), Some("/sys/class/power_supply/BAT1"));
    let (b, _) = BatteryPathCache::scan_power_supply("BAT1", Some("Mains"), &entries);
    assert_eq!(b.as_deref(), Some("/sys/class/power_supply/hidpp"));
}

#[test]
fn battery_path_cache_rescans_after_a_minute() {
    let mut c = BatteryPathCache::new(None, None, 1000);
    assert!(!c.maybe_rescan(61000));
    assert!(c.maybe_rescan(61001));
    c.update(Some("/b".to_string()), None, 61001);
    assert_eq!(SystemInfo::get_battery_path(&c), Some("/b".to_string()));
}

#[test]
fn no_battery_means_ac() {
    let info = battery_info(Some("0"), None);
    assert_eq!(info.is_ac_plugged, Some(true));
    assert_eq!(info.is_charging, None);
    assert_eq!(info.battery_level, None);
}

#[test]
fn battery_info_reads_files() {
    let files = BatteryFiles {
        status: Some("Charging\n".to_string()),
        capacity: Some("87\n".to_string()),
        energy_rate: Some("12500000\n".to_string()),
        charge_start: Some("40".to_string()),
        charge_stop: None,
    };
    let info = battery_info(Some("0\n"), Some(&files));
    assert_eq!(info.is_charging, Some(true));
    assert_eq!(info.is_ac_plugged, Some(false));
    assert_eq!(info.battery_level, Some(87));
    assert_eq!(info.power_consumption, Some(12500000));
    assert_eq!(info.charging_start_threshold, Some(40));
    assert_eq!(info.charging_stop_threshold, None);
    let full = BatteryFiles { status: Some("Full".to_string()), capacity: Some("300".to_string()), energy_rate: None, charge_start: None, charge_stop: None };
    let info = battery_info(None, Some(&full));
    assert_eq!(info.is_charging, Some(false));
    assert_eq!(info.is_ac_plugged, Some(true));
    assert_eq!(info.battery_level, None);
}

#[test]
fn cpu_refresh_throttled() {
    let mut c = CachedSystem::new(2);
    assert!(c.get_refreshed_system(10_000));
    assert!(!c.get_refreshed_system(11_000));
    assert!(!c.get_refreshed_system(12_000));
    assert!(c.get_refreshed_system(12_001));
    c.force_refresh(13_000);
    assert!(!c.get_refreshed_system(14_000));
}

fn dev(name: Option<&str>, temps: &[u32], fan: bool) -> HwmonDevice {
    HwmonDevice {
        name: name.map(|n| n.to_string()),
        temps: temps.iter().map(|t| (*t, format!("/hw/{}/temp{}_input", name.unwrap_or("x"), t))).collect(),
        fan: if fan { Some(format!("/hw/{}/fan1_input", name.unwrap_or("x"))) } else { None },
    }
}

#[test]
fn sensor_scan_uses_highest_priority_driver() {
    let devs = vec![dev(Some("nvme\n"), &[1], true), dev(Some("k10temp\n"), &[1, 2, 3], false), dev(Some("zenpower\n"), &[1, 2], false)];
    let cache = TempSensorCache::new(&devs, 5);
    assert_eq!(cache.package_temp_path.as_deref(), Some("/hw/k10temp\n/temp1_input"));
    assert_eq!(cache.core_sensor_path(0).as_deref(), Some("/hw/k10temp\n/temp2_input"));
    assert_eq!(cache.core_sensor_path(1).as_deref(), Some("/hw/k10temp\n/temp3_input"));
    assert_eq!(cache.core_sensor_path(2), None);
    assert_eq!(cache.core_sensor_path(100), None);
    assert_eq!(cache.fan_speed_path.as_deref(), Some("/hw/nvme\n/fan1_input"));
    assert!(!cache.maybe_rescan(300_005));
    assert!(cache.maybe_rescan(300_006));
}

#[test]
fn temperature_readings() {
    assert_eq!(read_core_temp(Some("45000\n"), Some("50000")), 45000);
    assert_eq!(read_core_temp(Some("bad"), Some("50000\n")), 50000);
    assert_eq!(read_core_temp(None, None), 0);
    assert_eq!(read_package_temp(Some(" 61000 ")), 61000);
    assert_eq!(read_fan_speed(Some("2400\n")), Some(2400));
    assert_eq!(read_fan_speed(Some("0")), None);
    assert_eq!(SystemInfo::cpu_fan_speed(None), None);
}

#[test]
fn turbo_state_and_writes() {
    assert_eq!(SystemInfo::turbo_on(TurboControl::IntelPstate, Some("0\n")), (Some(true), Some(false)));
    assert_eq!(SystemInfo::turbo_on(TurboControl::CpufreqBoost, Some("0\n")), (Some(false), Some(false)));
    assert_eq!(SystemInfo::turbo_on(TurboControl::AmdPstate, Some("active\n")), (None, Some(true)));
    assert_eq!(SystemInfo::turbo_on(TurboControl::Unavailable, None), (None, None));
    assert_eq!(turbo_write_value(TurboControl::IntelPstate, true), Some(0));
    assert_eq!(turbo_write_value(TurboControl::CpufreqBoost, true), Some(1));
    assert_eq!(turbo_write_value(TurboControl::AmdPstate, true), None);
}

#[test]
fn machine_facts() {
    let os = "NAME=\"Arch Linux\"\nPRETTY_NAME=\"Arch Linux\"\nVERSION=\"rolling\"\nID=arch\n";
    let s = SystemInfo::new(Some(os), "x86_64".to_string(), "cpu".to_string(), Some(8), None, "6.1".to_string());
    assert_eq!(s.distro_name, "Arch Linux");
    assert_eq!(s.distro_version, "rolling");
    let u = SystemInfo::new(None, "x86_64".to_string(), String::new(), None, None, String::new());
    assert_eq!(u.distro_name, "UNKNOWN");
    let cpuinfo = "processor\t: 0\nmodel name\t: AMD Ryzen 7 5800U with Radeon Graphics\nflags: a\n";
    assert_eq!(SystemInfo::read_processor_model(cpuinfo), "AMD Ryzen 7 5800U with Radeon Graphics");
    assert_eq!(SystemInfo::read_processor_model("flags: a"), "");
}

#[test]
fn suggestions_and_averages() {
    let sorted = vec!["performance".to_string(), "schedutil".to_string(), "powersave".to_string()];
    assert_eq!(SystemInfo::governor_suggestion(Some(true), &sorted), Some("performance".to_string()));
    assert_eq!(SystemInfo::governor_suggestion(None, &sorted), Some("performance".to_string()));
    assert_eq!(SystemInfo::governor_suggestion(Some(false), &sorted), Some("powersave".to_string()));
    assert_eq!(SystemInfo::governor_suggestion(Some(false), &Vec::new()), None);
    assert!(SystemInfo::turbo_on_suggestion(2000));
    assert!(!SystemInfo::turbo_on_suggestion(1999));
    assert_eq!(SystemInfo::avg_temp(&vec![45500, 0, 50500]), 48);
    assert_eq!(SystemInfo::cpu_usage(&vec![1000, 3000]), 2000);
}

#[test]
fn epp_and_epb_follow_the_source_section() {
    let mut c = Config::new();
    assert!(c.update_config(Some("[charger]\nenergy_performance_preference = performance\n".to_string())));
    assert_eq!(SystemInfo::current_epp(true, true, &c), Some("performance".to_string()));
    assert_eq!(SystemInfo::current_epp(false, true, &c), Some("balance_power".to_string()));
    assert_eq!(SystemInfo::current_epp(true, false, &c), None);
    assert_eq!(SystemInfo::current_epb(true, true, &c), Some("balance_power".to_string()));
}

#[test]
fn core_test_temp_cache() {
    let cache = TempSensorCache::new(&Vec::new(), 0);
    let temp = read_core_temp(cache.core_sensor_path(0).as_deref(), cache.package_temp_path.as_deref());
    assert!(temp >= 0);
}

#[test]
fn system_info_test_temp_cache() {
    let cache = TempSensorCache::new(&vec![dev(Some("acpitz"), &[1], false)], 0);
    let temp = read_core_temp(None, Some("47000"));
    assert!(temp >= 0);
    assert_eq!(temp, 47000);
    assert_eq!(cache.core_sensor_path(0), None);
    assert_eq!(cache.package_temp_path.as_deref(), Some("/hw/acpitz/temp1_input"));
}

#[test]
fn sensor_scan_prefers_higher_priority_driver() {
    let devs = vec![dev(Some("acpitz"), &[1, 2], false), dev(Some("coretemp"), &[1, 2, 3], false), dev(Some("coretemp"), &[1], false)];
    let cache = TempSensorCache::new(&devs, 0);
    assert_eq!(cache.package_temp_path.as_deref(), Some("/hw/coretemp/temp1_input"));
    assert_eq!(cache.core_sensor_path(1).as_deref(), Some("/hw/coretemp/temp3_input"));
    let none = TempSensorCache::new(&vec![dev(Some("nvme"), &[1], false)], 0);
    assert_eq!(none.package_temp_path, None);
}

#[test]
fn turbo_control_first_existing_file() {
    assert_eq!(turbo_control_of(true, true, true), TurboControl::IntelPstate);
    assert_eq!(turbo_control_of(false, true, true), TurboControl::CpufreqBoost);
    assert_eq!(turbo_control_of(false, false, true), TurboControl::AmdPstate);
    assert_eq!(turbo_control_of(false, false, false), TurboControl::Unavailable);
}
