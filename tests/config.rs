use auto_cpufreq::config::config_event_handler::{ConfigEventHandler, WatchEventKind};
use auto_cpufreq::config::store::{Config, ConfigError};

fn config_with(text: &str) -> Config {
    let mut c = Config::new();
    assert!(c.update_config(Some(text.to_string())));
    c
}

#[test]
fn test_get_threshold_defaults() {
    let config = Config::new();
    assert_eq!(config.get_threshold("start").unwrap(), 0);
    assert_eq!(config.get_threshold("stop").unwrap(), 100);
}

#[test]
fn test_get_bool() {
    let config = Config::new();

    // Test with no config file (should return false)
    assert!(!config.get_bool("battery", "enable_thresholds").unwrap());
}

#[test]
fn threshold_in_range_is_returned() {
    for v in [0, 1, 50, 99, 100] {
        let c = config_with(&format!("[battery]\ncharging_start_threshold = {}\ncharging_stop_threshold = {}\n", v, v));
        assert_eq!(c.get_threshold("start"), Ok(v as u8));
        assert_eq!(c.get_threshold("stop"), Ok(v as u8));
    }
}

#[test]
fn threshold_out_of_range_is_refused() {
    let c = config_with("[battery]\ncharging_start_threshold = 101\ncharging_stop_threshold = -1\n");
    assert_eq!(c.get_threshold("start"), Err(ConfigError::ThresholdOutOfRange(101)));
    assert_eq!(c.get_threshold("stop"), Err(ConfigError::ThresholdOutOfRange(-1)));
}

#[test]
fn threshold_errors() {
    let c = config_with("[battery]\ncharging_start_threshold = abc\n");
    assert_eq!(c.get_threshold("start"), Err(ConfigError::InvalidInteger));
    assert_eq!(c.get_threshold("middle"), Err(ConfigError::InvalidThresholdMode));
}

#[test]
fn bool_words() {
    let c = config_with("[battery]\na = yes\nb = False\nc = maybe\n");
    assert_eq!(c.get_bool("battery", "a"), Ok(true));
    assert_eq!(c.get_bool("battery", "b"), Ok(false));
    assert_eq!(c.get_bool("battery", "c"), Err(ConfigError::InvalidBool));
}

#[test]
fn get_int_and_fallback() {
    let c = config_with("[charger]\ngovernor = performance\nn = +42\n");
    assert_eq!(c.get_int("charger", "n"), Ok(Some(42)));
    assert_eq!(c.get_int("charger", "missing"), Ok(None));
    assert_eq!(c.get("charger", "governor", "x"), "performance");
    assert_eq!(c.get("battery", "governor", "x"), "x");
    assert!(c.has_option("CHARGER", "Governor"));
    assert!(!c.has_option("battery", "governor"));
}

#[test]
fn reload_with_new_value_is_seen() {
    let mut c = config_with("[charger]\ngovernor = powersave\n");
    assert!(c.update_config(Some("[charger]\ngovernor = performance\n".to_string())));
    assert_eq!(c.get_string("charger", "governor"), Some("performance".to_string()));
}

#[test]
fn invalid_reload_keeps_previous_snapshot() {
    let mut c = config_with("[charger]\ngovernor = powersave\n");
    assert!(!c.update_config(Some("[charger\ngovernor = performance\n".to_string())));
    assert_eq!(c.get_string("charger", "governor"), Some("powersave".to_string()));
    assert!(!c.update_config(None));
    assert_eq!(c.get_string("charger", "governor"), Some("powersave".to_string()));
}

#[test]
fn set_path_keeps_values() {
    let mut c = config_with("[a]\nb = c\n");
    c.set_path("/etc/auto-cpufreq.conf".to_string());
    assert_eq!(c.get_path(), "/etc/auto-cpufreq.conf");
    assert_eq!(c.get_string("a", "b"), Some("c".to_string()));
}

#[test]
fn watch_events_for_the_config_file() {
    let h = ConfigEventHandler::new();
    let cur = "/etc/auto-cpufreq.conf";
    assert!(h.should_reload(WatchEventKind::ModifyData, &vec![cur.to_string()], cur));
    assert!(h.should_reload(WatchEventKind::CreateFile, &vec!["/etc/auto-cpufreq.conf.swp".to_string()], cur));
    assert!(!h.should_reload(WatchEventKind::Other, &vec![cur.to_string()], cur));
    assert!(!h.should_reload(WatchEventKind::RemoveFile, &vec!["/etc/other.conf".to_string()], cur));
}

#[test]
fn integer_parsing_edges() {
    let c = config_with("[n]\nmax = 2147483647\nmin = -2147483648\nover = 2147483648\nunder = -2147483649\nplus = +\nminus = -\nspace = 1 2\nlong = 000000000000000000007\n");
    assert_eq!(c.get_int("n", "max"), Ok(Some(i32::MAX)));
    assert_eq!(c.get_int("n", "min"), Ok(Some(i32::MIN)));
    assert_eq!(c.get_int("n", "over"), Err(ConfigError::InvalidInteger));
    assert_eq!(c.get_int("n", "under"), Err(ConfigError::InvalidInteger));
    assert_eq!(c.get_int("n", "plus"), Err(ConfigError::InvalidInteger));
    assert_eq!(c.get_int("n", "minus"), Err(ConfigError::InvalidInteger));
    assert_eq!(c.get_int("n", "space"), Err(ConfigError::InvalidInteger));
    assert_eq!(c.get_int("n", "long"), Ok(Some(7)));
}
