use auto_cpufreq::system_monitor::{StringBuffer, SystemMonitor, ViewType};

#[test]
fn test_string_buffer() {
    let mut buf = StringBuffer::new();
    buf.write_str("Hello\n");
    buf.write_str(&format!("World {}\n", 123));
    let lines = buf.to_lines();
    assert_eq!(lines.len(), 2);
    assert_eq!(lines[0], "Hello");
    assert_eq!(lines[1], "World 123");
}

#[test]
fn string_buffer_clear() {
    let mut buf = StringBuffer::new();
    buf.write_str("a\nb");
    buf.clear();
    assert!(buf.to_lines().is_empty());
}

#[test]
fn battery_status_words() {
    assert_eq!(SystemMonitor::format_battery_status(Some(true), None, false), "Charging");
    assert_eq!(SystemMonitor::format_battery_status(Some(false), Some(false), false), "Discharging");
    assert_eq!(SystemMonitor::format_battery_status(Some(false), Some(true), false), "Charged");
    assert_eq!(SystemMonitor::format_battery_status(None, Some(true), false), "Unknown");
    assert_eq!(
        SystemMonitor::format_battery_status(Some(true), None, true),
        "is_charging: Some(true), is_ac_plugged: None"
    );
}

#[test]
fn monitor_starts_empty() {
    let m = SystemMonitor::new(ViewType::Monitor, true);
    assert!(m.left.is_empty() && m.right.is_empty());
    assert!(!m.verbose);
    assert!(m.suggestion);
    assert_eq!(ViewType::Live.name(), "Live");
}

#[test]
fn string_buffer_line_endings() {
    let mut buf = StringBuffer::new();
    buf.write_str("a\r\nb\n\nc\r");
    assert_eq!(buf.to_lines(), vec!["a", "b", "", "c\r"]);
}
