use auto_cpufreq::daemon::{
    charging, check_proc_daemon_status, get_formatted_version, get_power_supply_ignore_list,
    get_version, PowerSupply,
};
use auto_cpufreq::supervisor::{detect_init_system, install_daemon, remove_daemon, InitSystem, ShippedFile, Step, SupervisorError};

fn supply(name: &str, kind: Option<&str>, online: Option<&str>, status: Option<&str>) -> PowerSupply {
    PowerSupply {
        name: name.to_string(),
        kind: kind.map(|s| s.to_string()),
        online: online.map(|s| s.to_string()),
        status: status.map(|s| s.to_string()),
    }
}

#[test]
fn charging_from_supplies() {
    assert!(charging(&Vec::new()));
    assert!(charging(&vec![supply("AC", Some("Mains\n"), Some("1\n"), None)]));
    assert!(!charging(&vec![
        supply("AC", Some("Mains"), Some("0"), None),
        supply("BAT0", Some("Battery"), None, Some("Discharging\n")),
    ]));
    assert!(charging(&vec![supply("hidpp_battery_1", Some("Battery"), None, Some("Discharging"))]));
    assert!(charging(&vec![supply("BAT0", Some("Battery"), None, Some("Full"))]));
}

#[test]
fn daemon_process_detection() {
    let procs = vec![
        vec!["/usr/bin/bash".to_string()],
        vec!["/usr/local/bin/auto-cpufreq".to_string(), "--daemon".to_string()],
    ];
    assert!(check_proc_daemon_status(&procs, "auto-cpufreq", "--daemon"));
    assert!(!check_proc_daemon_status(&procs, "auto-cpufreq", "--live"));
    assert!(!check_proc_daemon_status(&Vec::new(), "auto-cpufreq", "--daemon"));
}

#[test]
fn version_and_ignore_list() {
    assert_eq!(get_formatted_version(), "0.1.0");
    assert_eq!(get_power_supply_ignore_list(), vec!["hidpp_battery".to_string()]);
}

#[test]
fn init_system_detection() {
    assert_eq!(detect_init_system(Some("systemd\n")), InitSystem::Systemd);
    assert_eq!(detect_init_system(Some("init")), InitSystem::Openrc);
    assert_eq!(detect_init_system(Some("s6-svscan")), InitSystem::S6);
    assert_eq!(detect_init_system(Some("bash")), InitSystem::Unknown);
    assert_eq!(detect_init_system(None), InitSystem::Unknown);
    assert_eq!(InitSystem::Runit.name(), "runit");
}

#[test]
fn install_plans() {
    assert_eq!(install_daemon(InitSystem::Unknown, None).unwrap_err(), SupervisorError::UnsupportedInitSystem);
    let steps = install_daemon(InitSystem::Systemd, None).unwrap();
    assert!(matches!(steps[0], Step::RunHook(ShippedFile::InstallScript)));
    assert!(matches!(steps[1], Step::DeployHelper));
    assert!(matches!(&steps[2], Step::WriteFile(p, ShippedFile::SystemdService) if p == "/etc/systemd/system/auto-cpufreq.service"));
    assert!(matches!(&steps[5], Step::Command(p, a, true) if p == "systemctl" && a == &vec!["enable".to_string(), "auto-cpufreq".to_string()]));
    assert_eq!(install_daemon(InitSystem::Runit, None).unwrap_err(), SupervisorError::UnknownDistro);
    assert_eq!(install_daemon(InitSystem::Runit, Some("ID=debian\n")).unwrap_err(), SupervisorError::UnsupportedRunitDistro);
    let runit = install_daemon(InitSystem::Runit, Some("NAME=Void\nID=\"void\"\n")).unwrap();
    assert!(matches!(&runit[2], Step::CreateDir(p) if p == "/etc/sv/auto-cpufreq"));
    assert!(matches!(&runit[6], Step::Symlink(t, l) if t == "/etc/sv/auto-cpufreq" && l == "/var/service/auto-cpufreq"));
}

#[test]
fn remove_plans() {
    assert_eq!(remove_daemon(InitSystem::Unknown, None).unwrap_err(), SupervisorError::UnsupportedInitSystem);
    let steps = remove_daemon(InitSystem::Dinit, None).unwrap();
    let n = steps.len();
    assert!(matches!(steps[n - 2], Step::RemoveHelper));
    assert!(matches!(steps[n - 1], Step::RunHook(ShippedFile::RemoveScript)));
    assert!(matches!(&steps[0], Step::Command(p, _, false) if p == "dinitctl"));
    let artix = remove_daemon(InitSystem::Runit, Some("ID=artix")).unwrap();
    assert!(matches!(&artix[1], Step::RemoveDir(p) if p == "/etc/runit/sv/auto-cpufreq"));
}

#[test]
fn version_from_package_query() {
    let out = "Name            : auto-cpufreq\nVersion         : 2.4.0-1\nDescription     : x\n";
    assert_eq!(get_version(true, out), Some("Version         : 2.4.0-1".to_string()));
    assert_eq!(get_version(true, "Name : x\n"), None);
    assert_eq!(get_version(false, ""), Some("0.1.0".to_string()));
}

#[test]
fn full_plans_per_init_system() {
    for init in [InitSystem::Systemd, InitSystem::Openrc, InitSystem::Dinit, InitSystem::S6] {
        let install = install_daemon(init, None).unwrap();
        assert!(matches!(install.last(), Some(Step::Command(_, _, true))));
        let remove = remove_daemon(init, None).unwrap();
        assert!(matches!(remove[0], Step::Command(_, _, false)));
    }
    let s6 = install_daemon(InitSystem::S6, None).unwrap();
    assert!(matches!(&s6[6], Step::Command(p, a, true) if p == "s6-rc" && a == &vec!["-u".to_string(), "change".to_string(), "auto-cpufreq".to_string(), "default".to_string()]));
}
