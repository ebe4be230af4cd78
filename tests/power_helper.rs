use auto_cpufreq::power_helper::{join_lines, set_bluetooth_auto_enable};

#[test]
fn bluetooth_setting_replaced_in_policy_section() {
    let conf = "[General]\nName=x\n[Policy]\n#AutoEnable=true\nOther=1\n";
    let out = set_bluetooth_auto_enable(conf, false);
    assert_eq!(join_lines(&out), "[General]\nName=x\n[Policy]\nAutoEnable=false\nOther=1");
}

#[test]
fn bluetooth_setting_added_at_end_of_policy_section() {
    let conf = "[Policy]\nOther=1\n[Next]\nA=b";
    let out = set_bluetooth_auto_enable(conf, true);
    assert_eq!(join_lines(&out), "[Policy]\nOther=1\nAutoEnable=true\n[Next]\nA=b");
}

#[test]
fn bluetooth_policy_section_created() {
    let out = set_bluetooth_auto_enable("[General]\nA=b\n", true);
    assert_eq!(join_lines(&out), "[General]\nA=b\n\n[Policy]\nAutoEnable=true");
}

#[test]
fn bluetooth_setting_outside_policy_untouched() {
    let out = set_bluetooth_auto_enable("AutoEnable=true\n[policy]\n", false);
    assert_eq!(out, vec!["AutoEnable=true", "[policy]", "AutoEnable=false"]);
}
