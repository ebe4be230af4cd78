use auto_cpufreq::globals::{all_governors, sort_governors};

#[test]
fn test_all_governors_order() {
    let all = all_governors();
    assert_eq!(all[0], "performance");
    assert_eq!(all[all.len() - 1], "powersave");
}

#[test]
fn sort_governors_keeps_preference_order() {
    let available = vec![
        "powersave".to_string(),
        "performance".to_string(),
        "bogus".to_string(),
        "schedutil".to_string(),
    ];
    assert_eq!(sort_governors(&available), vec!["performance", "schedutil", "powersave"]);
}

#[test]
fn sort_governors_empty() {
    assert!(sort_governors(&Vec::new()).is_empty());
}
