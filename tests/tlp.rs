use auto_cpufreq::tlp_stat_parser::TLPStatusParser;

#[test]
fn test_tlp_parser() {
    let output = "state=enabled\nversion=1.3.1\nmode=battery";
    let parser = TLPStatusParser::new(output);

    assert!(parser.is_enabled());
    assert_eq!(parser.get_key("version"), "1.3.1");
    assert_eq!(parser.get_key("mode"), "battery");
}

#[test]
fn test_tlp_parser_disabled() {
    let output = "state=disabled";
    let parser = TLPStatusParser::new(output);

    assert!(!parser.is_enabled());
}

#[test]
fn test_tlp_parser_empty() {
    let parser = TLPStatusParser::new("");
    assert!(!parser.is_enabled());
}

#[test]
fn tlp_keys_are_trimmed_and_lowercased() {
    let parser = TLPStatusParser::new("  STATE =  enabled \r\nno separator here\nMode= AC");
    assert!(parser.is_enabled());
    assert_eq!(parser.get_key("mode"), "AC");
    assert_eq!(parser.get_key("missing"), "");
}

#[test]
fn tlp_later_line_wins() {
    let parser = TLPStatusParser::new("state=enabled\nstate=disabled\n");
    assert!(!parser.is_enabled());
    assert_eq!(parser.get_key("state"), "disabled");
}

#[test]
fn tlp_value_keeps_later_equals_signs() {
    let parser = TLPStatusParser::new("cmd=a=b");
    assert_eq!(parser.get_key("cmd"), "a=b");
}

#[test]
fn tlp_parse_adds_to_existing_entries() {
    let mut parser = TLPStatusParser::new("state=disabled\nmode=AC");
    parser.parse("state=enabled");
    assert!(parser.is_enabled());
    assert_eq!(parser.get_key("mode"), "AC");
}
