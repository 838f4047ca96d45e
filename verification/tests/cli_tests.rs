use toa_ping::cli::{parse_next_int, parse_u64, Parser, Protocol};
use toa_ping::Family;

fn words(ws: &[&str]) -> Vec<String> {
    ws.iter().map(|w| w.to_string()).collect()
}

#[test]
fn defaults_with_a_destination() {
    let p = Parser::new(words(&["example.com"])).unwrap();
    assert_eq!(p.options.number, 4);
    assert_eq!(p.options.interval, 500);
    assert_eq!(p.options.timeout, 1000);
    assert_eq!(p.options.ip_family, Family::Unspecified);
    assert_eq!(p.options.protocol, Protocol::Tcp);
    assert!(!p.flags.forever);
    assert!(!p.flags.help);
    assert_eq!(p.destinations, vec!["example.com".to_string()]);
}

#[test]
fn switches_and_options_are_recognised() {
    let p = Parser::new(words(&[
        "-f", "-4", "-n", "10", "-i", "250", "-w", "2000", "-p", "tcp", "host:8080",
    ]))
    .unwrap();
    assert!(p.flags.forever);
    assert_eq!(p.options.ip_family, Family::IPv4);
    assert_eq!(p.options.number, 10);
    assert_eq!(p.options.interval, 250);
    assert_eq!(p.options.timeout, 2000);
    assert_eq!(p.options.protocol, Protocol::Tcp);
    assert_eq!(p.destinations, vec!["host:8080".to_string()]);
}

#[test]
fn long_switches_work() {
    let p = Parser::new(words(&["--forever", "--help", "host"])).unwrap();
    assert!(p.flags.forever);
    assert!(p.flags.help);
}

#[test]
fn ipv6_can_be_enforced() {
    let p = Parser::new(words(&["-6", "host"])).unwrap();
    assert_eq!(p.options.ip_family, Family::IPv6);
}

#[test]
fn help_alone_needs_no_destination() {
    let p = Parser::new(words(&["-h"])).unwrap();
    assert!(p.flags.help);
    assert!(p.destinations.is_empty());
}

#[test]
fn missing_destination_is_an_error() {
    let e = Parser::new(words(&["-f"])).unwrap_err();
    assert_eq!(e.0, "Destination is not supplied");
}

#[test]
fn no_arguments_is_an_error() {
    let e = Parser::new(vec![]).unwrap_err();
    assert_eq!(e.0, "Destination is not supplied");
}

#[test]
fn invalid_protocol_is_reported() {
    let e = Parser::new(words(&["-p", "udp", "host"])).unwrap_err();
    assert_eq!(e.0, "Invalid protocol udp");
}

#[test]
fn missing_protocol_is_reported() {
    let e = Parser::new(words(&["host", "-p"])).unwrap_err();
    assert_eq!(e.0, "Protocol hasn't been supplied");
}

#[test]
fn invalid_number_is_reported() {
    let e = Parser::new(words(&["-n", "abc", "host"])).unwrap_err();
    assert_eq!(e.0, "Invalid number abc is supplied for option -n");
}

#[test]
fn missing_number_is_reported() {
    let e = Parser::new(words(&["host", "-i"])).unwrap_err();
    assert_eq!(e.0, "Missing value for option -i");
}

#[test]
fn unrecognised_words_are_destinations() {
    let p = Parser::new(words(&["alpha", "-f", "beta"])).unwrap();
    assert_eq!(p.destinations, vec!["alpha".to_string(), "beta".to_string()]);
}

#[test]
fn parse_next_int_accepts_a_number() {
    assert_eq!(parse_next_int(Some("12".to_string()), "-n").unwrap(), 12);
}

#[test]
fn parse_next_int_reports_a_missing_value() {
    let e = parse_next_int(None, "-n").unwrap_err();
    assert_eq!(e.0, "Missing value for option -n");
}

#[test]
fn parse_next_int_reports_a_bad_value() {
    let e = parse_next_int(Some("12x".to_string()), "-w").unwrap_err();
    assert_eq!(e.0, "Invalid number 12x is supplied for option -w");
}

#[test]
fn parse_u64_handles_edges() {
    assert_eq!(parse_u64("0"), Some(0));
    assert_eq!(parse_u64("42"), Some(42));
    assert_eq!(parse_u64("+7"), Some(7));
    assert_eq!(parse_u64("18446744073709551615"), Some(u64::MAX));
    assert_eq!(parse_u64("18446744073709551616"), None);
    assert_eq!(parse_u64(""), None);
    assert_eq!(parse_u64("+"), None);
    assert_eq!(parse_u64("-3"), None);
    assert_eq!(parse_u64("1 2"), None);
}

#[test]
fn parse_error_renders_message_above_usage() {
    let e = Parser::new(words(&["-n", "x", "host"])).unwrap_err();
    let text = e.message();
    assert!(text.starts_with("ERROR:Invalid number x is supplied for option -n\n\n"));
    assert!(text.contains("usage: toa-ping"));
}

#[test]
fn empty_parse_error_renders_bare_usage() {
    let e = toa_ping::ParseError(String::new());
    let text = e.message();
    assert!(text.starts_with("usage: toa-ping"));
    assert!(text.contains("-w <timeout>"));
}

#[test]
fn usage_text_is_stable() {
    let p = Parser::new(words(&["host"])).unwrap();
    let u = p.usage();
    assert!(u.starts_with("usage: toa-ping [flags] [options] <destination>"));
    assert!(u.contains("tcp - Measures RTT of connection establishment."));
}
