use toa::common::ArgMatches;
use toa::ping::cli::{resolve_ip, Args, Flags, Lookup, Options, Protocol};
use toa::ping::resolve::{choose_destination, Destination, IPversion, ResolveError, DEFAULT_PORT};

fn v4(last: u8, port: u16) -> Destination {
    Destination::V4 { ip: 0xc000_0200 + last as u32, port }
}

fn v6(last: u16, port: u16) -> Destination {
    Destination::V6 { ip: (0x2001_0db8u128 << 96) + last as u128, port, flowinfo: 0, scope_id: 0 }
}

fn options(domain: IPversion) -> Options {
    Options { number: 4, interval: 500, timeout: 1000, domain, protocol: Protocol::TCP }
}

fn found(entries: &[(&str, &[&str])]) -> ArgMatches {
    let mut matches = ArgMatches::new();
    for (name, values) in entries.iter() {
        matches.insert(name, values.iter().map(|v| v.to_string()).collect());
    }
    matches
}

fn defaults(destination: &str) -> Vec<(&'static str, Vec<String>)> {
    vec![
        ("destination", vec![destination.to_string()]),
        ("protocol", vec!["tcp".to_string()]),
        ("number", vec!["4".to_string()]),
        ("interval", vec!["500".to_string()]),
        ("timeout", vec!["1000".to_string()]),
    ]
}

fn matches_with(destination: &str, more: &[(&'static str, &[&str])]) -> ArgMatches {
    let mut matches = ArgMatches::new();
    for (name, values) in defaults(destination) {
        matches.insert(name, values);
    }
    for (name, values) in more.iter() {
        matches.insert(name, values.iter().map(|v| v.to_string()).collect());
    }
    matches
}

#[test]
fn destination_without_port_gets_port_80() {
    let mut opts = options(IPversion::Unconstrained);
    let lookup = Lookup::WithPortZero(Some(vec![v4(1, 0)]));
    let destination = resolve_ip(&lookup, &mut opts).unwrap();
    assert_eq!(destination.port(), 80);
    assert_eq!(destination, v4(1, 80));
    assert_eq!(opts.domain, IPversion::V4);
    assert_eq!(DEFAULT_PORT, 80);
}

#[test]
fn destination_with_port_keeps_it() {
    let mut opts = options(IPversion::Unconstrained);
    let lookup = Lookup::AsGiven(Some(vec![v4(1, 443)]));
    let destination = resolve_ip(&lookup, &mut opts).unwrap();
    assert_eq!(destination.port(), 443);
    assert_eq!(destination, v4(1, 443));
}

#[test]
fn ipv6_only_fails_when_only_ipv4_is_found() {
    let mut opts = options(IPversion::V6);
    let lookup = Lookup::AsGiven(Some(vec![v4(1, 80), v4(2, 80)]));
    assert_eq!(
        resolve_ip(&lookup, &mut opts),
        Err(ResolveError::NoAddressForFamily(IPversion::V6))
    );
    assert_eq!(opts, options(IPversion::V6));
}

#[test]
fn ipv4_only_fails_when_only_ipv6_is_found() {
    let mut opts = options(IPversion::V4);
    let lookup = Lookup::AsGiven(Some(vec![v6(1, 80)]));
    assert_eq!(
        resolve_ip(&lookup, &mut opts),
        Err(ResolveError::NoAddressForFamily(IPversion::V4))
    );
}

#[test]
fn an_empty_answer_is_unresolvable() {
    for domain in [IPversion::V4, IPversion::V6, IPversion::Unconstrained] {
        let mut opts = options(domain);
        let lookup = Lookup::AsGiven(Some(vec![]));
        assert_eq!(resolve_ip(&lookup, &mut opts), Err(ResolveError::UnresolvableDestination));
        assert_eq!(opts.domain, domain);
    }
}

#[test]
fn a_failed_lookup_is_an_invalid_destination() {
    let mut opts = options(IPversion::Unconstrained);
    assert_eq!(
        resolve_ip(&Lookup::WithPortZero(None), &mut opts),
        Err(ResolveError::InvalidDestination)
    );
    assert_eq!(opts.domain, IPversion::Unconstrained);
}

#[test]
fn only_a_failed_first_lookup_asks_for_the_second() {
    assert!(Lookup::AsGiven(None).needs_retry());
    assert!(!Lookup::AsGiven(Some(vec![])).needs_retry());
    assert!(!Lookup::AsGiven(Some(vec![v4(1, 80)])).needs_retry());
    assert!(!Lookup::WithPortZero(None).needs_retry());
    assert!(!Lookup::WithPortZero(Some(vec![v4(1, 0)])).needs_retry());
}

#[test]
fn unconstrained_takes_the_first_address_and_settles_on_its_version() {
    let mut opts = options(IPversion::Unconstrained);
    let lookup = Lookup::AsGiven(Some(vec![v6(7, 8080), v4(1, 8080)]));
    assert_eq!(resolve_ip(&lookup, &mut opts), Ok(v6(7, 8080)));
    assert_eq!(opts.domain, IPversion::V6);
    assert_eq!(opts.number, 4);
    assert_eq!(opts.interval, 500);
    assert_eq!(opts.timeout, 1000);
}

#[test]
fn a_demanded_version_takes_its_first_address() {
    let candidates = vec![v6(1, 0), v4(1, 22), v6(2, 22), v4(2, 22)];
    assert_eq!(choose_destination(&candidates, IPversion::V4), Ok(v4(1, 22)));
    assert_eq!(choose_destination(&candidates, IPversion::V6), Ok(v6(1, 80)));
    assert_eq!(choose_destination(&candidates, IPversion::Unconstrained), Ok(v6(1, 80)));
    let mut opts = options(IPversion::V4);
    assert_eq!(resolve_ip(&Lookup::AsGiven(Some(candidates)), &mut opts), Ok(v4(1, 22)));
    assert_eq!(opts.domain, IPversion::V4);
}

#[test]
fn destination_accessors() {
    let mut d = v6(3, 0);
    assert_eq!(d.version(), IPversion::V6);
    assert_eq!(d.port(), 0);
    d.set_port(9);
    assert_eq!(
        d,
        Destination::V6 { ip: (0x2001_0db8u128 << 96) + 3, port: 9, flowinfo: 0, scope_id: 0 }
    );
    let mut d = v4(3, 1);
    assert_eq!(d.version(), IPversion::V4);
    d.set_port(65535);
    assert_eq!(d, v4(3, 65535));
}

#[test]
fn resolve_errors_in_words() {
    assert_eq!(
        ResolveError::InvalidDestination.message("nowhere:x"),
        "Invalid destination: nowhere:x"
    );
    assert_eq!(
        ResolveError::UnresolvableDestination.message("x"),
        "Cannot resolve address of your destination :("
    );
    assert_eq!(
        ResolveError::NoAddressForFamily(IPversion::V4).message("x"),
        "There is no IPv4 address to ping, baka!"
    );
    assert_eq!(
        ResolveError::NoAddressForFamily(IPversion::V6).message("x"),
        "There is no IPv6 address to ping, baka!"
    );
    assert_eq!(
        ResolveError::NoAddressForFamily(IPversion::Unconstrained).message("x"),
        "There is no address to ping, baka!"
    );
}

#[test]
fn protocol_names() {
    assert_eq!(Protocol::from_str("tcp"), Ok(Protocol::TCP));
    assert_eq!(Protocol::from_str("TCP"), Ok(Protocol::TCP));
    assert_eq!(Protocol::from_str("tCp"), Ok(Protocol::TCP));
    assert_eq!(Protocol::from_str("udp"), Err("Unknown protocol 'udp' provided".to_string()));
    assert_eq!(Protocol::from_str(""), Err("Unknown protocol '' provided".to_string()));
    assert_eq!(Protocol::from_str("tcp "), Err("Unknown protocol 'tcp ' provided".to_string()));
    assert_eq!(Protocol::from_str("tc"), Err("Unknown protocol 'tc' provided".to_string()));
}

#[test]
fn protocol_names_agree_with_lowercasing() {
    let mut code: u32 = 0;
    while code <= 0x10ffff {
        if let Some(c) = char::from_u32(code) {
            for name in [format!("{}cp", c), format!("t{}p", c), format!("tc{}", c)] {
                assert_eq!(Protocol::from_str(&name).is_ok(), name.to_lowercase() == "tcp");
            }
        }
        code += 1;
    }
}

#[test]
fn flags_are_read_from_matches() {
    assert_eq!(Flags::from_parsed(&found(&[])), Flags { forever: false });
    assert_eq!(Flags::from_parsed(&found(&[("forever", &[])])), Flags { forever: true });
    assert_eq!(Flags::default(), Flags { forever: false });
}

#[test]
fn options_are_read_from_matches() {
    let matches = matches_with("example.org", &[]);
    assert_eq!(Options::from_parsed(&matches), Ok(options(IPversion::Unconstrained)));
    let matches = matches_with("example.org", &[("4", &[])]);
    assert_eq!(Options::from_parsed(&matches), Ok(options(IPversion::V4)));
    let matches = matches_with("example.org", &[("6", &[])]);
    assert_eq!(Options::from_parsed(&matches), Ok(options(IPversion::V6)));
    let matches = matches_with("example.org", &[("6", &[]), ("4", &[])]);
    assert_eq!(Options::from_parsed(&matches), Ok(options(IPversion::V4)));
    let matches = matches_with(
        "example.org",
        &[("number", &["10"]), ("interval", &["0"]), ("timeout", &["250"]), ("protocol", &["TCP"])],
    );
    assert_eq!(
        Options::from_parsed(&matches),
        Ok(Options {
            number: 10,
            interval: 0,
            timeout: 250,
            domain: IPversion::Unconstrained,
            protocol: Protocol::TCP
        })
    );
}

#[test]
fn options_complain_of_the_first_bad_value() {
    let matches = matches_with("x", &[("number", &["many"]), ("interval", &["-1"])]);
    assert_eq!(
        Options::from_parsed(&matches),
        Err("Invalid number 'many' is supplied. invalid digit found in string".to_string())
    );
    let matches = matches_with("x", &[("interval", &[""]), ("timeout", &["x"])]);
    assert_eq!(
        Options::from_parsed(&matches),
        Err("Invalid number '' is supplied. cannot parse integer from empty string".to_string())
    );
    let matches =
        matches_with("x", &[("timeout", &["99999999999999999999"]), ("protocol", &["icmp"])]);
    assert_eq!(
        Options::from_parsed(&matches),
        Err(
            "Invalid number '99999999999999999999' is supplied. number too large to fit in target type"
                .to_string()
        )
    );
    let matches = matches_with("x", &[("protocol", &["icmp"])]);
    assert_eq!(
        Options::from_parsed(&matches),
        Err("Unknown protocol 'icmp' provided".to_string())
    );
}

#[test]
fn args_are_put_together() {
    let matches = matches_with("example.org", &[("forever", &[])]);
    let lookup = Lookup::WithPortZero(Some(vec![v6(1, 0), v4(1, 0)]));
    assert_eq!(
        Args::new(&matches, &lookup),
        Ok(Args {
            flags: Flags { forever: true },
            opts: options(IPversion::V6),
            destination: v6(1, 80),
        })
    );
    let matches = matches_with("example.org:443", &[("4", &[])]);
    let lookup = Lookup::AsGiven(Some(vec![v6(1, 443), v4(1, 443)]));
    assert_eq!(
        Args::new(&matches, &lookup),
        Ok(Args {
            flags: Flags { forever: false },
            opts: options(IPversion::V4),
            destination: v4(1, 443),
        })
    );
}

#[test]
fn args_complain_of_settings_before_the_destination() {
    let matches = matches_with("no where", &[("number", &["x"])]);
    assert_eq!(
        Args::new(&matches, &Lookup::WithPortZero(None)),
        Err("Invalid number 'x' is supplied. invalid digit found in string".to_string())
    );
    let matches = matches_with("no where", &[]);
    assert_eq!(
        Args::new(&matches, &Lookup::WithPortZero(None)),
        Err("Invalid destination: no where".to_string())
    );
    assert_eq!(
        Args::new(&matches, &Lookup::AsGiven(Some(vec![]))),
        Err("Cannot resolve address of your destination :(".to_string())
    );
    let matches = matches_with("example.org", &[("6", &[])]);
    assert_eq!(
        Args::new(&matches, &Lookup::AsGiven(Some(vec![v4(1, 80)]))),
        Err("There is no IPv6 address to ping, baka!".to_string())
    );
}

#[test]
fn socket_domains_differ_by_version() {
    let four: i32 = IPversion::V4.socket2().into();
    let six: i32 = IPversion::V6.socket2().into();
    let expected_four: i32 = socket2::Domain::ipv4().into();
    let expected_six: i32 = socket2::Domain::ipv6().into();
    assert_eq!(four, expected_four);
    assert_eq!(six, expected_six);
    assert_ne!(four, six);
}
