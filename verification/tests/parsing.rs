use sysfs_gpio::attr::{direction_word, edge_word, level_word, parse_active_low, parse_direction,
    parse_edge, parse_pin_value, value_word};
use sysfs_gpio::path::{attr_file_path, export_path, pin_dir_path, u64_to_decimal, unexport_path,
    AttrName};
use sysfs_gpio::{Direction, Edge, Error, Pin};

#[test]
fn extract_pin_fom_path_test() {
    let tok1 = Pin::extract_pin_from_path("/sys/class/gpio/gpio951");
    assert_eq!(951, tok1.unwrap());
    let tok2 = Pin::extract_pin_from_path("/sys/CLASS/gpio/gpio951/");
    assert_eq!(951, tok2.unwrap());
    let tok3 = Pin::extract_pin_from_path("../../devices/soc0/gpiochip3/gpio/gpio124");
    assert_eq!(124, tok3.unwrap());
    let err1 = Pin::extract_pin_from_path("/sys/CLASS/gpio/gpio");
    assert_eq!(true, err1.is_err());
    let err2 = Pin::extract_pin_from_path("/sys/class/gpio/gpioSDS");
    assert_eq!(true, err2.is_err());
}

#[test]
fn extract_pin_edge_cases() {
    assert_eq!(0, Pin::extract_pin_from_path("/sys/class/gpio/gpio0/").unwrap());
    // every leading repetition of the word gpio is shed
    assert_eq!(42, Pin::extract_pin_from_path("gpiogpio42").unwrap());
    // the largest representable pin number parses; one past it does not
    assert_eq!(
        u64::MAX,
        Pin::extract_pin_from_path("gpio18446744073709551615").unwrap()
    );
    assert!(Pin::extract_pin_from_path("gpio18446744073709551616").is_err());
    assert!(Pin::extract_pin_from_path("").is_err());
    assert!(Pin::extract_pin_from_path("/").is_err());
    match Pin::extract_pin_from_path("/sys/CLASS/gpio/gpio") {
        Err(Error::InvalidPath(m)) => assert_eq!(m, "/sys/CLASS/gpio/gpio"),
        other => panic!("wanted InvalidPath, got {:?}", other),
    }
}

#[test]
fn value_parses_zero_and_one_with_whitespace() {
    assert_eq!(0, parse_pin_value(b"0").unwrap());
    assert_eq!(1, parse_pin_value(b"1").unwrap());
    assert_eq!(0, parse_pin_value(b"0\n").unwrap());
    assert_eq!(1, parse_pin_value(b"1\n").unwrap());
    assert_eq!(1, parse_pin_value(b"  1 \t\r\n").unwrap());
}

#[test]
fn value_rejects_everything_else() {
    for bad in [&b"2"[..], b"01", b"10", b"", b"\n", b"on", b"0 1"] {
        match parse_pin_value(bad) {
            Err(Error::Unexpected(_)) => {}
            other => panic!("{:?} should be rejected, got {:?}", bad, other),
        }
    }
}

#[test]
fn value_error_carries_offending_content() {
    match parse_pin_value(b" 2\n") {
        Err(Error::Unexpected(m)) => assert_eq!(m, " 2\n"),
        other => panic!("wanted Unexpected, got {:?}", other),
    }
    // bytes that are not UTF-8 are carried with replacement characters
    match parse_pin_value(&[0xff, 0xfe]) {
        Err(Error::Unexpected(m)) => assert_eq!(m, "\u{fffd}\u{fffd}"),
        other => panic!("wanted Unexpected, got {:?}", other),
    }
}

#[test]
fn direction_words_round_trip() {
    for d in [Direction::In, Direction::Out, Direction::High, Direction::Low] {
        let w = direction_word(d);
        assert_eq!(d, parse_direction(&w).unwrap());
    }
    assert_eq!(direction_word(Direction::In), b"in");
    assert_eq!(direction_word(Direction::Out), b"out");
    assert_eq!(direction_word(Direction::High), b"high");
    assert_eq!(direction_word(Direction::Low), b"low");
    assert_eq!(Direction::High, parse_direction(b" high\n").unwrap());
    assert!(matches!(
        parse_direction(b"HIGH"),
        Err(Error::Unexpected(_))
    ));
    assert!(matches!(parse_direction(b""), Err(Error::Unexpected(_))));
}

#[test]
fn edge_words_round_trip() {
    for e in [
        Edge::NoInterrupt,
        Edge::RisingEdge,
        Edge::FallingEdge,
        Edge::BothEdges,
    ] {
        let w = edge_word(e);
        assert_eq!(e, parse_edge(&w).unwrap());
    }
    assert_eq!(edge_word(Edge::NoInterrupt), b"none");
    assert_eq!(edge_word(Edge::RisingEdge), b"rising");
    assert_eq!(edge_word(Edge::FallingEdge), b"falling");
    assert_eq!(edge_word(Edge::BothEdges), b"both");
    assert_eq!(Edge::BothEdges, parse_edge(b"both\n").unwrap());
    assert!(matches!(parse_edge(b"up"), Err(Error::Unexpected(_))));
}

#[test]
fn active_low_and_value_words() {
    assert_eq!(false, parse_active_low(b"0\n").unwrap());
    assert_eq!(true, parse_active_low(b"1\n").unwrap());
    assert!(matches!(parse_active_low(b"yes"), Err(Error::Unexpected(_))));
    assert_eq!(level_word(true), b"1");
    assert_eq!(level_word(false), b"0");
    assert_eq!(value_word(0), b"0");
    assert_eq!(value_word(1), b"1");
    // any nonzero value sets the pin high
    assert_eq!(value_word(7), b"1");
}

#[test]
fn decimal_rendering() {
    assert_eq!(u64_to_decimal(0), b"0");
    assert_eq!(u64_to_decimal(7), b"7");
    assert_eq!(u64_to_decimal(951), b"951");
    assert_eq!(u64_to_decimal(u64::MAX), b"18446744073709551615");
}

#[test]
fn sysfs_paths() {
    assert_eq!(pin_dir_path(24), b"/sys/class/gpio/gpio24");
    assert_eq!(
        attr_file_path(24, AttrName::Value),
        b"/sys/class/gpio/gpio24/value"
    );
    assert_eq!(
        attr_file_path(951, AttrName::Direction),
        b"/sys/class/gpio/gpio951/direction"
    );
    assert_eq!(
        attr_file_path(0, AttrName::EdgeName),
        b"/sys/class/gpio/gpio0/edge"
    );
    assert_eq!(
        attr_file_path(1, AttrName::ActiveLow),
        b"/sys/class/gpio/gpio1/active_low"
    );
    assert_eq!(export_path(), b"/sys/class/gpio/export");
    assert_eq!(unexport_path(), b"/sys/class/gpio/unexport");
}
