use serial2::{CharSize, FlowControl, Parity, StopBits};
use serial_monitor::config::{
    parse_char_size, parse_flow_control, parse_parity, parse_stop_bits, resolve, Args, ConfigError,
    DEFAULT_BAUD_RATE,
};

fn sample_args() -> Args {
    Args {
        serial: String::from("/dev/ttyX"),
        raw: false,
        char_size: 8,
        stop_bits: 1,
        set_parity: String::from("None"),
        set_flow_control: String::from("None"),
        rate: 9600,
        seconds: 1,
        dtr: true,
        rts: true,
    }
}

#[test]
fn char_sizes_map_to_their_widths() {
    assert_eq!(parse_char_size(5), Ok(CharSize::Bits5));
    assert_eq!(parse_char_size(6), Ok(CharSize::Bits6));
    assert_eq!(parse_char_size(7), Ok(CharSize::Bits7));
    assert_eq!(parse_char_size(8), Ok(CharSize::Bits8));
}

#[test]
fn other_char_sizes_are_rejected() {
    for n in [0u8, 1, 4, 9, 16, 255] {
        assert_eq!(parse_char_size(n), Err(ConfigError::CharSize(n)));
    }
}

#[test]
fn stop_bits_map_to_one_and_two() {
    assert_eq!(parse_stop_bits(1), Ok(StopBits::One));
    assert_eq!(parse_stop_bits(2), Ok(StopBits::Two));
    for n in [0u8, 3, 255] {
        assert_eq!(parse_stop_bits(n), Err(ConfigError::StopBits(n)));
    }
}

#[test]
fn parity_names_are_exact() {
    assert_eq!(parse_parity("None"), Ok(Parity::None));
    assert_eq!(parse_parity("Odd"), Ok(Parity::Odd));
    assert_eq!(parse_parity("Even"), Ok(Parity::Even));
    for s in ["none", "odd", "EVEN", "", "Non", "None "] {
        assert_eq!(parse_parity(s), Err(ConfigError::Parity(String::from(s))));
    }
}

#[test]
fn flow_control_names_are_exact() {
    assert_eq!(parse_flow_control("None"), Ok(FlowControl::None));
    assert_eq!(parse_flow_control("RtsCts"), Ok(FlowControl::RtsCts));
    assert_eq!(parse_flow_control("XonXoff"), Ok(FlowControl::XonXoff));
    for s in ["none", "rtscts", "XonXof", "", "RtsCtsX"] {
        assert_eq!(parse_flow_control(s), Err(ConfigError::FlowControl(String::from(s))));
    }
}

#[test]
fn resolve_gathers_valid_settings() {
    let c = resolve(&sample_args()).unwrap();
    assert_eq!(c.port, "/dev/ttyX");
    assert!(!c.raw);
    assert_eq!(c.char_size, CharSize::Bits8);
    assert_eq!(c.stop_bits, StopBits::One);
    assert_eq!(c.parity, Parity::None);
    assert_eq!(c.flow_control, FlowControl::None);
    assert_eq!(c.baud_rate, 9600);
    assert_eq!(c.poll_secs, 1);
    assert!(c.dtr);
    assert!(c.rts);
}

#[test]
fn resolve_keeps_raw_rate_and_interval() {
    let mut a = sample_args();
    a.raw = true;
    a.rate = DEFAULT_BAUD_RATE;
    a.seconds = 0;
    a.char_size = 5;
    a.stop_bits = 2;
    a.set_parity = String::from("Even");
    a.set_flow_control = String::from("XonXoff");
    let c = resolve(&a).unwrap();
    assert!(c.raw);
    assert_eq!(c.baud_rate, 11520);
    assert_eq!(c.poll_secs, 0);
    assert_eq!(c.char_size, CharSize::Bits5);
    assert_eq!(c.stop_bits, StopBits::Two);
    assert_eq!(c.parity, Parity::Even);
    assert_eq!(c.flow_control, FlowControl::XonXoff);
}

#[test]
fn dtr_and_rts_are_set_independently() {
    for (dtr, rts) in [(true, true), (false, true), (true, false), (false, false)] {
        let mut a = sample_args();
        a.dtr = dtr;
        a.rts = rts;
        let c = resolve(&a).unwrap();
        assert_eq!(c.dtr, dtr);
        assert_eq!(c.rts, rts);
    }
}

#[test]
fn resolve_reports_each_fault() {
    let mut a = sample_args();
    a.char_size = 9;
    assert_eq!(resolve(&a), Err(ConfigError::CharSize(9)));

    let mut a = sample_args();
    a.stop_bits = 0;
    assert_eq!(resolve(&a), Err(ConfigError::StopBits(0)));

    let mut a = sample_args();
    a.set_parity = String::from("none");
    assert_eq!(resolve(&a), Err(ConfigError::Parity(String::from("none"))));

    let mut a = sample_args();
    a.set_flow_control = String::from("Hardware");
    assert_eq!(resolve(&a), Err(ConfigError::FlowControl(String::from("Hardware"))));
}

#[test]
fn resolve_reports_the_first_fault() {
    let mut a = sample_args();
    a.char_size = 4;
    a.stop_bits = 3;
    a.set_parity = String::from("x");
    a.set_flow_control = String::from("y");
    assert_eq!(resolve(&a), Err(ConfigError::CharSize(4)));
    a.char_size = 7;
    assert_eq!(resolve(&a), Err(ConfigError::StopBits(3)));
    a.stop_bits = 2;
    assert_eq!(resolve(&a), Err(ConfigError::Parity(String::from("x"))));
    a.set_parity = String::from("Odd");
    assert_eq!(resolve(&a), Err(ConfigError::FlowControl(String::from("y"))));
}
