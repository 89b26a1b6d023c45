//! Validation of the raw line settings given on the command line.
use vstd::prelude::*;
use serial2::{CharSize, FlowControl, Parity, Settings, StopBits};
use crate::text::str_equals;
use crate::external::{
    settings_baud_rate, settings_char_size, settings_flow_control, settings_parity, settings_stop_bits,
};

verus! {

/// A raw setting that lies outside the accepted values.
#[derive(Debug, Clone, PartialEq, Eq)]
pub enum ConfigError {
    CharSize(u8),
    StopBits(u8),
    Parity(String),
    FlowControl(String),
}

/// The character size that a raw value names, if it names one.
pub open spec fn char_size_of(n: u8) -> Option<CharSize> {
    if n == 5 {
        Some(CharSize::Bits5)
    } else if n == 6 {
        Some(CharSize::Bits6)
    } else if n == 7 {
        Some(CharSize::Bits7)
    } else if n == 8 {
        Some(CharSize::Bits8)
    } else {
        None
    }
}

/// Maps 5, 6, 7 and 8 to the character size of that many bits.
pub fn parse_char_size(char_size: u8) -> (r: Result<CharSize, ConfigError>)
    ensures
        r == (match char_size_of(char_size) {
            Some(c) => Ok(c),
            None => Err(ConfigError::CharSize(char_size)),
        }),
{
    match char_size {
        5 => Ok(CharSize::Bits5),
        6 => Ok(CharSize::Bits6),
        7 => Ok(CharSize::Bits7),
        8 => Ok(CharSize::Bits8),
        _ => Err(ConfigError::CharSize(char_size)),
    }
}

/// The stop-bit setting that a raw value names, if it names one.
pub open spec fn stop_bits_of(n: u8) -> Option<StopBits> {
    if n == 1 {
        Some(StopBits::One)
    } else if n == 2 {
        Some(StopBits::Two)
    } else {
        None
    }
}

/// Maps 1 and 2 to one and two stop bits.
pub fn parse_stop_bits(stop_bits: u8) -> (r: Result<StopBits, ConfigError>)
    ensures
        r == (match stop_bits_of(stop_bits) {
            Some(b) => Ok(b),
            None => Err(ConfigError::StopBits(stop_bits)),
        }),
{
    match stop_bits {
        1 => Ok(StopBits::One),
        2 => Ok(StopBits::Two),
        _ => Err(ConfigError::StopBits(stop_bits)),
    }
}

/// The parity that a name denotes; names are matched exactly, case included.
pub open spec fn parity_of(s: Seq<char>) -> Option<Parity> {
    if s == "None"@ {
        Some(Parity::None)
    } else if s == "Odd"@ {
        Some(Parity::Odd)
    } else if s == "Even"@ {
        Some(Parity::Even)
    } else {
        None
    }
}

/// Maps "None", "Odd" and "Even" to the parity of that name.
pub fn parse_parity(value: &str) -> (r: Result<Parity, ConfigError>)
    ensures
        r matches Ok(p) ==> parity_of(value@) == Some(p),
        r matches Err(e) ==> (parity_of(value@) is None && (e matches ConfigError::Parity(s)
            && s@ == value@)),
        r is Ok <==> parity_of(value@) is Some,
{
    if str_equals(value, "None") {
        Ok(Parity::None)
    } else if str_equals(value, "Odd") {
        Ok(Parity::Odd)
    } else if str_equals(value, "Even") {
        Ok(Parity::Even)
    } else {
        Err(ConfigError::Parity(value.to_owned()))
    }
}

/// The flow control that a name denotes; names are matched exactly, case included.
pub open spec fn flow_control_of(s: Seq<char>) -> Option<FlowControl> {
    if s == "None"@ {
        Some(FlowControl::None)
    } else if s == "RtsCts"@ {
        Some(FlowControl::RtsCts)
    } else if s == "XonXoff"@ {
        Some(FlowControl::XonXoff)
    } else {
        None
    }
}

/// Maps "None", "RtsCts" and "XonXoff" to the flow control of that name.
pub fn parse_flow_control(value: &str) -> (r: Result<FlowControl, ConfigError>)
    ensures
        r matches Ok(f) ==> flow_control_of(value@) == Some(f),
        r matches Err(e) ==> (flow_control_of(value@) is None && (e matches ConfigError::FlowControl(s)
            && s@ == value@)),
        r is Ok <==> flow_control_of(value@) is Some,
{
    if str_equals(value, "None") {
        Ok(FlowControl::None)
    } else if str_equals(value, "RtsCts") {
        Ok(FlowControl::RtsCts)
    } else if str_equals(value, "XonXoff") {
        Ok(FlowControl::XonXoff)
    } else {
        Err(ConfigError::FlowControl(value.to_owned()))
    }
}

/// A character size is accepted exactly when it lies in 5..=8, and distinct
/// accepted sizes give distinct settings.
pub proof fn lemma_char_size_mapping(a: u8, b: u8)
    ensures
        char_size_of(a) is Some <==> 5 <= a <= 8,
        char_size_of(a) is Some && char_size_of(a) == char_size_of(b) ==> a == b,
{
}

/// A stop-bit count is accepted exactly when it is 1 or 2, and the two give
/// distinct settings.
pub proof fn lemma_stop_bits_mapping(a: u8, b: u8)
    ensures
        stop_bits_of(a) is Some <==> (a == 1 || a == 2),
        stop_bits_of(a) is Some && stop_bits_of(a) == stop_bits_of(b) ==> a == b,
{
}

/// Exactly the names "None", "Odd" and "Even" are accepted, each for its own
/// parity, and every parity has one of them.
pub proof fn lemma_parity_mapping(a: Seq<char>, b: Seq<char>, p: Parity)
    ensures
        parity_of(a) is Some <==> (a == "None"@ || a == "Odd"@ || a == "Even"@),
        parity_of(a) is Some && parity_of(a) == parity_of(b) ==> a == b,
        exists|s: Seq<char>| parity_of(s) == Some(p),
{
    reveal_strlit("None");
    reveal_strlit("Odd");
    reveal_strlit("Even");
    assert("None"@[0] != "Odd"@[0] && "None"@[0] != "Even"@[0] && "Odd"@[0] != "Even"@[0]);
    let s = match p {
        Parity::None => "None"@,
        Parity::Odd => "Odd"@,
        Parity::Even => "Even"@,
    };
    assert(parity_of(s) == Some(p));
}

/// Exactly the names "None", "RtsCts" and "XonXoff" are accepted, each for its
/// own flow control, and every flow control has one of them.
pub proof fn lemma_flow_control_mapping(a: Seq<char>, b: Seq<char>, f: FlowControl)
    ensures
        flow_control_of(a) is Some <==> (a == "None"@ || a == "RtsCts"@ || a == "XonXoff"@),
        flow_control_of(a) is Some && flow_control_of(a) == flow_control_of(b) ==> a == b,
        exists|s: Seq<char>| flow_control_of(s) == Some(f),
{
    reveal_strlit("None");
    reveal_strlit("RtsCts");
    reveal_strlit("XonXoff");
    assert("None"@[0] != "RtsCts"@[0] && "None"@[0] != "XonXoff"@[0] && "RtsCts"@[0] != "XonXoff"@[0]);
    let s = match f {
        FlowControl::None => "None"@,
        FlowControl::RtsCts => "RtsCts"@,
        FlowControl::XonXoff => "XonXoff"@,
    };
    assert(flow_control_of(s) == Some(f));
}

/// The baud rate used when none is given.
pub const DEFAULT_BAUD_RATE: u32 = 11520;

/// The raw values given on the command line, before validation.
#[derive(Debug, Clone, PartialEq, Eq)]
pub struct Args {
    /// Path or name of the serial device.
    pub serial: String,
    /// Whether to put the port in raw mode first.
    pub raw: bool,
    /// Bits per character, 5 to 8.
    pub char_size: u8,
    /// Stop bits, 1 or 2.
    pub stop_bits: u8,
    /// Parity: "None", "Odd" or "Even".
    pub set_parity: String,
    /// Flow control: "None", "RtsCts" or "XonXoff".
    pub set_flow_control: String,
    /// Baud rate.
    pub rate: u32,
    /// Pause between two reads, in seconds.
    pub seconds: u64,
    /// Level of the DTR line once the port is open.
    pub dtr: bool,
    /// Level of the RTS line once the port is open.
    pub rts: bool,
}

/// The validated settings of one port session.
#[derive(Debug, PartialEq, Eq)]
pub struct PortConfig {
    pub port: String,
    pub raw: bool,
    pub char_size: CharSize,
    pub stop_bits: StopBits,
    pub parity: Parity,
    pub flow_control: FlowControl,
    pub baud_rate: u32,
    pub poll_secs: u64,
    pub dtr: bool,
    pub rts: bool,
}

/// Whether all four enumerated settings hold accepted values.
pub open spec fn args_valid(args: Args) -> bool {
    &&& char_size_of(args.char_size) is Some
    &&& stop_bits_of(args.stop_bits) is Some
    &&& parity_of(args.set_parity@) is Some
    &&& flow_control_of(args.set_flow_control@) is Some
}

/// Whether `c` carries exactly the settings that `args` gives.
pub open spec fn describes(c: PortConfig, args: Args) -> bool {
    &&& c.port@ == args.serial@
    &&& c.raw == args.raw
    &&& char_size_of(args.char_size) == Some(c.char_size)
    &&& stop_bits_of(args.stop_bits) == Some(c.stop_bits)
    &&& parity_of(args.set_parity@) == Some(c.parity)
    &&& flow_control_of(args.set_flow_control@) == Some(c.flow_control)
    &&& c.baud_rate == args.rate
    &&& c.poll_secs == args.seconds
    &&& c.dtr == args.dtr
    &&& c.rts == args.rts
}

/// Whether `e` names the first rejected setting, checked in the order
/// character size, stop bits, parity, flow control.
pub open spec fn first_fault(e: ConfigError, args: Args) -> bool {
    if char_size_of(args.char_size) is None {
        e == ConfigError::CharSize(args.char_size)
    } else if stop_bits_of(args.stop_bits) is None {
        e == ConfigError::StopBits(args.stop_bits)
    } else if parity_of(args.set_parity@) is None {
        e matches ConfigError::Parity(s) && s@ == args.set_parity@
    } else {
        flow_control_of(args.set_flow_control@) is None && (e matches ConfigError::FlowControl(s)
            && s@ == args.set_flow_control@)
    }
}

/// Validates the raw values and gathers them into the settings of a session.
pub fn resolve(args: &Args) -> (r: Result<PortConfig, ConfigError>)
    ensures
        r is Ok <==> args_valid(*args),
        r matches Ok(c) ==> describes(c, *args),
        r matches Err(e) ==> first_fault(e, *args),
{
    let char_size = match parse_char_size(args.char_size) {
        Ok(c) => c,
        Err(e) => return Err(e),
    };
    let stop_bits = match parse_stop_bits(args.stop_bits) {
        Ok(b) => b,
        Err(e) => return Err(e),
    };
    let parity = match parse_parity(args.set_parity.as_str()) {
        Ok(p) => p,
        Err(e) => return Err(e),
    };
    let flow_control = match parse_flow_control(args.set_flow_control.as_str()) {
        Ok(f) => f,
        Err(e) => return Err(e),
    };
    Ok(PortConfig {
        port: args.serial.clone(),
        raw: args.raw,
        char_size,
        stop_bits,
        parity,
        flow_control,
        baud_rate: args.rate,
        poll_secs: args.seconds,
        dtr: args.dtr,
        rts: args.rts,
    })
}

/// Whether `s`, made from the settings `before` that were read from the
/// device, carries the line settings of `config`. RTS/CTS flow control is
/// only requested: where the platform lacks it, the flow control stays what
/// it was before, that is none after raw mode, else as read.
pub open spec fn applies(s: Settings, before: Settings, config: PortConfig) -> bool {
    &&& settings_baud_rate(s) == config.baud_rate
    &&& settings_char_size(s) == config.char_size
    &&& settings_stop_bits(s) == config.stop_bits
    &&& settings_parity(s) == config.parity
    &&& if config.flow_control == FlowControl::RtsCts {
        ||| settings_flow_control(s) == FlowControl::RtsCts
        ||| settings_flow_control(s) == (if config.raw {
            FlowControl::None
        } else {
            settings_flow_control(before)
        })
    } else {
        settings_flow_control(s) == config.flow_control
    }
}

/// Settings that `configure` produced for what `resolve` gave carry exactly
/// the requested baud rate and the parsed character size, stop bits and
/// parity, and the parsed flow control where it is not RTS/CTS, which only
/// some platforms support; this holds whether raw mode was asked for or not.
pub proof fn lemma_requested_settings_reach_the_port(
    args: Args,
    c: PortConfig,
    s: Settings,
    before: Settings,
)
    requires
        describes(c, args),
        applies(s, before, c),
    ensures
        settings_baud_rate(s) == args.rate,
        char_size_of(args.char_size) == Some(settings_char_size(s)),
        stop_bits_of(args.stop_bits) == Some(settings_stop_bits(s)),
        parity_of(args.set_parity@) == Some(settings_parity(s)),
        c.flow_control != FlowControl::RtsCts ==> flow_control_of(args.set_flow_control@) == Some(
            settings_flow_control(s),
        ),
{
}

/// Applies a session's line settings to the settings that serial2 read from
/// the device: raw mode first, when asked for, so that the explicit settings
/// after it take precedence over its own; then baud rate, character size,
/// stop bits, parity and flow control. Fails only where the baud rate is refused.
pub fn configure(settings: Settings, config: &PortConfig) -> (r: std::io::Result<Settings>)
    ensures
        r matches Ok(s) ==> applies(s, settings, *config),
{
    let mut settings = settings;
    if config.raw {
        settings.set_raw();
    }
    match settings.set_baud_rate(config.baud_rate) {
        Ok(()) => {},
        Err(e) => return Err(e),
    }
    settings.set_char_size(config.char_size);
    settings.set_stop_bits(config.stop_bits);
    settings.set_parity(config.parity);
    settings.set_flow_control(config.flow_control);
    Ok(settings)
}

} // verus!
