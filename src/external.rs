//! Declarations that let verified code name serial2's types.
use vstd::prelude::*;

verus! {

/// serial2's line-setting enums, whose variants verified code matches on.
#[verifier::external_type_specification]
pub struct ExCharSize(serial2::CharSize);

#[verifier::external_type_specification]
pub struct ExStopBits(serial2::StopBits);

#[verifier::external_type_specification]
pub struct ExParity(serial2::Parity);

#[verifier::external_type_specification]
pub struct ExFlowControl(serial2::FlowControl);

/// serial2's port settings, carried through as an opaque value.
#[verifier::external_type_specification]
#[verifier::external_body]
pub struct ExSettings(serial2::Settings);

/// The error of std's I/O, handed back unchanged from serial2.
#[verifier::external_type_specification]
#[verifier::external_body]
pub struct ExIoError(std::io::Error);

/// The baud rate that serial2's `Settings::get_baud_rate` reads from settings.
pub uninterp spec fn settings_baud_rate(s: serial2::Settings) -> u32;

/// The character size that serial2's `Settings::get_char_size` reads from settings.
pub uninterp spec fn settings_char_size(s: serial2::Settings) -> serial2::CharSize;

/// The stop bits that serial2's `Settings::get_stop_bits` reads from settings.
pub uninterp spec fn settings_stop_bits(s: serial2::Settings) -> serial2::StopBits;

/// The parity that serial2's `Settings::get_parity` reads from settings.
pub uninterp spec fn settings_parity(s: serial2::Settings) -> serial2::Parity;

/// The flow control that serial2's `Settings::get_flow_control` reads from settings.
pub uninterp spec fn settings_flow_control(s: serial2::Settings) -> serial2::FlowControl;

/// Relies on serial2's `Settings::set_raw`: it turns off the OS's input and
/// output processing and, as documented, sets 8-bit characters, one stop bit,
/// no parity and no flow control.
pub assume_specification[ serial2::Settings::set_raw ](settings: &mut serial2::Settings)
    ensures
        settings_char_size(*final(settings)) == serial2::CharSize::Bits8,
        settings_stop_bits(*final(settings)) == serial2::StopBits::One,
        settings_parity(*final(settings)) == serial2::Parity::None,
        settings_flow_control(*final(settings)) == serial2::FlowControl::None,
;

/// Relies on serial2's `Settings::set_baud_rate`: on success the settings hold
/// the new rate; a rate that the platform does not support gives an error. It
/// touches only the speed, never the other four line settings.
pub assume_specification[ serial2::Settings::set_baud_rate ](
    settings: &mut serial2::Settings,
    baud_rate: u32,
) -> (r: std::io::Result<()>)
    ensures
        r is Ok ==> settings_baud_rate(*final(settings)) == baud_rate,
        settings_char_size(*final(settings)) == settings_char_size(*old(settings)),
        settings_stop_bits(*final(settings)) == settings_stop_bits(*old(settings)),
        settings_parity(*final(settings)) == settings_parity(*old(settings)),
        settings_flow_control(*final(settings)) == settings_flow_control(*old(settings)),
;

/// Relies on serial2's `Settings::set_char_size`: it sets the character size
/// and touches no other line setting.
pub assume_specification[ serial2::Settings::set_char_size ](
    settings: &mut serial2::Settings,
    char_size: serial2::CharSize,
)
    ensures
        settings_char_size(*final(settings)) == char_size,
        settings_baud_rate(*final(settings)) == settings_baud_rate(*old(settings)),
        settings_stop_bits(*final(settings)) == settings_stop_bits(*old(settings)),
        settings_parity(*final(settings)) == settings_parity(*old(settings)),
        settings_flow_control(*final(settings)) == settings_flow_control(*old(settings)),
;

/// Relies on serial2's `Settings::set_stop_bits`: it sets the stop bits and
/// touches no other line setting.
pub assume_specification[ serial2::Settings::set_stop_bits ](
    settings: &mut serial2::Settings,
    stop_bits: serial2::StopBits,
)
    ensures
        settings_stop_bits(*final(settings)) == stop_bits,
        settings_baud_rate(*final(settings)) == settings_baud_rate(*old(settings)),
        settings_char_size(*final(settings)) == settings_char_size(*old(settings)),
        settings_parity(*final(settings)) == settings_parity(*old(settings)),
        settings_flow_control(*final(settings)) == settings_flow_control(*old(settings)),
;

/// Relies on serial2's `Settings::set_parity`: it sets the parity and touches
/// no other line setting.
pub assume_specification[ serial2::Settings::set_parity ](
    settings: &mut serial2::Settings,
    parity: serial2::Parity,
)
    ensures
        settings_parity(*final(settings)) == parity,
        settings_baud_rate(*final(settings)) == settings_baud_rate(*old(settings)),
        settings_char_size(*final(settings)) == settings_char_size(*old(settings)),
        settings_stop_bits(*final(settings)) == settings_stop_bits(*old(settings)),
        settings_flow_control(*final(settings)) == settings_flow_control(*old(settings)),
;

/// Relies on serial2's `Settings::set_flow_control`: it touches no other line
/// setting, and no flow control and XON/XOFF read back as set. RTS/CTS reads
/// back as set where the platform supports it; where it does not (AIX), the
/// request is only recorded and the value read back stays as it was.
pub assume_specification[ serial2::Settings::set_flow_control ](
    settings: &mut serial2::Settings,
    flow_control: serial2::FlowControl,
)
    ensures
        flow_control != serial2::FlowControl::RtsCts ==> settings_flow_control(*final(settings))
            == flow_control,
        flow_control == serial2::FlowControl::RtsCts ==> (settings_flow_control(*final(settings))
            == flow_control || settings_flow_control(*final(settings)) == settings_flow_control(
            *old(settings))),
        settings_baud_rate(*final(settings)) == settings_baud_rate(*old(settings)),
        settings_char_size(*final(settings)) == settings_char_size(*old(settings)),
        settings_stop_bits(*final(settings)) == settings_stop_bits(*old(settings)),
        settings_parity(*final(settings)) == settings_parity(*old(settings)),
;

} // verus!
