//! Convenience functions for creating values and messages with minimum boilerplate, intended
//! primarily for tests and demos.
//!
//! Each function requires its arguments to be in range.
use crate::channel::Channel;
use crate::control_change_14_bit_message::ControlChange14BitMessage;
use crate::controller_number::ControllerNumber;
use crate::key_number::KeyNumber;
use crate::parameter_number_message::{pn_14_bit, pn_7_bit, DataType, ParameterNumberMessage};
use crate::raw_short_message::RawShortMessage;
use crate::short_message::is_status_byte;
use crate::short_message_factory::{bytes_of, same_message, ShortMessageFactory};
use crate::time_code::{frame_data_byte, TimeCodeQuarterFrame};
use crate::u14::U14;
use crate::u4::U4;
use crate::u7::U7;
use vstd::prelude::*;

verus! {

/// Creates a 4-bit integer.
pub fn u4(value: u8) -> (r: U4)
    requires
        value < 16,
    ensures
        r@ == value,
{
    U4::new(value)
}

/// Creates a 7-bit integer.
pub fn u7(value: u8) -> (r: U7)
    requires
        value < 128,
    ensures
        r@ == value,
{
    U7::new(value)
}

/// Creates a 14-bit integer.
pub fn u14(value: u16) -> (r: U14)
    requires
        value < 16384,
    ensures
        r@ == value,
{
    U14::new(value)
}

/// Creates a channel.
pub fn channel(value: u8) -> (r: Channel)
    requires
        value < 16,
    ensures
        r@ == value,
{
    Channel::new(value)
}

/// Creates a key number.
pub fn key_number(value: u8) -> (r: KeyNumber)
    requires
        value < 128,
    ensures
        r@ == value,
{
    KeyNumber::new(value)
}

/// Creates a controller number.
pub fn controller_number(value: u8) -> (r: ControllerNumber)
    requires
        value < 128,
    ensures
        r@ == value,
{
    ControllerNumber::new(value)
}

/// Creates a short message from raw bytes.
pub fn short(status_byte: u8, data_byte_1: u8, data_byte_2: u8) -> (r: RawShortMessage)
    requires
        is_status_byte(status_byte),
        data_byte_1 < 128,
        data_byte_2 < 128,
    ensures
        same_message(bytes_of(&r), (status_byte, data_byte_1, data_byte_2)),
{
    RawShortMessage::from_bytes_unchecked((status_byte, U7::new(data_byte_1), U7::new(data_byte_2)))
}

/// Creates a Note On message.
pub fn note_on(channel: u8, key_number: u8, velocity: u8) -> (r: RawShortMessage)
    requires
        channel < 16,
        key_number < 128,
        velocity < 128,
    ensures
        same_message(bytes_of(&r), ((0x90 + channel) as u8, key_number, velocity)),
{
    RawShortMessage::note_on(Channel::new(channel), KeyNumber::new(key_number), U7::new(velocity))
}

/// Creates a Note Off message.
pub fn note_off(channel: u8, key_number: u8, velocity: u8) -> (r: RawShortMessage)
    requires
        channel < 16,
        key_number < 128,
        velocity < 128,
    ensures
        same_message(bytes_of(&r), ((0x80 + channel) as u8, key_number, velocity)),
{
    RawShortMessage::note_off(Channel::new(channel), KeyNumber::new(key_number), U7::new(velocity))
}

/// Creates a Control Change message.
pub fn control_change(channel: u8, controller_number: u8, control_value: u8) -> (r: RawShortMessage)
    requires
        channel < 16,
        controller_number < 128,
        control_value < 128,
    ensures
        same_message(bytes_of(&r), ((0xb0 + channel) as u8, controller_number, control_value)),
{
    RawShortMessage::control_change(
        Channel::new(channel),
        ControllerNumber::new(controller_number),
        U7::new(control_value),
    )
}

/// Creates a Polyphonic Key Pressure message.
pub fn polyphonic_key_pressure(channel: u8, key_number: u8, pressure_amount: u8) -> (r:
    RawShortMessage)
    requires
        channel < 16,
        key_number < 128,
        pressure_amount < 128,
    ensures
        same_message(bytes_of(&r), ((0xa0 + channel) as u8, key_number, pressure_amount)),
{
    RawShortMessage::polyphonic_key_pressure(
        Channel::new(channel),
        KeyNumber::new(key_number),
        U7::new(pressure_amount),
    )
}

/// Creates a Program Change message.
pub fn program_change(channel: u8, program_number: u8) -> (r: RawShortMessage)
    requires
        channel < 16,
        program_number < 128,
    ensures
        same_message(bytes_of(&r), ((0xc0 + channel) as u8, program_number, 0)),
{
    RawShortMessage::program_change(Channel::new(channel), U7::new(program_number))
}

/// Creates a Channel Pressure message.
pub fn channel_pressure(channel: u8, pressure_amount: u8) -> (r: RawShortMessage)
    requires
        channel < 16,
        pressure_amount < 128,
    ensures
        same_message(bytes_of(&r), ((0xd0 + channel) as u8, pressure_amount, 0)),
{
    RawShortMessage::channel_pressure(Channel::new(channel), U7::new(pressure_amount))
}

/// Creates a Pitch Bend Change message.
pub fn pitch_bend_change(channel: u8, pitch_bend_value: u16) -> (r: RawShortMessage)
    requires
        channel < 16,
        pitch_bend_value < 16384,
    ensures
        same_message(
            bytes_of(&r),
            (
                (0xe0 + channel) as u8,
                (pitch_bend_value % 128) as u8,
                (pitch_bend_value / 128) as u8,
            ),
        ),
{
    RawShortMessage::pitch_bend_change(Channel::new(channel), U14::new(pitch_bend_value))
}

/// Creates a Time Code Quarter Frame message.
pub fn time_code_quarter_frame(frame: TimeCodeQuarterFrame) -> (r: RawShortMessage)
    ensures
        same_message(bytes_of(&r), (0xf1, frame_data_byte(frame), 0)),
{
    RawShortMessage::time_code_quarter_frame(frame)
}

/// Creates a Song Position Pointer message.
pub fn song_position_pointer(position: u16) -> (r: RawShortMessage)
    requires
        position < 16384,
    ensures
        same_message(bytes_of(&r), (0xf2, (position % 128) as u8, (position / 128) as u8)),
{
    RawShortMessage::song_position_pointer(U14::new(position))
}

/// Creates a Song Select message.
pub fn song_select(song_number: u8) -> (r: RawShortMessage)
    requires
        song_number < 128,
    ensures
        same_message(bytes_of(&r), (0xf3, song_number, 0)),
{
    RawShortMessage::song_select(U7::new(song_number))
}

/// Creates a System Exclusive Start message.
pub fn system_exclusive_start() -> (r: RawShortMessage)
    ensures
        same_message(bytes_of(&r), (0xf0, 0, 0)),
{
    RawShortMessage::system_exclusive_start()
}

/// Creates a Tune Request message.
pub fn tune_request() -> (r: RawShortMessage)
    ensures
        same_message(bytes_of(&r), (0xf6, 0, 0)),
{
    RawShortMessage::tune_request()
}

/// Creates a System Exclusive End message.
pub fn system_exclusive_end() -> (r: RawShortMessage)
    ensures
        same_message(bytes_of(&r), (0xf7, 0, 0)),
{
    RawShortMessage::system_exclusive_end()
}

/// Creates a Timing Clock message.
pub fn timing_clock() -> (r: RawShortMessage)
    ensures
        same_message(bytes_of(&r), (0xf8, 0, 0)),
{
    RawShortMessage::timing_clock()
}

/// Creates a Start message.
pub fn start() -> (r: RawShortMessage)
    ensures
        same_message(bytes_of(&r), (0xfa, 0, 0)),
{
    RawShortMessage::start()
}

/// Creates a Continue message.
pub fn continue_() -> (r: RawShortMessage)
    ensures
        same_message(bytes_of(&r), (0xfb, 0, 0)),
{
    RawShortMessage::continue_()
}

/// Creates a Stop message.
pub fn stop() -> (r: RawShortMessage)
    ensures
        same_message(bytes_of(&r), (0xfc, 0, 0)),
{
    RawShortMessage::stop()
}

/// Creates a Active Sensing message.
pub fn active_sensing() -> (r: RawShortMessage)
    ensures
        same_message(bytes_of(&r), (0xfe, 0, 0)),
{
    RawShortMessage::active_sensing()
}

/// Creates a System Reset message.
pub fn system_reset() -> (r: RawShortMessage)
    ensures
        same_message(bytes_of(&r), (0xff, 0, 0)),
{
    RawShortMessage::system_reset()
}

/// Creates a 14-bit Control Change message.
pub fn control_change_14_bit(channel: u8, msb_controller_number: u8, value: u16) -> (r:
    ControlChange14BitMessage)
    requires
        channel < 16,
        msb_controller_number < 32,
        value < 16384,
    ensures
        r@ == (channel, msb_controller_number, value),
{
    ControlChange14BitMessage::new(
        Channel::new(channel),
        ControllerNumber::new(msb_controller_number),
        U14::new(value),
    )
}

/// Creates a non-registered 7-bit Parameter Number message.
pub fn nrpn(channel: u8, number: u16, value: u8) -> (r: ParameterNumberMessage)
    requires
        channel < 16,
        number < 16384,
        value < 128,
    ensures
        r@ == pn_7_bit(channel, number, value, false, DataType::DataEntry),
{
    ParameterNumberMessage::non_registered_7_bit(
        Channel::new(channel),
        U14::new(number),
        U7::new(value),
    )
}

/// Creates a non-registered 14-bit Parameter Number message.
pub fn nrpn_14_bit(channel: u8, number: u16, value: u16) -> (r: ParameterNumberMessage)
    requires
        channel < 16,
        number < 16384,
        value < 16384,
    ensures
        r@ == pn_14_bit(channel, number, value, false),
{
    ParameterNumberMessage::non_registered_14_bit(
        Channel::new(channel),
        U14::new(number),
        U14::new(value),
    )
}

/// Creates a registered 7-bit Parameter Number message.
pub fn rpn(channel: u8, number: u16, value: u8) -> (r: ParameterNumberMessage)
    requires
        channel < 16,
        number < 16384,
        value < 128,
    ensures
        r@ == pn_7_bit(channel, number, value, true, DataType::DataEntry),
{
    ParameterNumberMessage::registered_7_bit(
        Channel::new(channel),
        U14::new(number),
        U7::new(value),
    )
}

/// Creates a registered 14-bit Parameter Number message.
pub fn rpn_14_bit(channel: u8, number: u16, value: u16) -> (r: ParameterNumberMessage)
    requires
        channel < 16,
        number < 16384,
        value < 16384,
    ensures
        r@ == pn_14_bit(channel, number, value, true),
{
    ParameterNumberMessage::registered_14_bit(
        Channel::new(channel),
        U14::new(number),
        U14::new(value),
    )
}

} // verus!
