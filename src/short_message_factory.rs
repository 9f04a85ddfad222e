//! Creation of short messages.
use crate::bits::{
    extract_high_7_bit_value_from_14_bit_value, extract_low_7_bit_value_from_14_bit_value,
};
use crate::channel::Channel;
use crate::controller_number::ControllerNumber;
use crate::key_number::KeyNumber;
use crate::short_message::{
    build_status_byte, extract_type_from_status_byte, is_status_byte, type_of_status_byte,
    FuzzyMessageSuperType, ShortMessage, ShortMessageType,
};
use crate::time_code::{frame_data_byte, kept_frame_data_byte, TimeCodeQuarterFrame};
use crate::u14::U14;
use crate::u7::U7;
use vstd::prelude::*;

verus! {

/// What a message with status byte `s` keeps of its first data byte `d1`: all of it if its type
/// uses the byte, nothing (zero) otherwise.
pub open spec fn kept_data_byte_1(s: u8, d1: u8) -> u8 {
    match type_of_status_byte(s) {
        ShortMessageType::NoteOff
        | ShortMessageType::NoteOn
        | ShortMessageType::PolyphonicKeyPressure
        | ShortMessageType::ControlChange
        | ShortMessageType::ProgramChange
        | ShortMessageType::ChannelPressure
        | ShortMessageType::PitchBendChange
        | ShortMessageType::SongPositionPointer
        | ShortMessageType::SongSelect => d1,
        ShortMessageType::TimeCodeQuarterFrame => kept_frame_data_byte(d1),
        _ => 0,
    }
}

/// What a message with status byte `s` keeps of its second data byte `d2`: all of it if its
/// type uses the byte, nothing (zero) otherwise.
pub open spec fn kept_data_byte_2(s: u8, d2: u8) -> u8 {
    match type_of_status_byte(s) {
        ShortMessageType::NoteOff
        | ShortMessageType::NoteOn
        | ShortMessageType::PolyphonicKeyPressure
        | ShortMessageType::ControlChange
        | ShortMessageType::PitchBendChange
        | ShortMessageType::SongPositionPointer => d2,
        _ => 0,
    }
}

/// Whether the byte triples `a` and `b` stand for the same message: equal status bytes, and
/// equal in the data bytes that their type uses.
pub open spec fn same_message(a: (u8, u8, u8), b: (u8, u8, u8)) -> bool {
    &&& a.0 == b.0
    &&& kept_data_byte_1(a.0, a.1) == kept_data_byte_1(b.0, b.1)
    &&& kept_data_byte_2(a.0, a.2) == kept_data_byte_2(b.0, b.2)
}

/// The status byte and the two data bytes of a message.
pub open spec fn bytes_of<M: ShortMessage + ?Sized>(m: &M) -> (u8, u8, u8) {
    (m.spec_status_byte(), m.spec_data_byte_1(), m.spec_data_byte_2())
}

/// An error which can occur when trying to create a `ShortMessage` from raw bytes.
#[derive(Clone, Copy, Eq, PartialEq, Debug)]
pub struct FromBytesError(pub(crate) ());

/// Static methods for creating short MIDI messages.
///
/// Implementors provide `from_bytes_unchecked`; the other methods are derived from it.
pub trait ShortMessageFactory: ShortMessage + Sized {
    /// Creates a message from the status byte, data byte 1 and data byte 2, in this order. The
    /// status byte must be valid.
    fn from_bytes_unchecked(bytes: (u8, U7, U7)) -> (r: Self)
        requires
            is_status_byte(bytes.0),
        ensures
            same_message(bytes_of(&r), (bytes.0, bytes.1@, bytes.2@)),
    ;

    /// Creates a message from the status byte, data byte 1 and data byte 2, in this order.
    ///
    /// Returns an error if the status byte is invalid.
    fn from_bytes(bytes: (u8, U7, U7)) -> (r: Result<Self, FromBytesError>)
        ensures
            r is Ok <==> is_status_byte(bytes.0),
            r is Ok ==> same_message(bytes_of(&r->Ok_0), (bytes.0, bytes.1@, bytes.2@)),
    {
        match extract_type_from_status_byte(bytes.0) {
            Ok(_) => Ok(Self::from_bytes_unchecked(bytes)),
            Err(_) => Err(FromBytesError(())),
        }
    }

    /// Creates this message from a message of another type.
    fn from_other<M: ShortMessage>(msg: &M) -> (r: Self)
        ensures
            same_message(bytes_of(&r), bytes_of(msg)),
    {
        Self::from_bytes_unchecked(msg.to_bytes())
    }

    /// Creates a Channel message of the given channel message type.
    fn channel_message(
        message_type: ShortMessageType,
        channel: Channel,
        data_1: U7,
        data_2: U7,
    ) -> (r: Self)
        requires
            message_type.spec_super_type() == FuzzyMessageSuperType::Channel,
        ensures
            same_message(
                bytes_of(&r),
                ((message_type.spec_to_u8() + channel@) as u8, data_1@, data_2@),
            ),
    {
        Self::from_bytes_unchecked(
            (build_status_byte(message_type.into(), channel), data_1, data_2),
        )
    }

    /// Creates a System Common message of the given System Common message type.
    fn system_common_message(message_type: ShortMessageType, data_1: U7, data_2: U7) -> (r: Self)
        requires
            message_type.spec_super_type() == FuzzyMessageSuperType::SystemCommon,
        ensures
            same_message(bytes_of(&r), (message_type.spec_to_u8(), data_1@, data_2@)),
    {
        Self::from_bytes_unchecked((message_type.into(), data_1, data_2))
    }

    /// Creates a System Real Time message of the given System Real Time message type.
    fn system_real_time_message(message_type: ShortMessageType) -> (r: Self)
        requires
            message_type.spec_super_type() == FuzzyMessageSuperType::SystemRealTime,
        ensures
            same_message(bytes_of(&r), (message_type.spec_to_u8(), 0, 0)),
    {
        Self::from_bytes_unchecked((message_type.into(), U7::new(0), U7::new(0)))
    }

    /// Creates a Note On message.
    fn note_on(channel: Channel, key_number: KeyNumber, velocity: U7) -> (r: Self)
        ensures
            same_message(bytes_of(&r), ((0x90 + channel@) as u8, key_number@, velocity@)),
    {
        Self::from_bytes_unchecked(
            (
                build_status_byte(ShortMessageType::NoteOn.into(), channel),
                U7::new(key_number.get()),
                velocity,
            ),
        )
    }

    /// Creates a Note Off message.
    fn note_off(channel: Channel, key_number: KeyNumber, velocity: U7) -> (r: Self)
        ensures
            same_message(bytes_of(&r), ((0x80 + channel@) as u8, key_number@, velocity@)),
    {
        Self::from_bytes_unchecked(
            (
                build_status_byte(ShortMessageType::NoteOff.into(), channel),
                U7::new(key_number.get()),
                velocity,
            ),
        )
    }

    /// Creates a Control Change message.
    fn control_change(
        channel: Channel,
        controller_number: ControllerNumber,
        control_value: U7,
    ) -> (r: Self)
        ensures
            same_message(
                bytes_of(&r),
                ((0xb0 + channel@) as u8, controller_number@, control_value@),
            ),
    {
        Self::from_bytes_unchecked(
            (
                build_status_byte(ShortMessageType::ControlChange.into(), channel),
                U7::new(controller_number.get()),
                control_value,
            ),
        )
    }

    /// Creates a Program Change message.
    fn program_change(channel: Channel, program_number: U7) -> (r: Self)
        ensures
            same_message(bytes_of(&r), ((0xc0 + channel@) as u8, program_number@, 0)),
    {
        Self::from_bytes_unchecked(
            (
                build_status_byte(ShortMessageType::ProgramChange.into(), channel),
                program_number,
                U7::new(0),
            ),
        )
    }

    /// Creates a Polyphonic Key Pressure message.
    fn polyphonic_key_pressure(channel: Channel, key_number: KeyNumber, pressure_amount: U7) -> (r:
        Self)
        ensures
            same_message(bytes_of(&r), ((0xa0 + channel@) as u8, key_number@, pressure_amount@)),
    {
        Self::from_bytes_unchecked(
            (
                build_status_byte(ShortMessageType::PolyphonicKeyPressure.into(), channel),
                U7::new(key_number.get()),
                pressure_amount,
            ),
        )
    }

    /// Creates a Channel Pressure message.
    fn channel_pressure(channel: Channel, pressure_amount: U7) -> (r: Self)
        ensures
            same_message(bytes_of(&r), ((0xd0 + channel@) as u8, pressure_amount@, 0)),
    {
        Self::from_bytes_unchecked(
            (
                build_status_byte(ShortMessageType::ChannelPressure.into(), channel),
                pressure_amount,
                U7::new(0),
            ),
        )
    }

    /// Creates a Pitch Bend Change message: the least significant 7 bits of the value go first.
    fn pitch_bend_change(channel: Channel, pitch_bend_value: U14) -> (r: Self)
        ensures
            same_message(
                bytes_of(&r),
                (
                    (0xe0 + channel@) as u8,
                    (pitch_bend_value@ % 128) as u8,
                    (pitch_bend_value@ / 128) as u8,
                ),
            ),
    {
        Self::from_bytes_unchecked(
            (
                build_status_byte(ShortMessageType::PitchBendChange.into(), channel),
                extract_low_7_bit_value_from_14_bit_value(pitch_bend_value),
                extract_high_7_bit_value_from_14_bit_value(pitch_bend_value),
            ),
        )
    }

    /// Creates the start of a System Exclusive message.
    fn system_exclusive_start() -> (r: Self)
        ensures
            same_message(bytes_of(&r), (0xf0, 0, 0)),
    {
        Self::from_bytes_unchecked(
            (ShortMessageType::SystemExclusiveStart.into(), U7::new(0), U7::new(0)),
        )
    }

    /// Creates a MIDI Time Code Quarter Frame message.
    fn time_code_quarter_frame(frame: TimeCodeQuarterFrame) -> (r: Self)
        ensures
            same_message(bytes_of(&r), (0xf1, frame_data_byte(frame), 0)),
    {
        Self::from_bytes_unchecked(
            (ShortMessageType::TimeCodeQuarterFrame.into(), frame.to_data_byte(), U7::new(0)),
        )
    }

    /// Creates a Song Position Pointer message: the least significant 7 bits go first.
    fn song_position_pointer(position: U14) -> (r: Self)
        ensures
            same_message(
                bytes_of(&r),
                (0xf2, (position@ % 128) as u8, (position@ / 128) as u8),
            ),
    {
        Self::from_bytes_unchecked(
            (
                ShortMessageType::SongPositionPointer.into(),
                extract_low_7_bit_value_from_14_bit_value(position),
                extract_high_7_bit_value_from_14_bit_value(position),
            ),
        )
    }

    /// Creates a Song Select message.
    fn song_select(song_number: U7) -> (r: Self)
        ensures
            same_message(bytes_of(&r), (0xf3, song_number@, 0)),
    {
        Self::from_bytes_unchecked((ShortMessageType::SongSelect.into(), song_number, U7::new(0)))
    }

    /// Creates a Tune Request message.
    fn tune_request() -> (r: Self)
        ensures
            same_message(bytes_of(&r), (0xf6, 0, 0)),
    {
        Self::from_bytes_unchecked((ShortMessageType::TuneRequest.into(), U7::new(0), U7::new(0)))
    }

    /// Creates the end of a System Exclusive message.
    fn system_exclusive_end() -> (r: Self)
        ensures
            same_message(bytes_of(&r), (0xf7, 0, 0)),
    {
        Self::from_bytes_unchecked(
            (ShortMessageType::SystemExclusiveEnd.into(), U7::new(0), U7::new(0)),
        )
    }

    /// Creates a Timing Clock message.
    fn timing_clock() -> (r: Self)
        ensures
            same_message(bytes_of(&r), (0xf8, 0, 0)),
    {
        Self::from_bytes_unchecked((ShortMessageType::TimingClock.into(), U7::new(0), U7::new(0)))
    }

    /// Creates a Start message.
    fn start() -> (r: Self)
        ensures
            same_message(bytes_of(&r), (0xfa, 0, 0)),
    {
        Self::from_bytes_unchecked((ShortMessageType::Start.into(), U7::new(0), U7::new(0)))
    }

    /// Creates a Continue message.
    fn continue_() -> (r: Self)
        ensures
            same_message(bytes_of(&r), (0xfb, 0, 0)),
    {
        Self::from_bytes_unchecked((ShortMessageType::Continue.into(), U7::new(0), U7::new(0)))
    }

    /// Creates a Stop message.
    fn stop() -> (r: Self)
        ensures
            same_message(bytes_of(&r), (0xfc, 0, 0)),
    {
        Self::from_bytes_unchecked((ShortMessageType::Stop.into(), U7::new(0), U7::new(0)))
    }

    /// Creates an Active Sensing message.
    fn active_sensing() -> (r: Self)
        ensures
            same_message(bytes_of(&r), (0xfe, 0, 0)),
    {
        Self::from_bytes_unchecked(
            (ShortMessageType::ActiveSensing.into(), U7::new(0), U7::new(0)),
        )
    }

    /// Creates a System Reset message.
    fn system_reset() -> (r: Self)
        ensures
            same_message(bytes_of(&r), (0xff, 0, 0)),
    {
        Self::from_bytes_unchecked((ShortMessageType::SystemReset.into(), U7::new(0), U7::new(0)))
    }
}

} // verus!
