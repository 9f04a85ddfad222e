//! A short message as an enum that is convenient for matching.
use crate::bits::{
    build_14_bit_value_from_two_7_bit_values, extract_high_7_bit_value_from_14_bit_value,
    extract_low_7_bit_value_from_14_bit_value,
};
use crate::channel::Channel;
use crate::controller_number::ControllerNumber;
use crate::key_number::KeyNumber;
use crate::short_message::{
    build_status_byte, extract_channel_from_status_byte, extract_type_from_status_byte,
    is_status_byte, ShortMessage, ShortMessageType,
};
use crate::short_message_factory::{kept_data_byte_1, kept_data_byte_2, ShortMessageFactory};
use crate::time_code::{frame_data_byte, TimeCodeQuarterFrame};
use crate::u14::U14;
use crate::u7::U7;
use vstd::prelude::*;

verus! {

/// A short message implemented as an enum where each variant holds exactly the data of its
/// message type.
#[derive(Copy, Clone, Eq, PartialEq, Structural, Ord, PartialOrd, Hash, Debug)]
pub enum StructuredShortMessage {
    // Channel messages
    NoteOff { channel: Channel, key_number: KeyNumber, velocity: U7 },
    NoteOn { channel: Channel, key_number: KeyNumber, velocity: U7 },
    PolyphonicKeyPressure { channel: Channel, key_number: KeyNumber, pressure_amount: U7 },
    ControlChange { channel: Channel, controller_number: ControllerNumber, control_value: U7 },
    ProgramChange { channel: Channel, program_number: U7 },
    ChannelPressure { channel: Channel, pressure_amount: U7 },
    PitchBendChange { channel: Channel, pitch_bend_value: U14 },
    // System Exclusive messages
    SystemExclusiveStart,
    // System Common messages
    TimeCodeQuarterFrame(TimeCodeQuarterFrame),
    SongPositionPointer { position: U14 },
    SongSelect { song_number: U7 },
    TuneRequest,
    SystemExclusiveEnd,
    // System Real Time messages
    TimingClock,
    Start,
    Continue,
    Stop,
    ActiveSensing,
    SystemReset,
    SystemCommonUndefined1,
    SystemCommonUndefined2,
    SystemRealTimeUndefined1,
    SystemRealTimeUndefined2,
}

impl StructuredShortMessage {
    /// The status byte of this message.
    pub open spec fn encoded_status_byte(&self) -> u8 {
        match *self {
            StructuredShortMessage::NoteOff { channel, .. } => (0x80 + channel@) as u8,
            StructuredShortMessage::NoteOn { channel, .. } => (0x90 + channel@) as u8,
            StructuredShortMessage::PolyphonicKeyPressure { channel, .. } => (0xa0
                + channel@) as u8,
            StructuredShortMessage::ControlChange { channel, .. } => (0xb0 + channel@) as u8,
            StructuredShortMessage::ProgramChange { channel, .. } => (0xc0 + channel@) as u8,
            StructuredShortMessage::ChannelPressure { channel, .. } => (0xd0 + channel@) as u8,
            StructuredShortMessage::PitchBendChange { channel, .. } => (0xe0 + channel@) as u8,
            StructuredShortMessage::SystemExclusiveStart => 0xf0,
            StructuredShortMessage::TimeCodeQuarterFrame(_) => 0xf1,
            StructuredShortMessage::SongPositionPointer { .. } => 0xf2,
            StructuredShortMessage::SongSelect { .. } => 0xf3,
            StructuredShortMessage::SystemCommonUndefined1 => 0xf4,
            StructuredShortMessage::SystemCommonUndefined2 => 0xf5,
            StructuredShortMessage::TuneRequest => 0xf6,
            StructuredShortMessage::SystemExclusiveEnd => 0xf7,
            StructuredShortMessage::TimingClock => 0xf8,
            StructuredShortMessage::SystemRealTimeUndefined1 => 0xf9,
            StructuredShortMessage::Start => 0xfa,
            StructuredShortMessage::Continue => 0xfb,
            StructuredShortMessage::Stop => 0xfc,
            StructuredShortMessage::SystemRealTimeUndefined2 => 0xfd,
            StructuredShortMessage::ActiveSensing => 0xfe,
            StructuredShortMessage::SystemReset => 0xff,
        }
    }

    /// The first data byte of this message.
    pub open spec fn encoded_data_byte_1(&self) -> u8 {
        match *self {
            StructuredShortMessage::NoteOff { key_number, .. } => key_number@,
            StructuredShortMessage::NoteOn { key_number, .. } => key_number@,
            StructuredShortMessage::PolyphonicKeyPressure { key_number, .. } => key_number@,
            StructuredShortMessage::ControlChange { controller_number, .. } => controller_number@,
            StructuredShortMessage::ProgramChange { program_number, .. } => program_number@,
            StructuredShortMessage::ChannelPressure { pressure_amount, .. } => pressure_amount@,
            StructuredShortMessage::PitchBendChange { pitch_bend_value, .. } => (pitch_bend_value@
                % 128) as u8,
            StructuredShortMessage::TimeCodeQuarterFrame(frame) => frame_data_byte(frame),
            StructuredShortMessage::SongPositionPointer { position } => (position@ % 128) as u8,
            StructuredShortMessage::SongSelect { song_number } => song_number@,
            _ => 0,
        }
    }

    /// The second data byte of this message.
    pub open spec fn encoded_data_byte_2(&self) -> u8 {
        match *self {
            StructuredShortMessage::NoteOff { velocity, .. } => velocity@,
            StructuredShortMessage::NoteOn { velocity, .. } => velocity@,
            StructuredShortMessage::PolyphonicKeyPressure { pressure_amount, .. } => {
                pressure_amount@
            },
            StructuredShortMessage::ControlChange { control_value, .. } => control_value@,
            StructuredShortMessage::PitchBendChange { pitch_bend_value, .. } => (pitch_bend_value@
                / 128) as u8,
            StructuredShortMessage::SongPositionPointer { position } => (position@ / 128) as u8,
            _ => 0,
        }
    }

    /// Creates the message with the given status byte (which must be valid) and data bytes;
    /// the data bytes that its type does not use are dropped.
    pub fn decode(bytes: (u8, U7, U7)) -> (r: Self)
        requires
            is_status_byte(bytes.0),
        ensures
            r.encoded_status_byte() == bytes.0,
            r.encoded_data_byte_1() == kept_data_byte_1(bytes.0, bytes.1@),
            r.encoded_data_byte_2() == kept_data_byte_2(bytes.0, bytes.2@),
    {
        let (status_byte, data_byte_1, data_byte_2) = bytes;
        let message_type = match extract_type_from_status_byte(status_byte) {
            Ok(t) => t,
            Err(_) => ShortMessageType::SystemReset,
        };
        let d1 = data_byte_1.get();
        let d2 = data_byte_2.get();
        let r = match message_type {
            ShortMessageType::NoteOff => StructuredShortMessage::NoteOff {
                channel: extract_channel_from_status_byte(status_byte),
                key_number: KeyNumber::new(d1),
                velocity: data_byte_2,
            },
            ShortMessageType::NoteOn => StructuredShortMessage::NoteOn {
                channel: extract_channel_from_status_byte(status_byte),
                key_number: KeyNumber::new(d1),
                velocity: data_byte_2,
            },
            ShortMessageType::PolyphonicKeyPressure => {
                StructuredShortMessage::PolyphonicKeyPressure {
                    channel: extract_channel_from_status_byte(status_byte),
                    key_number: KeyNumber::new(d1),
                    pressure_amount: data_byte_2,
                }
            },
            ShortMessageType::ControlChange => StructuredShortMessage::ControlChange {
                channel: extract_channel_from_status_byte(status_byte),
                controller_number: ControllerNumber::new(d1),
                control_value: data_byte_2,
            },
            ShortMessageType::ProgramChange => StructuredShortMessage::ProgramChange {
                channel: extract_channel_from_status_byte(status_byte),
                program_number: data_byte_1,
            },
            ShortMessageType::ChannelPressure => StructuredShortMessage::ChannelPressure {
                channel: extract_channel_from_status_byte(status_byte),
                pressure_amount: data_byte_1,
            },
            ShortMessageType::PitchBendChange => StructuredShortMessage::PitchBendChange {
                channel: extract_channel_from_status_byte(status_byte),
                pitch_bend_value: build_14_bit_value_from_two_7_bit_values(
                    data_byte_2,
                    data_byte_1,
                ),
            },
            ShortMessageType::SystemExclusiveStart => StructuredShortMessage::SystemExclusiveStart,
            ShortMessageType::TimeCodeQuarterFrame => StructuredShortMessage::TimeCodeQuarterFrame(
                TimeCodeQuarterFrame::from_data_byte(data_byte_1),
            ),
            ShortMessageType::SongPositionPointer => StructuredShortMessage::SongPositionPointer {
                position: build_14_bit_value_from_two_7_bit_values(data_byte_2, data_byte_1),
            },
            ShortMessageType::SongSelect => StructuredShortMessage::SongSelect {
                song_number: data_byte_1,
            },
            ShortMessageType::TuneRequest => StructuredShortMessage::TuneRequest,
            ShortMessageType::SystemExclusiveEnd => StructuredShortMessage::SystemExclusiveEnd,
            ShortMessageType::TimingClock => StructuredShortMessage::TimingClock,
            ShortMessageType::Start => StructuredShortMessage::Start,
            ShortMessageType::Continue => StructuredShortMessage::Continue,
            ShortMessageType::Stop => StructuredShortMessage::Stop,
            ShortMessageType::ActiveSensing => StructuredShortMessage::ActiveSensing,
            ShortMessageType::SystemReset => StructuredShortMessage::SystemReset,
            ShortMessageType::SystemCommonUndefined1 => {
                StructuredShortMessage::SystemCommonUndefined1
            },
            ShortMessageType::SystemCommonUndefined2 => {
                StructuredShortMessage::SystemCommonUndefined2
            },
            ShortMessageType::SystemRealTimeUndefined1 => {
                StructuredShortMessage::SystemRealTimeUndefined1
            },
            ShortMessageType::SystemRealTimeUndefined2 => {
                StructuredShortMessage::SystemRealTimeUndefined2
            },
        };
        assert(d2 * 128 + d1 < 16384 && (d2 * 128 + d1) % 128 == d1 && (d2 * 128 + d1) / 128
            == d2) by (nonlinear_arith)
            requires
                d1 < 128,
                d2 < 128,
        ;
        r
    }
}

impl ShortMessage for StructuredShortMessage {
    open spec fn spec_status_byte(&self) -> u8 {
        self.encoded_status_byte()
    }

    open spec fn spec_data_byte_1(&self) -> u8 {
        self.encoded_data_byte_1()
    }

    open spec fn spec_data_byte_2(&self) -> u8 {
        self.encoded_data_byte_2()
    }

    fn status_byte(&self) -> (r: u8) {
        match self {
            StructuredShortMessage::NoteOff { channel, .. } => build_status_byte(
                ShortMessageType::NoteOff.into(),
                *channel,
            ),
            StructuredShortMessage::NoteOn { channel, .. } => build_status_byte(
                ShortMessageType::NoteOn.into(),
                *channel,
            ),
            StructuredShortMessage::PolyphonicKeyPressure { channel, .. } => build_status_byte(
                ShortMessageType::PolyphonicKeyPressure.into(),
                *channel,
            ),
            StructuredShortMessage::ControlChange { channel, .. } => build_status_byte(
                ShortMessageType::ControlChange.into(),
                *channel,
            ),
            StructuredShortMessage::ProgramChange { channel, .. } => build_status_byte(
                ShortMessageType::ProgramChange.into(),
                *channel,
            ),
            StructuredShortMessage::ChannelPressure { channel, .. } => build_status_byte(
                ShortMessageType::ChannelPressure.into(),
                *channel,
            ),
            StructuredShortMessage::PitchBendChange { channel, .. } => build_status_byte(
                ShortMessageType::PitchBendChange.into(),
                *channel,
            ),
            StructuredShortMessage::SystemExclusiveStart => {
                ShortMessageType::SystemExclusiveStart.into()
            },
            StructuredShortMessage::TimeCodeQuarterFrame(_) => {
                ShortMessageType::TimeCodeQuarterFrame.into()
            },
            StructuredShortMessage::SongPositionPointer { .. } => {
                ShortMessageType::SongPositionPointer.into()
            },
            StructuredShortMessage::SongSelect { .. } => ShortMessageType::SongSelect.into(),
            StructuredShortMessage::TuneRequest => ShortMessageType::TuneRequest.into(),
            StructuredShortMessage::SystemExclusiveEnd => {
                ShortMessageType::SystemExclusiveEnd.into()
            },
            StructuredShortMessage::TimingClock => ShortMessageType::TimingClock.into(),
            StructuredShortMessage::Start => ShortMessageType::Start.into(),
            StructuredShortMessage::Continue => ShortMessageType::Continue.into(),
            StructuredShortMessage::Stop => ShortMessageType::Stop.into(),
            StructuredShortMessage::ActiveSensing => ShortMessageType::ActiveSensing.into(),
            StructuredShortMessage::SystemReset => ShortMessageType::SystemReset.into(),
            StructuredShortMessage::SystemCommonUndefined1 => {
                ShortMessageType::SystemCommonUndefined1.into()
            },
            StructuredShortMessage::SystemCommonUndefined2 => {
                ShortMessageType::SystemCommonUndefined2.into()
            },
            StructuredShortMessage::SystemRealTimeUndefined1 => {
                ShortMessageType::SystemRealTimeUndefined1.into()
            },
            StructuredShortMessage::SystemRealTimeUndefined2 => {
                ShortMessageType::SystemRealTimeUndefined2.into()
            },
        }
    }

    fn data_byte_1(&self) -> (r: U7) {
        match self {
            StructuredShortMessage::NoteOff { key_number, .. } => U7::new(key_number.get()),
            StructuredShortMessage::NoteOn { key_number, .. } => U7::new(key_number.get()),
            StructuredShortMessage::PolyphonicKeyPressure { key_number, .. } => U7::new(
                key_number.get(),
            ),
            StructuredShortMessage::ControlChange { controller_number, .. } => U7::new(
                controller_number.get(),
            ),
            StructuredShortMessage::ProgramChange { program_number, .. } => *program_number,
            StructuredShortMessage::ChannelPressure { pressure_amount, .. } => *pressure_amount,
            StructuredShortMessage::PitchBendChange { pitch_bend_value, .. } => {
                extract_low_7_bit_value_from_14_bit_value(*pitch_bend_value)
            },
            StructuredShortMessage::TimeCodeQuarterFrame(frame) => frame.to_data_byte(),
            StructuredShortMessage::SongPositionPointer { position } => {
                extract_low_7_bit_value_from_14_bit_value(*position)
            },
            StructuredShortMessage::SongSelect { song_number } => *song_number,
            _ => U7::new(0),
        }
    }

    fn data_byte_2(&self) -> (r: U7) {
        match self {
            StructuredShortMessage::NoteOff { velocity, .. } => *velocity,
            StructuredShortMessage::NoteOn { velocity, .. } => *velocity,
            StructuredShortMessage::PolyphonicKeyPressure { pressure_amount, .. } => {
                *pressure_amount
            },
            StructuredShortMessage::ControlChange { control_value, .. } => *control_value,
            StructuredShortMessage::PitchBendChange { pitch_bend_value, .. } => {
                extract_high_7_bit_value_from_14_bit_value(*pitch_bend_value)
            },
            StructuredShortMessage::SongPositionPointer { position } => {
                extract_high_7_bit_value_from_14_bit_value(*position)
            },
            _ => U7::new(0),
        }
    }

    fn to_structured(&self) -> (r: StructuredShortMessage) {
        *self
    }
}

impl ShortMessageFactory for StructuredShortMessage {
    fn from_bytes_unchecked(bytes: (u8, U7, U7)) -> (r: Self)
        ensures
            r.spec_status_byte() == bytes.0,
            r.spec_data_byte_1() == kept_data_byte_1(bytes.0, bytes.1@),
            r.spec_data_byte_2() == kept_data_byte_2(bytes.0, bytes.2@),
    {
        StructuredShortMessage::decode(bytes)
    }
}

} // verus!
