//! The short message abstraction: a MIDI message of at most 3 bytes, and its classification.
use crate::bits::{build_14_bit_value_from_two_7_bit_values, join_7_bit, opt_view};
use crate::channel::Channel;
use crate::controller_number::{is_channel_mode_controller, ControllerNumber};
use crate::key_number::KeyNumber;
use crate::short_message_factory::same_message;
use crate::structured_short_message::StructuredShortMessage;
use crate::u14::U14;
use crate::u7::U7;
use vstd::prelude::*;

verus! {

/// The most fine-grained classification of short MIDI messages.
///
/// Each variant corresponds to a `u8` (see `From<ShortMessageType> for u8`): for channel
/// messages the status byte with channel 0, for system messages the complete status byte.
#[derive(Copy, Clone, Eq, PartialEq, Structural, Ord, PartialOrd, Hash, Debug)]
pub enum ShortMessageType {
    NoteOff,
    NoteOn,
    PolyphonicKeyPressure,
    ControlChange,
    ProgramChange,
    ChannelPressure,
    PitchBendChange,
    SystemExclusiveStart,
    TimeCodeQuarterFrame,
    SongPositionPointer,
    SongSelect,
    SystemCommonUndefined1,
    SystemCommonUndefined2,
    TuneRequest,
    SystemExclusiveEnd,
    TimingClock,
    SystemRealTimeUndefined1,
    Start,
    Continue,
    Stop,
    SystemRealTimeUndefined2,
    ActiveSensing,
    SystemReset,
}

/// Like `MessageSuperType` but without the distinction between channel voice and channel mode
/// messages, which needs the controller number.
#[derive(Copy, Clone, Eq, PartialEq, Structural, Hash, Debug)]
pub enum FuzzyMessageSuperType {
    Channel,
    SystemCommon,
    SystemRealTime,
    SystemExclusive,
}

/// A more coarse-grained classification of MIDI messages than `ShortMessageType`.
#[derive(Copy, Clone, Eq, PartialEq, Structural, Hash, Debug)]
pub enum MessageSuperType {
    /// Musical performance information.
    ChannelVoice,
    /// Messages which affect the way a synthesizer responds to MIDI data.
    ChannelMode,
    /// Messages intended for all receivers in the system.
    SystemCommon,
    /// Synchronization between clock-based MIDI components.
    SystemRealTime,
    /// Manufacturer-specific data.
    SystemExclusive,
}

/// The most high-level classification of MIDI messages.
#[derive(Copy, Clone, Eq, PartialEq, Structural, Hash, Debug)]
pub enum MessageMainCategory {
    /// Messages which apply to a specific channel.
    Channel,
    /// Messages which are not channel-specific.
    System,
}

/// The message type that status byte `s` (at least 0x80) encodes.
pub open spec fn type_of_status_byte(s: u8) -> ShortMessageType {
    if s < 0x90 {
        ShortMessageType::NoteOff
    } else if s < 0xa0 {
        ShortMessageType::NoteOn
    } else if s < 0xb0 {
        ShortMessageType::PolyphonicKeyPressure
    } else if s < 0xc0 {
        ShortMessageType::ControlChange
    } else if s < 0xd0 {
        ShortMessageType::ProgramChange
    } else if s < 0xe0 {
        ShortMessageType::ChannelPressure
    } else if s < 0xf0 {
        ShortMessageType::PitchBendChange
    } else if s == 0xf0 {
        ShortMessageType::SystemExclusiveStart
    } else if s == 0xf1 {
        ShortMessageType::TimeCodeQuarterFrame
    } else if s == 0xf2 {
        ShortMessageType::SongPositionPointer
    } else if s == 0xf3 {
        ShortMessageType::SongSelect
    } else if s == 0xf4 {
        ShortMessageType::SystemCommonUndefined1
    } else if s == 0xf5 {
        ShortMessageType::SystemCommonUndefined2
    } else if s == 0xf6 {
        ShortMessageType::TuneRequest
    } else if s == 0xf7 {
        ShortMessageType::SystemExclusiveEnd
    } else if s == 0xf8 {
        ShortMessageType::TimingClock
    } else if s == 0xf9 {
        ShortMessageType::SystemRealTimeUndefined1
    } else if s == 0xfa {
        ShortMessageType::Start
    } else if s == 0xfb {
        ShortMessageType::Continue
    } else if s == 0xfc {
        ShortMessageType::Stop
    } else if s == 0xfd {
        ShortMessageType::SystemRealTimeUndefined2
    } else if s == 0xfe {
        ShortMessageType::ActiveSensing
    } else {
        ShortMessageType::SystemReset
    }
}

/// Whether `s` is a status byte, i.e. has its highest bit set.
pub open spec fn is_status_byte(s: u8) -> bool {
    s >= 0x80
}

impl ShortMessageType {
    /// `u8` representation of the first message type.
    pub const MIN: u8 = 0x80;

    /// `u8` representation of the last message type.
    pub const MAX: u8 = 0xFF;

    /// The `u8` representation of this type.
    pub open spec fn spec_to_u8(self) -> u8 {
        match self {
            ShortMessageType::NoteOff => 0x80,
            ShortMessageType::NoteOn => 0x90,
            ShortMessageType::PolyphonicKeyPressure => 0xa0,
            ShortMessageType::ControlChange => 0xb0,
            ShortMessageType::ProgramChange => 0xc0,
            ShortMessageType::ChannelPressure => 0xd0,
            ShortMessageType::PitchBendChange => 0xe0,
            ShortMessageType::SystemExclusiveStart => 0xf0,
            ShortMessageType::TimeCodeQuarterFrame => 0xf1,
            ShortMessageType::SongPositionPointer => 0xf2,
            ShortMessageType::SongSelect => 0xf3,
            ShortMessageType::SystemCommonUndefined1 => 0xf4,
            ShortMessageType::SystemCommonUndefined2 => 0xf5,
            ShortMessageType::TuneRequest => 0xf6,
            ShortMessageType::SystemExclusiveEnd => 0xf7,
            ShortMessageType::TimingClock => 0xf8,
            ShortMessageType::SystemRealTimeUndefined1 => 0xf9,
            ShortMessageType::Start => 0xfa,
            ShortMessageType::Continue => 0xfb,
            ShortMessageType::Stop => 0xfc,
            ShortMessageType::SystemRealTimeUndefined2 => 0xfd,
            ShortMessageType::ActiveSensing => 0xfe,
            ShortMessageType::SystemReset => 0xff,
        }
    }

    /// The fuzzy super type of this type.
    pub open spec fn spec_super_type(self) -> FuzzyMessageSuperType {
        match self {
            ShortMessageType::NoteOff
            | ShortMessageType::NoteOn
            | ShortMessageType::PolyphonicKeyPressure
            | ShortMessageType::ControlChange
            | ShortMessageType::ProgramChange
            | ShortMessageType::ChannelPressure
            | ShortMessageType::PitchBendChange => FuzzyMessageSuperType::Channel,
            ShortMessageType::SystemExclusiveStart => FuzzyMessageSuperType::SystemExclusive,
            ShortMessageType::TimeCodeQuarterFrame
            | ShortMessageType::SongPositionPointer
            | ShortMessageType::SongSelect
            | ShortMessageType::SystemCommonUndefined1
            | ShortMessageType::SystemCommonUndefined2
            | ShortMessageType::TuneRequest
            | ShortMessageType::SystemExclusiveEnd => FuzzyMessageSuperType::SystemCommon,
            _ => FuzzyMessageSuperType::SystemRealTime,
        }
    }

    /// Returns the corresponding fuzzy super type.
    pub fn super_type(&self) -> (r: FuzzyMessageSuperType)
        ensures
            r == self.spec_super_type(),
    {
        match self {
            ShortMessageType::NoteOff
            | ShortMessageType::NoteOn
            | ShortMessageType::PolyphonicKeyPressure
            | ShortMessageType::ControlChange
            | ShortMessageType::ProgramChange
            | ShortMessageType::ChannelPressure
            | ShortMessageType::PitchBendChange => FuzzyMessageSuperType::Channel,
            ShortMessageType::SystemExclusiveStart => FuzzyMessageSuperType::SystemExclusive,
            ShortMessageType::TimeCodeQuarterFrame
            | ShortMessageType::SongPositionPointer
            | ShortMessageType::SongSelect
            | ShortMessageType::SystemCommonUndefined1
            | ShortMessageType::SystemCommonUndefined2
            | ShortMessageType::TuneRequest
            | ShortMessageType::SystemExclusiveEnd => FuzzyMessageSuperType::SystemCommon,
            _ => FuzzyMessageSuperType::SystemRealTime,
        }
    }
}

impl vstd::std_specs::convert::FromSpecImpl<ShortMessageType> for u8 {
    open spec fn obeys_from_spec() -> bool {
        true
    }

    open spec fn from_spec(t: ShortMessageType) -> u8 {
        t.spec_to_u8()
    }
}

impl From<ShortMessageType> for u8 {
    fn from(t: ShortMessageType) -> (r: u8)
        ensures
            r == t.spec_to_u8(),
    {
        match t {
            ShortMessageType::NoteOff => 0x80,
            ShortMessageType::NoteOn => 0x90,
            ShortMessageType::PolyphonicKeyPressure => 0xa0,
            ShortMessageType::ControlChange => 0xb0,
            ShortMessageType::ProgramChange => 0xc0,
            ShortMessageType::ChannelPressure => 0xd0,
            ShortMessageType::PitchBendChange => 0xe0,
            ShortMessageType::SystemExclusiveStart => 0xf0,
            ShortMessageType::TimeCodeQuarterFrame => 0xf1,
            ShortMessageType::SongPositionPointer => 0xf2,
            ShortMessageType::SongSelect => 0xf3,
            ShortMessageType::SystemCommonUndefined1 => 0xf4,
            ShortMessageType::SystemCommonUndefined2 => 0xf5,
            ShortMessageType::TuneRequest => 0xf6,
            ShortMessageType::SystemExclusiveEnd => 0xf7,
            ShortMessageType::TimingClock => 0xf8,
            ShortMessageType::SystemRealTimeUndefined1 => 0xf9,
            ShortMessageType::Start => 0xfa,
            ShortMessageType::Continue => 0xfb,
            ShortMessageType::Stop => 0xfc,
            ShortMessageType::SystemRealTimeUndefined2 => 0xfd,
            ShortMessageType::ActiveSensing => 0xfe,
            ShortMessageType::SystemReset => 0xff,
        }
    }
}

/// Whether `b` is the `u8` representation of a message type: a status byte with channel 0 for
/// channel message types, any system status byte otherwise.
pub open spec fn is_type_byte(b: u8) -> bool {
    b >= 0xf0 || (b >= 0x80 && b % 16 == 0)
}

impl vstd::std_specs::convert::TryFromSpecImpl<u8> for ShortMessageType {
    open spec fn obeys_try_from_spec() -> bool {
        true
    }

    open spec fn try_from_spec(b: u8) -> Result<ShortMessageType, InvalidStatusByteError> {
        if is_type_byte(b) {
            Ok(type_of_status_byte(b))
        } else {
            Err(InvalidStatusByteError)
        }
    }
}

impl TryFrom<u8> for ShortMessageType {
    type Error = InvalidStatusByteError;

    fn try_from(b: u8) -> (r: Result<ShortMessageType, InvalidStatusByteError>)
        ensures
            r is Ok <==> is_type_byte(b),
            r is Ok ==> r->Ok_0 == type_of_status_byte(b) && r->Ok_0.spec_to_u8() == b,
    {
        if b >= 0xf0 || (b >= 0x80 && b % 16 == 0) {
            Ok(extract_type_from_status_byte_infallible(b))
        } else {
            Err(InvalidStatusByteError)
        }
    }
}

impl FuzzyMessageSuperType {
    /// The main category of this super type.
    pub open spec fn spec_main_category(self) -> MessageMainCategory {
        if self == FuzzyMessageSuperType::Channel {
            MessageMainCategory::Channel
        } else {
            MessageMainCategory::System
        }
    }

    /// Returns the corresponding main category.
    pub fn main_category(&self) -> (r: MessageMainCategory)
        ensures
            r == self.spec_main_category(),
    {
        match self {
            FuzzyMessageSuperType::Channel => MessageMainCategory::Channel,
            _ => MessageMainCategory::System,
        }
    }
}

impl MessageSuperType {
    /// The main category of this super type.
    pub open spec fn spec_main_category(self) -> MessageMainCategory {
        match self {
            MessageSuperType::ChannelVoice | MessageSuperType::ChannelMode => {
                MessageMainCategory::Channel
            },
            _ => MessageMainCategory::System,
        }
    }

    /// Returns the corresponding main category.
    pub fn main_category(&self) -> (r: MessageMainCategory)
        ensures
            r == self.spec_main_category(),
    {
        match self {
            MessageSuperType::ChannelVoice | MessageSuperType::ChannelMode => {
                MessageMainCategory::Channel
            },
            _ => MessageMainCategory::System,
        }
    }
}

/// The super type of a message with status byte `s` and first data byte `d1`: a Control Change
/// message is a Channel Mode message if its controller number is a channel mode one.
pub open spec fn super_type_of(s: u8, d1: u8) -> MessageSuperType {
    match type_of_status_byte(s).spec_super_type() {
        FuzzyMessageSuperType::Channel => if type_of_status_byte(s)
            == ShortMessageType::ControlChange && is_channel_mode_controller(d1) {
            MessageSuperType::ChannelMode
        } else {
            MessageSuperType::ChannelVoice
        },
        FuzzyMessageSuperType::SystemCommon => MessageSuperType::SystemCommon,
        FuzzyMessageSuperType::SystemRealTime => MessageSuperType::SystemRealTime,
        FuzzyMessageSuperType::SystemExclusive => MessageSuperType::SystemExclusive,
    }
}

/// The channel of a message with status byte `s`, if it is a channel message.
pub open spec fn channel_of(s: u8) -> Option<u8> {
    if s < 0xf0 {
        Some(s % 16)
    } else {
        None
    }
}

/// The key number of a message, if it has one.
pub open spec fn key_number_of(s: u8, d1: u8) -> Option<u8> {
    match type_of_status_byte(s) {
        ShortMessageType::NoteOff
        | ShortMessageType::NoteOn
        | ShortMessageType::PolyphonicKeyPressure => Some(d1),
        _ => None,
    }
}

/// The velocity of a message, if it has one.
pub open spec fn velocity_of(s: u8, d2: u8) -> Option<u8> {
    match type_of_status_byte(s) {
        ShortMessageType::NoteOff | ShortMessageType::NoteOn => Some(d2),
        _ => None,
    }
}

/// The controller number of a message, if it is a Control Change message.
pub open spec fn controller_number_of(s: u8, d1: u8) -> Option<u8> {
    if type_of_status_byte(s) == ShortMessageType::ControlChange {
        Some(d1)
    } else {
        None
    }
}

/// The control value of a message, if it is a Control Change message.
pub open spec fn control_value_of(s: u8, d2: u8) -> Option<u8> {
    if type_of_status_byte(s) == ShortMessageType::ControlChange {
        Some(d2)
    } else {
        None
    }
}

/// The program number of a message, if it is a Program Change message.
pub open spec fn program_number_of(s: u8, d1: u8) -> Option<u8> {
    if type_of_status_byte(s) == ShortMessageType::ProgramChange {
        Some(d1)
    } else {
        None
    }
}

/// The pressure amount of a message, if it has one.
pub open spec fn pressure_amount_of(s: u8, d1: u8, d2: u8) -> Option<u8> {
    match type_of_status_byte(s) {
        ShortMessageType::PolyphonicKeyPressure => Some(d2),
        ShortMessageType::ChannelPressure => Some(d1),
        _ => None,
    }
}

/// The pitch bend value of a message (`d2` is its most significant half), if it is a Pitch
/// Bend Change message.
pub open spec fn pitch_bend_value_of(s: u8, d1: u8, d2: u8) -> Option<u16> {
    if type_of_status_byte(s) == ShortMessageType::PitchBendChange {
        Some(join_7_bit(d2 as int, d1 as int) as u16)
    } else {
        None
    }
}

/// Whether a message is a note-on in a practical sense: a Note On with a velocity above zero.
pub open spec fn is_note_on_of(s: u8, d2: u8) -> bool {
    type_of_status_byte(s) == ShortMessageType::NoteOn && d2 > 0
}

/// Whether a message is a note-off in a practical sense: a Note Off, or a Note On with a
/// velocity of zero.
pub open spec fn is_note_off_of(s: u8, d2: u8) -> bool {
    type_of_status_byte(s) == ShortMessageType::NoteOff || (type_of_status_byte(s)
        == ShortMessageType::NoteOn && d2 == 0)
}

/// A single short MIDI message, made up of a status byte and two 7-bit data bytes.
///
/// Implementors provide the three bytes; everything else is derived from them. The status byte
/// of every message is a valid one (its highest bit is set).
pub trait ShortMessage {
    /// The status byte of this message.
    spec fn spec_status_byte(&self) -> u8;

    /// The first data byte of this message.
    spec fn spec_data_byte_1(&self) -> u8;

    /// The second data byte of this message.
    spec fn spec_data_byte_2(&self) -> u8;

    /// Returns the status byte.
    fn status_byte(&self) -> (r: u8)
        ensures
            r == self.spec_status_byte(),
            is_status_byte(r),
    ;

    /// Returns the first data byte.
    fn data_byte_1(&self) -> (r: U7)
        ensures
            r@ == self.spec_data_byte_1(),
    ;

    /// Returns the second data byte.
    fn data_byte_2(&self) -> (r: U7)
        ensures
            r@ == self.spec_data_byte_2(),
    ;

    /// Returns the status byte and the two data bytes as a tuple.
    fn to_bytes(&self) -> (r: (u8, U7, U7))
        ensures
            r.0 == self.spec_status_byte(),
            r.1@ == self.spec_data_byte_1(),
            r.2@ == self.spec_data_byte_2(),
            is_status_byte(r.0),
    {
        (self.status_byte(), self.data_byte_1(), self.data_byte_2())
    }

    /// Converts this message to a `StructuredShortMessage`, which is ideal for matching.
    fn to_structured(&self) -> (r: StructuredShortMessage)
        ensures
            same_message(
                (r.encoded_status_byte(), r.encoded_data_byte_1(), r.encoded_data_byte_2()),
                (self.spec_status_byte(), self.spec_data_byte_1(), self.spec_data_byte_2()),
            ),
    {
        StructuredShortMessage::decode(self.to_bytes())
    }

    /// Returns the type of this message.
    fn message_type(&self) -> (r: ShortMessageType)
        ensures
            r == type_of_status_byte(self.spec_status_byte()),
    {
        extract_type_from_status_byte_infallible(self.status_byte())
    }

    /// Returns the super type of this message.
    fn super_type(&self) -> (r: MessageSuperType)
        ensures
            r == super_type_of(self.spec_status_byte(), self.spec_data_byte_1()),
    {
        let t = self.message_type();
        match t.super_type() {
            FuzzyMessageSuperType::Channel => {
                let is_cc = match t {
                    ShortMessageType::ControlChange => true,
                    _ => false,
                };
                let cn = ControllerNumber::new(self.data_byte_1().get());
                if is_cc && cn.is_channel_mode_message_controller_number() {
                    MessageSuperType::ChannelMode
                } else {
                    MessageSuperType::ChannelVoice
                }
            },
            FuzzyMessageSuperType::SystemCommon => MessageSuperType::SystemCommon,
            FuzzyMessageSuperType::SystemRealTime => MessageSuperType::SystemRealTime,
            FuzzyMessageSuperType::SystemExclusive => MessageSuperType::SystemExclusive,
        }
    }

    /// Returns the main category of this message.
    fn main_category(&self) -> (r: MessageMainCategory)
        ensures
            r == super_type_of(
                self.spec_status_byte(),
                self.spec_data_byte_1(),
            ).spec_main_category(),
    {
        self.super_type().main_category()
    }

    /// Returns whether this message is a Note On with a velocity above zero.
    fn is_note_on(&self) -> (r: bool)
        ensures
            r == is_note_on_of(self.spec_status_byte(), self.spec_data_byte_2()),
    {
        match self.message_type() {
            ShortMessageType::NoteOn => self.data_byte_2().get() > 0,
            _ => false,
        }
    }

    /// Returns whether this message is a Note Off, or a Note On with a velocity of zero.
    fn is_note_off(&self) -> (r: bool)
        ensures
            r == is_note_off_of(self.spec_status_byte(), self.spec_data_byte_2()),
    {
        match self.message_type() {
            ShortMessageType::NoteOff => true,
            ShortMessageType::NoteOn => self.data_byte_2().get() == 0,
            _ => false,
        }
    }

    /// Returns whether this message is a Note On or a Note Off.
    fn is_note(&self) -> (r: bool)
        ensures
            r == (type_of_status_byte(self.spec_status_byte()) == ShortMessageType::NoteOn
                || type_of_status_byte(self.spec_status_byte()) == ShortMessageType::NoteOff),
    {
        match self.message_type() {
            ShortMessageType::NoteOn | ShortMessageType::NoteOff => true,
            _ => false,
        }
    }

    /// Returns the channel of this message if it is a channel message.
    fn channel(&self) -> (r: Option<Channel>)
        ensures
            opt_view(r) == channel_of(self.spec_status_byte()),
    {
        let s = self.status_byte();
        if s >= 0xf0 {
            return None;
        }
        Some(extract_channel_from_status_byte(s))
    }

    /// Returns the key number of this message if applicable.
    fn key_number(&self) -> (r: Option<KeyNumber>)
        ensures
            opt_view(r) == key_number_of(self.spec_status_byte(), self.spec_data_byte_1()),
    {
        match self.message_type() {
            ShortMessageType::NoteOff
            | ShortMessageType::NoteOn
            | ShortMessageType::PolyphonicKeyPressure => Some(
                KeyNumber::new(self.data_byte_1().get()),
            ),
            _ => None,
        }
    }

    /// Returns the velocity of this message if applicable.
    fn velocity(&self) -> (r: Option<U7>)
        ensures
            opt_view(r) == velocity_of(self.spec_status_byte(), self.spec_data_byte_2()),
    {
        match self.message_type() {
            ShortMessageType::NoteOff | ShortMessageType::NoteOn => Some(self.data_byte_2()),
            _ => None,
        }
    }

    /// Returns the controller number of this message if it is a Control Change message.
    fn controller_number(&self) -> (r: Option<ControllerNumber>)
        ensures
            opt_view(r) == controller_number_of(self.spec_status_byte(), self.spec_data_byte_1()),
    {
        match self.message_type() {
            ShortMessageType::ControlChange => Some(
                ControllerNumber::new(self.data_byte_1().get()),
            ),
            _ => None,
        }
    }

    /// Returns the control value of this message if it is a Control Change message.
    fn control_value(&self) -> (r: Option<U7>)
        ensures
            opt_view(r) == control_value_of(self.spec_status_byte(), self.spec_data_byte_2()),
    {
        match self.message_type() {
            ShortMessageType::ControlChange => Some(self.data_byte_2()),
            _ => None,
        }
    }

    /// Returns the program number of this message if it is a Program Change message.
    fn program_number(&self) -> (r: Option<U7>)
        ensures
            opt_view(r) == program_number_of(self.spec_status_byte(), self.spec_data_byte_1()),
    {
        match self.message_type() {
            ShortMessageType::ProgramChange => Some(self.data_byte_1()),
            _ => None,
        }
    }

    /// Returns the pressure amount of this message if applicable.
    fn pressure_amount(&self) -> (r: Option<U7>)
        ensures
            opt_view(r) == pressure_amount_of(
                self.spec_status_byte(),
                self.spec_data_byte_1(),
                self.spec_data_byte_2(),
            ),
    {
        match self.message_type() {
            ShortMessageType::PolyphonicKeyPressure => Some(self.data_byte_2()),
            ShortMessageType::ChannelPressure => Some(self.data_byte_1()),
            _ => None,
        }
    }

    /// Returns the pitch bend value of this message if it is a Pitch Bend Change message.
    fn pitch_bend_value(&self) -> (r: Option<U14>)
        ensures
            opt_view(r) == pitch_bend_value_of(
                self.spec_status_byte(),
                self.spec_data_byte_1(),
                self.spec_data_byte_2(),
            ),
    {
        match self.message_type() {
            ShortMessageType::PitchBendChange => Some(
                build_14_bit_value_from_two_7_bit_values(self.data_byte_2(), self.data_byte_1()),
            ),
            _ => None,
        }
    }
}

/// An error which can be returned when trying to create a `ShortMessage` from raw bytes.
#[derive(Debug, Clone, Copy, Eq, PartialEq, Structural)]
pub struct InvalidStatusByteError;

/// Returns the type of the message with the given status byte, or an error if it is no status
/// byte.
pub fn extract_type_from_status_byte(status_byte: u8) -> (r: Result<
    ShortMessageType,
    InvalidStatusByteError,
>)
    ensures
        r is Ok <==> is_status_byte(status_byte),
        r is Ok ==> r->Ok_0 == type_of_status_byte(status_byte),
{
    if status_byte < 0x80 {
        return Err(InvalidStatusByteError);
    }
    Ok(extract_type_from_status_byte_infallible(status_byte))
}

/// Returns the type of the message with the given status byte.
fn extract_type_from_status_byte_infallible(s: u8) -> (r: ShortMessageType)
    requires
        is_status_byte(s),
    ensures
        r == type_of_status_byte(s),
{
    if s < 0x90 {
        ShortMessageType::NoteOff
    } else if s < 0xa0 {
        ShortMessageType::NoteOn
    } else if s < 0xb0 {
        ShortMessageType::PolyphonicKeyPressure
    } else if s < 0xc0 {
        ShortMessageType::ControlChange
    } else if s < 0xd0 {
        ShortMessageType::ProgramChange
    } else if s < 0xe0 {
        ShortMessageType::ChannelPressure
    } else if s < 0xf0 {
        ShortMessageType::PitchBendChange
    } else if s == 0xf0 {
        ShortMessageType::SystemExclusiveStart
    } else if s == 0xf1 {
        ShortMessageType::TimeCodeQuarterFrame
    } else if s == 0xf2 {
        ShortMessageType::SongPositionPointer
    } else if s == 0xf3 {
        ShortMessageType::SongSelect
    } else if s == 0xf4 {
        ShortMessageType::SystemCommonUndefined1
    } else if s == 0xf5 {
        ShortMessageType::SystemCommonUndefined2
    } else if s == 0xf6 {
        ShortMessageType::TuneRequest
    } else if s == 0xf7 {
        ShortMessageType::SystemExclusiveEnd
    } else if s == 0xf8 {
        ShortMessageType::TimingClock
    } else if s == 0xf9 {
        ShortMessageType::SystemRealTimeUndefined1
    } else if s == 0xfa {
        ShortMessageType::Start
    } else if s == 0xfb {
        ShortMessageType::Continue
    } else if s == 0xfc {
        ShortMessageType::Stop
    } else if s == 0xfd {
        ShortMessageType::SystemRealTimeUndefined2
    } else if s == 0xfe {
        ShortMessageType::ActiveSensing
    } else {
        ShortMessageType::SystemReset
    }
}

/// Returns the channel encoded in the low nibble of a status byte.
pub fn extract_channel_from_status_byte(status_byte: u8) -> (r: Channel)
    ensures
        r@ == status_byte % 16,
{
    assert(status_byte & 0x0f == status_byte % 16) by (bit_vector);
    Channel::new(status_byte & 0x0f)
}

/// Builds a channel message status byte from a type representation (whose low nibble is zero)
/// and a channel.
pub fn build_status_byte(type_byte: u8, channel: Channel) -> (r: u8)
    requires
        type_byte % 16 == 0,
    ensures
        r == type_byte + channel@,
{
    let c = channel.get();
    assert(type_byte | c == type_byte + c) by (bit_vector)
        requires
            type_byte % 16 == 0,
            c < 16,
    ;
    type_byte | c
}

} // verus!
