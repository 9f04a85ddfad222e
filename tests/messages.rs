use helgoboss_midi::test_util::{
    channel as ch, control_change, control_change_14_bit, controller_number as cn, key_number,
    pitch_bend_change, short, song_position_pointer, time_code_quarter_frame, u14, u4, u7,
};
use helgoboss_midi::{
    Channel, KeyNumber, TryFromGreaterError, U14, U4, U7,
    ControllerNumber, FromBytesError, InvalidStatusByteError, RawShortMessage, ShortMessage,
    ShortMessageFactory, ShortMessageType, StructuredShortMessage, TimeCodeQuarterFrame,
    TimeCodeType,
};
use std::convert::TryFrom;

#[test]
fn control_change_14_bit_message_parts() {
    let msg = control_change_14_bit(5, 2, 1057);
    assert_eq!(msg.channel(), ch(5));
    assert_eq!(msg.msb_controller_number(), cn(2));
    assert_eq!(msg.lsb_controller_number(), cn(34));
    assert_eq!(msg.value(), u14(1057));
    let short_messages: [RawShortMessage; 2] = msg.to_short_messages();
    assert_eq!(short_messages, [control_change(5, 2, 8), control_change(5, 34, 33)]);
    let largest: [RawShortMessage; 2] = control_change_14_bit(15, 31, 16383).to_short_messages();
    assert_eq!(largest, [control_change(15, 31, 127), control_change(15, 63, 127)]);
}

#[test]
fn invalid_status_byte_is_an_error() {
    assert_eq!(
        RawShortMessage::from_bytes((0x7f, u7(1), u7(2))),
        Err::<RawShortMessage, FromBytesError>(
            RawShortMessage::from_bytes((0x7f, u7(0), u7(0))).unwrap_err()
        )
    );
    assert!(StructuredShortMessage::from_bytes((0, u7(0), u7(0))).is_err());
    assert!(RawShortMessage::from_bytes((0x80, u7(0), u7(0))).is_ok());
}

#[test]
fn message_type_from_u8() {
    assert_eq!(ShortMessageType::try_from(0x90), Ok(ShortMessageType::NoteOn));
    assert_eq!(ShortMessageType::try_from(0xf9), Ok(ShortMessageType::SystemRealTimeUndefined1));
    assert_eq!(ShortMessageType::try_from(0x91), Err(InvalidStatusByteError));
    assert_eq!(ShortMessageType::try_from(0x7f), Err(InvalidStatusByteError));
    assert_eq!(u8::from(ShortMessageType::PitchBendChange), 0xe0);
    assert_eq!(u8::from(ShortMessageType::SystemReset), 0xff);
}

#[test]
fn pitch_bend_and_song_position_split_the_value() {
    let msg = pitch_bend_change(3, 16383);
    assert_eq!(msg.data_byte_1(), u7(127));
    assert_eq!(msg.data_byte_2(), u7(127));
    assert_eq!(msg.pitch_bend_value(), Some(u14(16383)));
    let msg = song_position_pointer(129);
    assert_eq!(msg.status_byte(), 0xf2);
    assert_eq!(msg.data_byte_1(), u7(1));
    assert_eq!(msg.data_byte_2(), u7(1));
    assert_eq!(
        msg.to_structured(),
        StructuredShortMessage::SongPositionPointer { position: u14(129) }
    );
}

#[test]
fn channel_mode_controller_numbers() {
    let msg = control_change(0, 121, 0);
    assert_eq!(msg.super_type(), helgoboss_midi::MessageSuperType::ChannelMode);
    assert_eq!(msg.channel(), Some(ch(0)));
    assert!(ControllerNumber::new(127).is_channel_mode_message_controller_number());
    assert!(!ControllerNumber::new(120).is_channel_mode_message_controller_number());
    assert!(ControllerNumber::new(6).is_parameter_number_message_controller_number());
    assert!(!ControllerNumber::new(7).is_parameter_number_message_controller_number());
    assert!(ControllerNumber::new(63).can_be_part_of_14_bit_control_change_message());
    assert!(!ControllerNumber::new(64).can_be_part_of_14_bit_control_change_message());
    assert_eq!(
        ControllerNumber::new(31).corresponding_14_bit_lsb_controller_number(),
        Some(cn(63))
    );
    assert_eq!(ControllerNumber::new(32).corresponding_14_bit_lsb_controller_number(), None);
}

#[test]
fn time_code_quarter_frames() {
    let msg = time_code_quarter_frame(TimeCodeQuarterFrame::MinutesCountMsNibble(u4(9)));
    assert_eq!(msg.status_byte(), 0xf1);
    assert_eq!(msg.data_byte_1(), u7(0x59));
    assert_eq!(msg.channel(), None);
    let last = TimeCodeQuarterFrame::Last {
        hours_count_ms_bit: true,
        time_code_type: TimeCodeType::Fps30DropFrame,
    };
    let msg = time_code_quarter_frame(last);
    assert_eq!(msg.data_byte_1(), u7(0x75));
    assert_eq!(msg.to_structured(), StructuredShortMessage::TimeCodeQuarterFrame(last));
    let structured = short(0xf1, 0x7d, 0).to_structured();
    assert_eq!(structured, StructuredShortMessage::TimeCodeQuarterFrame(last));
    assert_eq!(structured.data_byte_1(), u7(0x75));
}

#[test]
fn structured_drops_unused_data_bytes() {
    let raw = short(0xc3, 5, 9);
    let structured = raw.to_structured();
    assert_eq!(
        structured,
        StructuredShortMessage::ProgramChange { channel: ch(3), program_number: u7(5) }
    );
    assert_eq!(structured.data_byte_2(), u7(0));
    let back = RawShortMessage::from_other(&structured);
    assert_eq!(back, short(0xc3, 5, 0));
    assert_eq!(short(0xf8, 3, 4).to_structured(), StructuredShortMessage::TimingClock);
    assert_eq!(
        short(0x9f, 1, 0).to_structured(),
        StructuredShortMessage::NoteOn {
            channel: ch(15),
            key_number: key_number(1),
            velocity: u7(0),
        }
    );
}

#[test]
fn value_conversions() {
    assert_eq!(U7::try_from(127u8), Ok(u7(127)));
    assert_eq!(
        U7::try_from(128u8),
        Err::<U7, TryFromGreaterError>(U7::try_from(200u8).unwrap_err())
    );
    assert!(U14::try_from(16384u16).is_err());
    assert_eq!(U14::try_from(16383u16), Ok(u14(16383)));
    assert!(Channel::try_from(16u8).is_err());
    assert_eq!(U7::try_from(u14(127)), Ok(u7(127)));
    assert!(U7::try_from(u14(128)).is_err());
    assert!(U4::try_from(u7(16)).is_err());
    assert_eq!(U4::try_from(u7(15)), Ok(u4(15)));
    assert_eq!(U14::from(u7(100)), u14(100));
    assert_eq!(KeyNumber::from(u7(64)), key_number(64));
    assert_eq!(U7::from(cn(99)), u7(99));
    assert_eq!(Channel::from(u4(9)), ch(9));
    assert_eq!(u8::from(ch(9)), 9);
    assert_eq!(u16::from(u14(4000)), 4000);
}
