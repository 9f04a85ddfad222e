use helgoboss_midi::test_util::{channel as ch, controller_number as cn, u14, u7};
use helgoboss_midi::{
    DataEntryByteOrder, DataType, ParameterNumberMessage, RawShortMessage, ShortMessageFactory,
};

#[test]
fn parameter_number_message_parameter_number_messages_14_bit() {
    // Given
    let msg = ParameterNumberMessage::registered_14_bit(ch(0), u14(420), u14(15000));
    // When
    // Then
    assert_eq!(msg.channel(), ch(0));
    assert_eq!(msg.number(), u14(420));
    assert_eq!(msg.value(), u14(15000));
    assert!(msg.is_14_bit());
    assert!(msg.is_registered());
    assert_eq!(msg.data_type(), DataType::DataEntry);
    let lsb_first_short_msgs: [Option<RawShortMessage>; 4] =
        msg.to_short_messages(DataEntryByteOrder::LsbFirst);
    assert_eq!(
        lsb_first_short_msgs,
        [
            Some(RawShortMessage::control_change(ch(0), cn(101), u7(3))),
            Some(RawShortMessage::control_change(ch(0), cn(100), u7(36))),
            Some(RawShortMessage::control_change(ch(0), cn(38), u7(24))),
            Some(RawShortMessage::control_change(ch(0), cn(6), u7(117))),
        ]
    );
    let msb_first_short_msgs: [Option<RawShortMessage>; 4] =
        msg.to_short_messages(DataEntryByteOrder::MsbFirst);
    assert_eq!(
        msb_first_short_msgs,
        [
            Some(RawShortMessage::control_change(ch(0), cn(101), u7(3))),
            Some(RawShortMessage::control_change(ch(0), cn(100), u7(36))),
            Some(RawShortMessage::control_change(ch(0), cn(6), u7(117))),
            Some(RawShortMessage::control_change(ch(0), cn(38), u7(24))),
        ]
    );
}

#[test]
fn parameter_number_message_parameter_number_messages_7_bit() {
    // Given
    let msg = ParameterNumberMessage::non_registered_7_bit(ch(2), u14(421), u7(126));
    // When
    // Then
    assert_eq!(msg.channel(), ch(2));
    assert_eq!(msg.number(), u14(421));
    assert_eq!(msg.value(), u14(126));
    assert!(!msg.is_14_bit());
    assert!(!msg.is_registered());
    assert_eq!(msg.data_type(), DataType::DataEntry);
    let lsb_first_short_msgs: [Option<RawShortMessage>; 4] =
        msg.to_short_messages(DataEntryByteOrder::LsbFirst);
    assert_eq!(
        lsb_first_short_msgs,
        [
            Some(RawShortMessage::control_change(ch(2), cn(99), u7(3))),
            Some(RawShortMessage::control_change(ch(2), cn(98), u7(37))),
            Some(RawShortMessage::control_change(ch(2), cn(6), u7(126))),
            None,
        ]
    );
    let msb_first_short_msgs: [Option<RawShortMessage>; 4] =
        msg.to_short_messages(DataEntryByteOrder::MsbFirst);
    assert_eq!(
        msb_first_short_msgs,
        [
            Some(RawShortMessage::control_change(ch(2), cn(99), u7(3))),
            Some(RawShortMessage::control_change(ch(2), cn(98), u7(37))),
            Some(RawShortMessage::control_change(ch(2), cn(6), u7(126))),
            None,
        ]
    );
}

#[test]
fn parameter_number_messages_increment() {
    // Given
    let msg = ParameterNumberMessage::non_registered_increment(ch(2), u14(421), u7(126));
    // When
    // Then
    assert_eq!(msg.channel(), ch(2));
    assert_eq!(msg.number(), u14(421));
    assert_eq!(msg.value(), u14(126));
    assert!(!msg.is_14_bit());
    assert!(!msg.is_registered());
    assert_eq!(msg.data_type(), DataType::DataIncrement);
    let lsb_first_short_msgs: [Option<RawShortMessage>; 4] =
        msg.to_short_messages(DataEntryByteOrder::LsbFirst);
    assert_eq!(
        lsb_first_short_msgs,
        [
            Some(RawShortMessage::control_change(ch(2), cn(99), u7(3))),
            Some(RawShortMessage::control_change(ch(2), cn(98), u7(37))),
            Some(RawShortMessage::control_change(ch(2), cn(96), u7(126))),
            None,
        ]
    );
    let msb_first_short_msgs: [Option<RawShortMessage>; 4] =
        msg.to_short_messages(DataEntryByteOrder::MsbFirst);
    assert_eq!(
        msb_first_short_msgs,
        [
            Some(RawShortMessage::control_change(ch(2), cn(99), u7(3))),
            Some(RawShortMessage::control_change(ch(2), cn(98), u7(37))),
            Some(RawShortMessage::control_change(ch(2), cn(96), u7(126))),
            None,
        ]
    );
}

#[test]
fn parameter_number_messages_decrement() {
    // Given
    let msg = ParameterNumberMessage::registered_decrement(ch(0), u14(420), u7(1));
    // When
    // Then
    assert_eq!(msg.channel(), ch(0));
    assert_eq!(msg.number(), u14(420));
    assert_eq!(msg.value(), u14(1));
    assert!(!msg.is_14_bit());
    assert!(msg.is_registered());
    assert_eq!(msg.data_type(), DataType::DataDecrement);
    let lsb_first_short_msgs: [Option<RawShortMessage>; 4] =
        msg.to_short_messages(DataEntryByteOrder::LsbFirst);
    assert_eq!(
        lsb_first_short_msgs,
        [
            Some(RawShortMessage::control_change(ch(0), cn(101), u7(3))),
            Some(RawShortMessage::control_change(ch(0), cn(100), u7(36))),
            Some(RawShortMessage::control_change(ch(0), cn(97), u7(1))),
            None,
        ]
    );
    let msb_first_short_msgs: [Option<RawShortMessage>; 4] =
        msg.to_short_messages(DataEntryByteOrder::MsbFirst);
    assert_eq!(
        msb_first_short_msgs,
        [
            Some(RawShortMessage::control_change(ch(0), cn(101), u7(3))),
            Some(RawShortMessage::control_change(ch(0), cn(100), u7(36))),
            Some(RawShortMessage::control_change(ch(0), cn(97), u7(1))),
            None,
        ]
    );
}
