use helgoboss_midi::test_util::{channel as ch, controller_number as cn, key_number, u14, u7};
use helgoboss_midi::{
    ParameterNumberMessage, ParameterNumberMessageScanner, RawShortMessage, ShortMessageFactory,
};

#[test]
fn parameter_number_message_scanner_should_ignore_non_contributing_short_messages() {
    // Given
    let mut scanner = ParameterNumberMessageScanner::new();
    // When
    // Then
    assert_eq!(
        scanner.feed(&RawShortMessage::note_on(ch(0), key_number(100), u7(100))),
        None
    );
    assert_eq!(
        scanner.feed(&RawShortMessage::note_on(ch(0), key_number(100), u7(120))),
        None
    );
    assert_eq!(
        scanner.feed(&RawShortMessage::control_change(ch(0), cn(80), u7(1))),
        None
    );
}

#[test]
fn x_y_msb() {
    // Given
    let mut scanner = ParameterNumberMessageScanner::new();
    // When
    let result_1 = scanner.feed(&RawShortMessage::control_change(ch(2), cn(99), u7(3)));
    let result_2 = scanner.feed(&RawShortMessage::control_change(ch(2), cn(98), u7(37)));
    let result_3 = scanner.feed(&RawShortMessage::control_change(ch(2), cn(6), u7(126)));
    // Then
    assert_eq!(result_1, None);
    assert_eq!(result_2, None);
    assert_eq!(
        result_3,
        Some(ParameterNumberMessage::non_registered_7_bit(
            ch(2),
            u14(421),
            u7(126)
        ))
    );
}

#[test]
fn parameter_number_message_scanner_x_y_lsb_msb() {
    // Given
    let mut scanner = ParameterNumberMessageScanner::new();
    // When
    let result_1 = scanner.feed(&RawShortMessage::control_change(ch(0), cn(101), u7(3)));
    let result_2 = scanner.feed(&RawShortMessage::control_change(ch(0), cn(100), u7(36)));
    let result_3 = scanner.feed(&RawShortMessage::control_change(ch(0), cn(38), u7(24)));
    let result_4 = scanner.feed(&RawShortMessage::control_change(ch(0), cn(6), u7(117)));
    // Then
    assert_eq!(result_1, None);
    assert_eq!(result_2, None);
    assert_eq!(result_3, None);
    assert_eq!(
        result_4,
        Some(ParameterNumberMessage::registered_14_bit(
            ch(0),
            u14(420),
            u14(15000)
        ))
    );
}

#[test]
fn x_y_msb_msb() {
    // Given
    let mut scanner = ParameterNumberMessageScanner::new();
    // When
    let result_1 = scanner.feed(&RawShortMessage::control_change(ch(2), cn(99), u7(3)));
    let result_2 = scanner.feed(&RawShortMessage::control_change(ch(2), cn(98), u7(37)));
    let result_3 = scanner.feed(&RawShortMessage::control_change(ch(2), cn(6), u7(126)));
    let result_4 = scanner.feed(&RawShortMessage::control_change(ch(2), cn(6), u7(125)));
    // Then
    assert_eq!(result_1, None);
    assert_eq!(result_2, None);
    assert_eq!(
        result_3,
        Some(ParameterNumberMessage::non_registered_7_bit(
            ch(2),
            u14(421),
            u7(126)
        ))
    );
    assert_eq!(
        result_4,
        Some(ParameterNumberMessage::non_registered_7_bit(
            ch(2),
            u14(421),
            u7(125)
        ))
    );
}

#[test]
fn x_y_lsb_msb_lsb_msb() {
    // Given
    let mut scanner = ParameterNumberMessageScanner::new();
    // When
    let result_1 = scanner.feed(&RawShortMessage::control_change(ch(0), cn(101), u7(3)));
    let result_2 = scanner.feed(&RawShortMessage::control_change(ch(0), cn(100), u7(36)));
    let result_3 = scanner.feed(&RawShortMessage::control_change(ch(0), cn(38), u7(24)));
    let result_4 = scanner.feed(&RawShortMessage::control_change(ch(0), cn(6), u7(117)));
    let result_5 = scanner.feed(&RawShortMessage::control_change(ch(0), cn(38), u7(23)));
    let result_6 = scanner.feed(&RawShortMessage::control_change(ch(0), cn(6), u7(117)));
    // Then
    assert_eq!(result_1, None);
    assert_eq!(result_2, None);
    assert_eq!(result_3, None);
    assert_eq!(
        result_4,
        Some(ParameterNumberMessage::registered_14_bit(
            ch(0),
            u14(420),
            u14(15000)
        ))
    );
    assert_eq!(result_5, None);
    assert_eq!(
        result_6,
        Some(ParameterNumberMessage::registered_14_bit(
            ch(0),
            u14(420),
            u14(14999)
        ))
    );
}

#[test]
fn parameter_number_message_scanner_should_process_different_channels_independently() {
    // Given
    let mut scanner = ParameterNumberMessageScanner::new();
    // When
    let result_1 = scanner.feed(&RawShortMessage::control_change(ch(0), cn(101), u7(3)));
    let result_2 = scanner.feed(&RawShortMessage::control_change(ch(2), cn(99), u7(3)));
    let result_3 = scanner.feed(&RawShortMessage::control_change(ch(0), cn(100), u7(36)));
    let result_4 = scanner.feed(&RawShortMessage::control_change(ch(2), cn(98), u7(37)));
    let result_5 = scanner.feed(&RawShortMessage::control_change(ch(0), cn(38), u7(24)));
    let result_6 = scanner.feed(&RawShortMessage::control_change(ch(2), cn(6), u7(126)));
    let result_7 = scanner.feed(&RawShortMessage::control_change(ch(0), cn(6), u7(117)));
    // Then
    assert_eq!(result_1, None);
    assert_eq!(result_3, None);
    assert_eq!(result_5, None);
    assert_eq!(
        result_7,
        Some(ParameterNumberMessage::registered_14_bit(
            ch(0),
            u14(420),
            u14(15000)
        ))
    );
    assert_eq!(result_2, None);
    assert_eq!(result_4, None);
    assert_eq!(
        result_6,
        Some(ParameterNumberMessage::non_registered_7_bit(
            ch(2),
            u14(421),
            u7(126)
        ))
    );
}

#[test]
fn parameter_number_message_scanner_should_ignore_non_contributing_short_messages_mixed() {
    // Given
    let mut scanner = ParameterNumberMessageScanner::new();
    // When
    let result_1 = scanner.feed(&RawShortMessage::control_change(ch(2), cn(99), u7(3)));
    scanner.feed(&RawShortMessage::control_change(ch(2), cn(34), u7(5)));
    scanner.feed(&RawShortMessage::note_on(ch(2), key_number(100), u7(105)));
    let result_2 = scanner.feed(&RawShortMessage::control_change(ch(2), cn(98), u7(37)));
    scanner.feed(&RawShortMessage::control_change(ch(2), cn(50), u7(6)));
    let result_3 = scanner.feed(&RawShortMessage::control_change(ch(2), cn(6), u7(126)));
    // Then
    assert_eq!(result_1, None);
    assert_eq!(result_2, None);
    assert_eq!(
        result_3,
        Some(ParameterNumberMessage::non_registered_7_bit(
            ch(2),
            u14(421),
            u7(126)
        ))
    );
}
