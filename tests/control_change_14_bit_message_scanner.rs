use helgoboss_midi::test_util::{channel as ch, controller_number as cn, key_number, u14, u7};
use helgoboss_midi::{ControlChange14BitMessageScanner, RawShortMessage, ShortMessageFactory};

#[test]
fn should_ignore_non_contributing_messages() {
    // Given
    let mut scanner = ControlChange14BitMessageScanner::new();
    // When
    // Then
    assert_eq!(
        scanner.feed(&RawShortMessage::note_on(ch(0), key_number(100), u7(100))),
        None
    );
    assert_eq!(
        scanner.feed(&RawShortMessage::note_on(ch(0), key_number(100), u7(120))),
        None
    );
    assert_eq!(
        scanner.feed(&RawShortMessage::control_change(ch(0), cn(80), u7(1))),
        None
    );
}

#[test]
fn should_return_14_bit_result_message_on_second_lsb_short_message() {
    // Given
    let mut scanner = ControlChange14BitMessageScanner::new();
    // When
    let result_1 = scanner.feed(&RawShortMessage::control_change(ch(5), cn(2), u7(8)));
    let result_2 = scanner.feed(&RawShortMessage::control_change(ch(5), cn(34), u7(33)));
    // Then
    assert_eq!(result_1, None);
    let result_2 = result_2.unwrap();
    assert_eq!(result_2.channel(), ch(5));
    assert_eq!(result_2.msb_controller_number(), cn(2));
    assert_eq!(result_2.lsb_controller_number(), cn(34));
    assert_eq!(result_2.value(), u14(1057));
}

#[test]
fn control_change_14_bit_message_scanner_should_process_different_channels_independently() {
    // Given
    let mut scanner = ControlChange14BitMessageScanner::new();
    // When
    let result_1 = scanner.feed(&RawShortMessage::control_change(ch(5), cn(2), u7(8)));
    let result_2 = scanner.feed(&RawShortMessage::control_change(ch(6), cn(3), u7(8)));
    let result_3 = scanner.feed(&RawShortMessage::control_change(ch(5), cn(34), u7(33)));
    let result_4 = scanner.feed(&RawShortMessage::control_change(ch(6), cn(35), u7(34)));
    // Then
    assert_eq!(result_1, None);
    assert_eq!(result_2, None);
    let result_3 = result_3.unwrap();
    assert_eq!(result_3.channel(), ch(5));
    assert_eq!(result_3.msb_controller_number(), cn(2));
    assert_eq!(result_3.lsb_controller_number(), cn(34));
    assert_eq!(result_3.value(), u14(1057));
    let result_4 = result_4.unwrap();
    assert_eq!(result_4.channel(), ch(6));
    assert_eq!(result_4.msb_controller_number(), cn(3));
    assert_eq!(result_4.lsb_controller_number(), cn(35));
    assert_eq!(result_4.value(), u14(1058));
}

#[test]
fn control_change_14_bit_message_scanner_should_ignore_non_contributing_short_messages_mixed() {
    // Given
    let mut scanner = ControlChange14BitMessageScanner::new();
    // When
    let result_1 = scanner.feed(&RawShortMessage::control_change(ch(5), cn(2), u7(8)));
    let result_2 = scanner.feed(&RawShortMessage::control_change(ch(5), cn(77), u7(9)));
    let result_3 = scanner.feed(&RawShortMessage::control_change(ch(5), cn(34), u7(33)));
    // Then
    assert_eq!(result_1, None);
    assert_eq!(result_2, None);
    let result_3 = result_3.unwrap();
    assert_eq!(result_3.channel(), ch(5));
    assert_eq!(result_3.msb_controller_number(), cn(2));
    assert_eq!(result_3.lsb_controller_number(), cn(34));
    assert_eq!(result_3.value(), u14(1057));
}

#[test]
fn control_change_14_bit_message_scanner_should_only_consider_last_incoming_msb() {
    // Given
    let mut scanner = ControlChange14BitMessageScanner::new();
    // When
    let result_1 = scanner.feed(&RawShortMessage::control_change(ch(5), cn(2), u7(8)));
    let result_2 = scanner.feed(&RawShortMessage::control_change(ch(5), cn(3), u7(8)));
    let result_3 = scanner.feed(&RawShortMessage::control_change(ch(5), cn(34), u7(33)));
    let result_4 = scanner.feed(&RawShortMessage::control_change(ch(5), cn(35), u7(34)));
    // Then
    assert_eq!(result_1, None);
    assert_eq!(result_2, None);
    assert_eq!(result_3, None);
    let result_4 = result_4.unwrap();
    assert_eq!(result_4.channel(), ch(5));
    assert_eq!(result_4.msb_controller_number(), cn(3));
    assert_eq!(result_4.lsb_controller_number(), cn(35));
    assert_eq!(result_4.value(), u14(1058));
}
