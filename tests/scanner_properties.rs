use helgoboss_midi::test_util::{
    channel as ch, control_change, control_change_14_bit, key_number, note_off, note_on, nrpn,
    nrpn_14_bit, rpn, rpn_14_bit, timing_clock, u14, u7,
};
use helgoboss_midi::{
    ControlChange14BitMessageScanner, ParameterNumberMessage, ParameterNumberMessageScanner,
    PollingParameterNumberMessageScanner, RawShortMessage, ShortMessage, ShortMessageFactory,
};

#[test]
fn cc_14_bit_interleaved_channels_match_separate_scanners() {
    let stream = [
        control_change(3, 7, 1),
        control_change(9, 7, 2),
        control_change(3, 39, 5),
        control_change(9, 10, 4),
        control_change(9, 39, 6),
        control_change(9, 42, 8),
        control_change(3, 39, 9),
    ];
    let mut shared = ControlChange14BitMessageScanner::new();
    let mut only_3 = ControlChange14BitMessageScanner::new();
    let mut only_9 = ControlChange14BitMessageScanner::new();
    let mut shared_3 = Vec::new();
    let mut shared_9 = Vec::new();
    let mut alone_3 = Vec::new();
    let mut alone_9 = Vec::new();
    for (i, msg) in stream.iter().enumerate() {
        let out = shared.feed(msg);
        if [0, 2, 6].contains(&i) {
            shared_3.push(out);
            alone_3.push(only_3.feed(msg));
        } else {
            shared_9.push(out);
            alone_9.push(only_9.feed(msg));
        }
    }
    assert_eq!(shared_3, alone_3);
    assert_eq!(shared_9, alone_9);
    assert_eq!(
        shared_3,
        vec![None, Some(control_change_14_bit(3, 7, 133)), Some(control_change_14_bit(3, 7, 137))]
    );
    assert_eq!(shared_9, vec![None, None, None, Some(control_change_14_bit(9, 10, 520))]);
}

#[test]
fn parameter_number_interleaved_channels_match_separate_scanners() {
    let stream = [
        control_change(1, 101, 0),
        control_change(2, 99, 1),
        control_change(1, 100, 5),
        control_change(2, 98, 2),
        control_change(2, 6, 3),
        control_change(1, 38, 4),
        control_change(1, 6, 5),
    ];
    let mut shared = ParameterNumberMessageScanner::new();
    let mut separate = [ParameterNumberMessageScanner::new(), ParameterNumberMessageScanner::new()];
    for msg in stream.iter() {
        let c = if msg.status_byte() == 0xb1 { 0 } else { 1 };
        assert_eq!(shared.feed(msg), separate[c].feed(msg));
    }
}

#[test]
fn polling_interleaved_channels_match_separate_scanners() {
    let stream = [
        control_change(4, 99, 1),
        control_change(5, 101, 0),
        control_change(4, 98, 2),
        control_change(5, 100, 7),
        control_change(4, 6, 10),
        control_change(5, 6, 11),
        control_change(4, 96, 1),
        control_change(5, 38, 12),
    ];
    let mut shared = PollingParameterNumberMessageScanner::default();
    let mut only_4 = PollingParameterNumberMessageScanner::default();
    let mut only_5 = PollingParameterNumberMessageScanner::default();
    for msg in stream.iter() {
        let expected = if msg.status_byte() == 0xb4 {
            only_4.feed(msg)
        } else {
            only_5.feed(msg)
        };
        assert_eq!(shared.feed(msg), expected);
    }
}

#[test]
fn cc_14_bit_round_trip_at_the_edges() {
    for (c, n, v) in [(0u8, 0u8, 0u16), (15, 31, 16383), (7, 13, 128), (1, 2, 127)] {
        let mut scanner = ControlChange14BitMessageScanner::new();
        assert_eq!(scanner.feed(&control_change(c, n, (v >> 7) as u8)), None);
        assert_eq!(
            scanner.feed(&control_change(c, n + 32, (v & 0x7f) as u8)),
            Some(control_change_14_bit(c, n, v))
        );
    }
}

#[test]
fn cc_14_bit_last_msb_wins() {
    let mut scanner = ControlChange14BitMessageScanner::new();
    assert_eq!(scanner.feed(&control_change(0, 1, 100)), None);
    assert_eq!(scanner.feed(&control_change(0, 2, 3)), None);
    assert_eq!(scanner.feed(&control_change(0, 33, 4)), None);
    assert_eq!(scanner.feed(&control_change(0, 34, 4)), Some(control_change_14_bit(0, 2, 388)));
}

#[test]
fn cc_14_bit_msb_pairs_with_a_second_lsb() {
    let mut scanner = ControlChange14BitMessageScanner::new();
    scanner.feed(&control_change(6, 0, 1));
    assert_eq!(scanner.feed(&control_change(6, 32, 0)), Some(control_change_14_bit(6, 0, 128)));
    assert_eq!(scanner.feed(&control_change(6, 32, 1)), Some(control_change_14_bit(6, 0, 129)));
}

#[test]
fn non_contributing_messages_leave_every_scanner_unchanged() {
    let noise = [
        note_on(2, 60, 100),
        note_off(2, 60, 0),
        control_change(2, 80, 1),
        control_change(2, 120, 0),
        timing_clock(),
    ];
    let mut cc = ControlChange14BitMessageScanner::new();
    let mut pn = ParameterNumberMessageScanner::new();
    let mut polling = PollingParameterNumberMessageScanner::default();
    cc.feed(&control_change(2, 5, 1));
    pn.feed(&control_change(2, 99, 0));
    pn.feed(&control_change(2, 98, 9));
    polling.feed(&control_change(2, 99, 0));
    polling.feed(&control_change(2, 98, 9));
    for msg in noise.iter() {
        assert_eq!(cc.feed(msg), None);
        assert_eq!(pn.feed(msg), None);
        assert_eq!(polling.feed(msg), [None, None]);
    }
    assert_eq!(cc.feed(&control_change(2, 37, 2)), Some(control_change_14_bit(2, 5, 130)));
    assert_eq!(pn.feed(&control_change(2, 6, 3)), Some(nrpn(2, 9, 3)));
    assert_eq!(polling.feed(&control_change(2, 96, 3)), [
        Some(ParameterNumberMessage::non_registered_increment(ch(2), u14(9), u7(3))),
        None,
    ]);
}

#[test]
fn non_polling_7_bit_sequence() {
    let mut scanner = ParameterNumberMessageScanner::new();
    assert_eq!(scanner.feed(&control_change(15, 99, 127)), None);
    assert_eq!(scanner.feed(&control_change(15, 98, 127)), None);
    assert_eq!(scanner.feed(&control_change(15, 6, 0)), Some(nrpn(15, 16383, 0)));
}

#[test]
fn non_polling_14_bit_sequence() {
    let mut scanner = ParameterNumberMessageScanner::new();
    assert_eq!(scanner.feed(&control_change(0, 101, 3)), None);
    assert_eq!(scanner.feed(&control_change(0, 100, 36)), None);
    assert_eq!(scanner.feed(&control_change(0, 38, 24)), None);
    assert_eq!(scanner.feed(&control_change(0, 6, 117)), Some(rpn_14_bit(0, 420, 15000)));
}

#[test]
fn non_polling_new_number_discards_value_lsb() {
    let mut scanner = ParameterNumberMessageScanner::new();
    scanner.feed(&control_change(1, 101, 0));
    scanner.feed(&control_change(1, 100, 1));
    scanner.feed(&control_change(1, 38, 5));
    scanner.feed(&control_change(1, 100, 2));
    assert_eq!(scanner.feed(&control_change(1, 6, 7)), Some(rpn(1, 2, 7)));
}

#[test]
fn non_polling_value_msb_without_number_is_dropped() {
    let mut scanner = ParameterNumberMessageScanner::new();
    assert_eq!(scanner.feed(&control_change(1, 99, 0)), None);
    assert_eq!(scanner.feed(&control_change(1, 6, 7)), None);
}

#[test]
fn polling_waits_for_the_timeout() {
    let mut scanner = PollingParameterNumberMessageScanner::new(3_600_000_000_000);
    assert_eq!(scanner.feed(&control_change(2, 99, 3)), [None, None]);
    assert_eq!(scanner.feed(&control_change(2, 98, 37)), [None, None]);
    assert_eq!(scanner.feed(&control_change(2, 6, 126)), [None, None]);
    assert_eq!(scanner.poll(ch(2)), None);
    assert_eq!(scanner.poll(ch(2)), None);
    assert_eq!(scanner.resolve_pending(ch(2)), Some(nrpn(2, 421, 126)));
    assert_eq!(scanner.resolve_pending(ch(2)), None);
}

#[test]
fn polling_with_zero_timeout_resolves_at_once() {
    let mut scanner = PollingParameterNumberMessageScanner::new(0);
    scanner.feed(&control_change(2, 99, 3));
    scanner.feed(&control_change(2, 98, 37));
    scanner.feed(&control_change(2, 6, 126));
    assert_eq!(scanner.poll(ch(3)), None);
    assert_eq!(scanner.poll(ch(2)), Some(nrpn(2, 421, 126)));
    assert_eq!(scanner.poll(ch(2)), None);
}

#[test]
fn polling_pending_lsb_is_dropped_on_resolve() {
    let mut scanner = PollingParameterNumberMessageScanner::default();
    scanner.feed(&control_change(2, 99, 3));
    scanner.feed(&control_change(2, 98, 37));
    scanner.feed(&control_change(2, 38, 1));
    assert_eq!(scanner.resolve_pending(ch(2)), None);
    assert_eq!(scanner.feed(&control_change(2, 6, 5)), [None, None]);
    assert_eq!(scanner.poll(ch(2)), Some(nrpn(2, 421, 5)));
}

#[test]
fn polling_double_emission() {
    let mut scanner = PollingParameterNumberMessageScanner::default();
    scanner.feed(&control_change(2, 99, 3));
    scanner.feed(&control_change(2, 98, 37));
    assert_eq!(scanner.feed(&control_change(2, 6, 126)), [None, None]);
    assert_eq!(scanner.feed(&control_change(2, 96, 5)), [
        Some(nrpn(2, 421, 126)),
        Some(ParameterNumberMessage::non_registered_increment(ch(2), u14(421), u7(5))),
    ]);
}

#[test]
fn polling_pending_value_resolves_on_new_number() {
    let mut scanner = PollingParameterNumberMessageScanner::default();
    scanner.feed(&control_change(9, 101, 0));
    scanner.feed(&control_change(9, 100, 7));
    scanner.feed(&control_change(9, 6, 64));
    assert_eq!(scanner.feed(&control_change(9, 100, 8)), [Some(rpn(9, 7, 64)), None]);
    assert_eq!(scanner.feed(&control_change(9, 38, 1)), [None, None]);
    assert_eq!(scanner.feed(&control_change(9, 6, 2)), [Some(rpn_14_bit(9, 8, 257)), None]);
    assert_eq!(scanner.feed(&control_change(9, 99, 1)), [None, None]);
    assert_eq!(scanner.feed(&control_change(9, 97, 1)), [
        Some(ParameterNumberMessage::non_registered_decrement(ch(9), u14(136), u7(1))),
        None,
    ]);
}

#[test]
fn polling_value_before_number_is_ignored() {
    let mut scanner = PollingParameterNumberMessageScanner::default();
    assert_eq!(scanner.feed(&control_change(0, 6, 1)), [None, None]);
    assert_eq!(scanner.feed(&control_change(0, 96, 1)), [None, None]);
    assert_eq!(scanner.poll(ch(0)), None);
    assert_eq!(scanner.feed(&control_change(0, 99, 1)), [None, None]);
    assert_eq!(scanner.feed(&control_change(0, 99, 2)), [None, None]);
    assert_eq!(scanner.feed(&control_change(0, 98, 3)), [None, None]);
    assert_eq!(scanner.feed(&control_change(0, 97, 4)), [
        Some(ParameterNumberMessage::non_registered_decrement(ch(0), u14(259), u7(4))),
        None,
    ]);
}

#[test]
fn reset_then_replay_matches_fresh_scanners() {
    let prefix = [
        control_change(0, 101, 3),
        control_change(0, 100, 36),
        control_change(0, 38, 24),
        control_change(0, 6, 117),
        control_change(0, 2, 8),
        control_change(0, 34, 33),
        control_change(0, 6, 1),
    ];
    let mut cc = ControlChange14BitMessageScanner::new();
    let mut pn = ParameterNumberMessageScanner::new();
    let mut polling = PollingParameterNumberMessageScanner::default();
    for msg in prefix.iter() {
        cc.feed(msg);
        pn.feed(msg);
        polling.feed(msg);
    }
    cc.reset();
    pn.reset();
    polling.reset();
    let mut fresh_cc = ControlChange14BitMessageScanner::new();
    let mut fresh_pn = ParameterNumberMessageScanner::new();
    let mut fresh_polling = PollingParameterNumberMessageScanner::default();
    for msg in prefix.iter() {
        assert_eq!(cc.feed(msg), fresh_cc.feed(msg));
        assert_eq!(pn.feed(msg), fresh_pn.feed(msg));
        assert_eq!(polling.feed(msg), fresh_polling.feed(msg));
        assert_eq!(polling.poll(ch(0)), fresh_polling.poll(ch(0)));
    }
}

#[test]
fn reset_discards_pending_bytes() {
    let mut cc = ControlChange14BitMessageScanner::default();
    cc.feed(&control_change(1, 3, 1));
    cc.reset();
    assert_eq!(cc.feed(&control_change(1, 35, 1)), None);
    let mut pn = ParameterNumberMessageScanner::default();
    pn.feed(&control_change(1, 99, 1));
    pn.feed(&control_change(1, 98, 1));
    pn.reset();
    assert_eq!(pn.feed(&control_change(1, 6, 1)), None);
    let mut polling = PollingParameterNumberMessageScanner::default();
    polling.feed(&control_change(1, 99, 1));
    polling.feed(&control_change(1, 98, 1));
    polling.feed(&control_change(1, 6, 1));
    polling.reset();
    assert_eq!(polling.poll(ch(1)), None);
}

#[test]
fn messages_of_other_types_are_ignored_by_key() {
    let mut scanner = ControlChange14BitMessageScanner::new();
    assert_eq!(
        scanner.feed(&RawShortMessage::note_on(ch(0), key_number(2), u7(8))),
        None
    );
    assert_eq!(
        scanner.feed(&RawShortMessage::note_on(ch(0), key_number(34), u7(33))),
        None
    );
    assert_eq!(nrpn_14_bit(0, 1, 2).value(), u14(2));
}

#[test]
fn polling_after_a_given_time() {
    let mut scanner = PollingParameterNumberMessageScanner::new(5_000_000);
    scanner.feed(&control_change(7, 101, 1));
    scanner.feed(&control_change(7, 100, 2));
    scanner.feed(&control_change(7, 6, 3));
    assert_eq!(scanner.poll_after(ch(7), 4_999_999), None);
    assert_eq!(scanner.poll_after(ch(7), 0), None);
    assert_eq!(scanner.poll_after(ch(7), 5_000_000), Some(rpn(7, 130, 3)));
    assert_eq!(scanner.poll_after(ch(7), u128::MAX), None);
    scanner.feed(&control_change(7, 38, 3));
    assert_eq!(scanner.poll_after(ch(7), 10_000_000), None);
    assert_eq!(scanner.feed(&control_change(7, 6, 1)), [None, None]);
    assert_eq!(scanner.feed(&control_change(7, 38, 4)), [Some(rpn_14_bit(7, 130, 132)), None]);
}

#[test]
fn polling_reset_keeps_the_timeout() {
    let mut scanner = PollingParameterNumberMessageScanner::new(3_600_000_000_000);
    scanner.feed(&control_change(1, 99, 0));
    scanner.reset();
    scanner.feed(&control_change(1, 99, 0));
    scanner.feed(&control_change(1, 98, 1));
    scanner.feed(&control_change(1, 6, 2));
    assert_eq!(scanner.poll(ch(1)), None);
    assert_eq!(scanner.poll_after(ch(1), 3_600_000_000_000), Some(nrpn(1, 1, 2)));
}
