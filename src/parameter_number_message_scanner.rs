//! Detection of (N)RPN messages in a stream of short messages, without timeout.
use crate::bits::{build_14_bit_value_from_two_7_bit_values, join_7_bit, opt_view};
use crate::channels::{
    lemma_interleaving_is_irrelevant, on_channel, outputs_on_channel, route, run, Bytes,
};
use crate::channel::Channel;
use crate::parameter_number_message::{
    cc_bytes, pn_14_bit, pn_7_bit, DataType, ParameterNumberMessage, PnModel,
};
use crate::short_message::{channel_of, controller_number_of, is_status_byte, ShortMessage};
use crate::u7::U7;
use vstd::prelude::*;

verus! {

/// What the scanner remembers for one channel.
pub struct PnScanState {
    pub number_msb: Option<u8>,
    pub number_lsb: Option<u8>,
    pub is_registered: bool,
    pub value_lsb: Option<u8>,
}

/// The state of a channel that has seen nothing yet.
pub open spec fn pn_empty() -> PnScanState {
    PnScanState { number_msb: None, number_lsb: None, is_registered: false, value_lsb: None }
}

/// The state of a fresh scanner: one empty state per channel.
pub open spec fn pn_initial() -> Seq<PnScanState> {
    Seq::new(16, |i: int| pn_empty())
}

/// One step of the scanner for channel `c` on a Control Change message with controller number
/// `cn` and value `v`.
///
/// A number byte (98 / 99 non-registered, 100 / 101 registered; LSB / MSB) is recorded and
/// discards a recorded value LSB. A value LSB (38) is recorded. A value MSB (6) completes a
/// message once both number bytes are known: a 14-bit one if a value LSB is recorded, else a
/// 7-bit one. Other controller numbers change nothing.
pub open spec fn pn_step(s: PnScanState, c: u8, cn: u8, v: u8) -> (PnScanState, Option<PnModel>) {
    if cn == 98 || cn == 100 {
        (PnScanState { number_lsb: Some(v), is_registered: cn == 100, value_lsb: None, ..s }, None)
    } else if cn == 99 || cn == 101 {
        (PnScanState { number_msb: Some(v), is_registered: cn == 101, value_lsb: None, ..s }, None)
    } else if cn == 38 {
        (PnScanState { value_lsb: Some(v), ..s }, None)
    } else if cn == 6 {
        match (s.number_msb, s.number_lsb) {
            (Some(msb), Some(lsb)) => {
                let number = join_7_bit(msb as int, lsb as int) as u16;
                let out = match s.value_lsb {
                    Some(l) => pn_14_bit(
                        c,
                        number,
                        join_7_bit(v as int, l as int) as u16,
                        s.is_registered,
                    ),
                    None => pn_7_bit(c, number, v, s.is_registered, DataType::DataEntry),
                };
                (s, Some(out))
            },
            _ => (s, None),
        }
    } else {
        (s, None)
    }
}

/// One step of the scanner for one channel on the message with bytes `b`: anything but a
/// Control Change message changes nothing.
pub open spec fn pn_channel_feed(s: PnScanState, b: (u8, u8, u8)) -> (PnScanState, Option<
    PnModel,
>) {
    match controller_number_of(b.0, b.1) {
        Some(cn) => pn_step(s, b.0 % 16, cn, b.2),
        None => (s, None),
    }
}

/// The step of the scanner for one channel, as a function.
pub open spec fn pn_channel_step() -> spec_fn(PnScanState, Bytes) -> (
    PnScanState,
    Option<PnModel>,
) {
    |s: PnScanState, b: Bytes| pn_channel_feed(s, b)
}

/// One step of the whole scanner: the message goes to the state of its channel, and a message
/// without channel changes nothing.
pub open spec fn pn_feed(states: Seq<PnScanState>, b: Bytes) -> (Seq<PnScanState>, Option<
    PnModel,
>) {
    route(pn_channel_step(), None, states, b)
}

/// Feeding the messages `msgs` one after the other to a scanner in the states `states`.
pub open spec fn pn_run(states: Seq<PnScanState>, msgs: Seq<Bytes>) -> (Seq<PnScanState>, Seq<
    Option<PnModel>,
>) {
    run(pn_channel_step(), None, states, msgs)
}

/// Scanner for detecting (N)RPN messages in a stream of short messages without polling.
///
/// Supports the following message sequences (`x` and `y` are the bytes that make up the
/// parameter number):
///
/// - `[x, y, MSB]`: a 7-bit message.
/// - `[x, y, LSB, MSB]`: a 14-bit message.
/// - `[x, y, MSB, MSB, ...]`: 7-bit messages.
/// - `[x, y, LSB, MSB, LSB, MSB, ...]`: 14-bit messages.
#[derive(Copy, Clone, Debug)]
pub struct ParameterNumberMessageScanner {
    scanner_by_channel: [ScannerForOneChannel; 16],
}

impl View for ParameterNumberMessageScanner {
    type V = Seq<PnScanState>;

    closed spec fn view(&self) -> Seq<PnScanState> {
        self.scanner_by_channel@.map_values(|s: ScannerForOneChannel| s@)
    }
}

impl ParameterNumberMessageScanner {
    /// The scanner has one state per channel.
    pub proof fn lemma_one_state_per_channel(&self)
        ensures
            self@.len() == 16,
    {
    }

    /// Creates a new scanner.
    pub fn new() -> (r: ParameterNumberMessageScanner)
        ensures
            r@ == pn_initial(),
    {
        let channel_scanner = ScannerForOneChannel::new();
        let r = ParameterNumberMessageScanner { scanner_by_channel: [channel_scanner; 16] };
        assert(r.scanner_by_channel == vstd::array::spec_array_fill_for_copy_type::<
            ScannerForOneChannel,
            16,
        >(channel_scanner));
        assert(r@ =~= pn_initial());
        r
    }

    /// Feeds the scanner a single short message.
    ///
    /// Returns the (N)RPN message if one has been detected.
    pub fn feed<M: ShortMessage>(&mut self, msg: &M) -> (r: Option<ParameterNumberMessage>)
        ensures
            (final(self)@, opt_view(r)) == pn_feed(
                old(self)@,
                (msg.spec_status_byte(), msg.spec_data_byte_1(), msg.spec_data_byte_2()),
            ),
    {
        let channel = match msg.channel() {
            Some(c) => c,
            None => return None,
        };
        let i = channel.get() as usize;
        let mut s = self.scanner_by_channel[i];
        let r = s.feed(msg);
        self.scanner_by_channel[i] = s;
        assert(self@ =~= old(self)@.update(i as int, s@));
        r
    }

    /// Resets the scanner, discarding all intermediate scanning progress.
    pub fn reset(&mut self)
        ensures
            final(self)@ == pn_initial(),
    {
        let mut i: usize = 0;
        while i < 16
            invariant
                0 <= i <= 16,
                forall|j: int| 0 <= j < i ==> self.scanner_by_channel@[j]@ == pn_empty(),
            decreases 16 - i,
        {
            let mut s = self.scanner_by_channel[i];
            s.reset();
            self.scanner_by_channel[i] = s;
            i = i + 1;
        }
        assert(self@ =~= pn_initial());
    }
}

impl Default for ParameterNumberMessageScanner {
    fn default() -> (r: ParameterNumberMessageScanner)
        ensures
            r@ == pn_initial(),
    {
        ParameterNumberMessageScanner::new()
    }
}

/// The scanner state of one channel.
#[derive(Copy, Clone, Debug)]
struct ScannerForOneChannel {
    number_msb: Option<U7>,
    number_lsb: Option<U7>,
    is_registered: bool,
    value_lsb: Option<U7>,
}

impl View for ScannerForOneChannel {
    type V = PnScanState;

    closed spec fn view(&self) -> PnScanState {
        PnScanState {
            number_msb: opt_view(self.number_msb),
            number_lsb: opt_view(self.number_lsb),
            is_registered: self.is_registered,
            value_lsb: opt_view(self.value_lsb),
        }
    }
}

impl ScannerForOneChannel {
    fn new() -> (r: ScannerForOneChannel)
        ensures
            r@ == pn_empty(),
    {
        ScannerForOneChannel {
            number_msb: None,
            number_lsb: None,
            is_registered: false,
            value_lsb: None,
        }
    }

    pub fn feed<M: ShortMessage>(&mut self, msg: &M) -> (r: Option<ParameterNumberMessage>)
        requires
            channel_of(msg.spec_status_byte()) is Some,
        ensures
            (final(self)@, opt_view(r)) == pn_channel_feed(
                old(self)@,
                (msg.spec_status_byte(), msg.spec_data_byte_1(), msg.spec_data_byte_2()),
            ),
    {
        let controller_number = match msg.controller_number() {
            Some(cn) => cn,
            None => return None,
        };
        let control_value = match msg.control_value() {
            Some(v) => v,
            None => return None,
        };
        let channel = match msg.channel() {
            Some(c) => c,
            None => return None,
        };
        match controller_number.get() {
            98 => self.process_number_lsb(control_value, false),
            99 => self.process_number_msb(control_value, false),
            100 => self.process_number_lsb(control_value, true),
            101 => self.process_number_msb(control_value, true),
            38 => self.process_value_lsb(control_value),
            6 => self.process_value_msb(channel, control_value),
            _ => None,
        }
    }

    pub fn reset(&mut self)
        ensures
            final(self)@ == pn_empty(),
    {
        self.number_msb = None;
        self.number_lsb = None;
        self.is_registered = false;
        self.reset_value();
    }

    fn process_number_lsb(&mut self, number_lsb: U7, is_registered: bool) -> (r: Option<
        ParameterNumberMessage,
    >)
        ensures
            final(self)@ == (PnScanState {
                number_lsb: Some(number_lsb@),
                is_registered,
                value_lsb: None,
                ..old(self)@
            }),
            r is None,
    {
        self.reset_value();
        self.number_lsb = Some(number_lsb);
        self.is_registered = is_registered;
        None
    }

    fn process_number_msb(&mut self, number_msb: U7, is_registered: bool) -> (r: Option<
        ParameterNumberMessage,
    >)
        ensures
            final(self)@ == (PnScanState {
                number_msb: Some(number_msb@),
                is_registered,
                value_lsb: None,
                ..old(self)@
            }),
            r is None,
    {
        self.reset_value();
        self.number_msb = Some(number_msb);
        self.is_registered = is_registered;
        None
    }

    fn process_value_lsb(&mut self, value_lsb: U7) -> (r: Option<ParameterNumberMessage>)
        ensures
            final(self)@ == (PnScanState { value_lsb: Some(value_lsb@), ..old(self)@ }),
            r is None,
    {
        self.value_lsb = Some(value_lsb);
        None
    }

    fn process_value_msb(&mut self, channel: Channel, value_msb: U7) -> (r: Option<
        ParameterNumberMessage,
    >)
        ensures
            (final(self)@, opt_view(r)) == pn_step(old(self)@, channel@, 6, value_msb@),
    {
        let number_lsb = match self.number_lsb {
            Some(b) => b,
            None => return None,
        };
        let number_msb = match self.number_msb {
            Some(b) => b,
            None => return None,
        };
        let number = build_14_bit_value_from_two_7_bit_values(number_msb, number_lsb);
        let msg = match self.value_lsb {
            Some(value_lsb) => ParameterNumberMessage::fourteen_bit(
                channel,
                number,
                build_14_bit_value_from_two_7_bit_values(value_msb, value_lsb),
                self.is_registered,
            ),
            None => ParameterNumberMessage::seven_bit(
                channel,
                number,
                value_msb,
                self.is_registered,
                DataType::DataEntry,
            ),
        };
        Some(msg)
    }

    fn reset_value(&mut self)
        ensures
            final(self)@ == (PnScanState { value_lsb: None, ..old(self)@ }),
    {
        self.value_lsb = None;
    }
}

/// Channel independence: for each channel, feeding a stream yields the same outputs in the
/// same order as feeding only that channel's messages to a separate scanner in the same state.
pub proof fn pn_channels_are_independent(states: Seq<PnScanState>, msgs: Seq<Bytes>, c: u8)
    requires
        states.len() == 16,
        c < 16,
    ensures
        outputs_on_channel(msgs, pn_run(states, msgs).1, c) == pn_run(
            states,
            on_channel(msgs, c),
        ).1,
{
    lemma_interleaving_is_irrelevant(pn_channel_step(), None, states, msgs, c);
}

/// A reset scanner behaves like a fresh one: after `reset`, feeding any messages yields the
/// same outputs as feeding them to a scanner made by `new`.
pub proof fn pn_reset_is_fresh(reset: Seq<PnScanState>, fresh: Seq<PnScanState>, msgs: Seq<Bytes>)
    requires
        reset == pn_initial(),
        fresh == pn_initial(),
    ensures
        pn_run(reset, msgs).1 == pn_run(fresh, msgs).1,
{
}

/// Messages that cannot contribute (anything but a Control Change message, or one whose
/// controller number is none of 6, 38 and 98 to 101) change nothing and yield nothing.
pub proof fn pn_ignores_non_contributing(states: Seq<PnScanState>, b: Bytes)
    requires
        states.len() == 16,
        is_status_byte(b.0),
        controller_number_of(b.0, b.1) is None || !(b.1 == 6 || b.1 == 38 || (98 <= b.1
            <= 101)),
    ensures
        pn_feed(states, b) == (states, None::<PnModel>),
{
    match channel_of(b.0) {
        Some(c) => {
            assert(states.update(c as int, states[c as int]) =~= states);
        },
        None => {},
    }
}

/// A non-registered number MSB, number LSB and value MSB yield nothing, nothing, and then the
/// 7-bit message, whatever the scanner saw before.
pub proof fn pn_7_bit_sequence(
    states: Seq<PnScanState>,
    c: u8,
    number_msb: u8,
    number_lsb: u8,
    v: u8,
)
    requires
        states.len() == 16,
        c < 16,
    ensures
        pn_run(
            states,
            seq![cc_bytes(c, 99, number_msb), cc_bytes(c, 98, number_lsb), cc_bytes(c, 6, v)],
        ).1 == seq![
            None,
            None,
            Some(
                pn_7_bit(
                    c,
                    join_7_bit(number_msb as int, number_lsb as int) as u16,
                    v,
                    false,
                    DataType::DataEntry,
                ),
            ),
        ],
{
    let msgs = seq![cc_bytes(c, 99, number_msb), cc_bytes(c, 98, number_lsb), cc_bytes(c, 6, v)];
    assert(((0xb0 + c) as u8) % 16 == c);
    let (s1, o1) = pn_feed(states, msgs[0]);
    let (s2, o2) = pn_feed(s1, msgs[1]);
    let (s3, o3) = pn_feed(s2, msgs[2]);
    assert(msgs.drop_first().drop_first().drop_first() =~= Seq::<Bytes>::empty());
    assert(pn_run(s3, msgs.drop_first().drop_first().drop_first()).1 =~= Seq::empty());
    assert(pn_run(s2, msgs.drop_first().drop_first()).1 =~= seq![o3]);
    assert(pn_run(s1, msgs.drop_first()).1 =~= seq![o2, o3]);
    assert(pn_run(states, msgs).1 =~= seq![o1, o2, o3]);
}

/// A registered number MSB, number LSB, value LSB and value MSB yield nothing three times, and
/// then the 14-bit message, whatever the scanner saw before.
pub proof fn pn_14_bit_sequence(
    states: Seq<PnScanState>,
    c: u8,
    number_msb: u8,
    number_lsb: u8,
    value_lsb: u8,
    value_msb: u8,
)
    requires
        states.len() == 16,
        c < 16,
    ensures
        pn_run(
            states,
            seq![
                cc_bytes(c, 101, number_msb),
                cc_bytes(c, 100, number_lsb),
                cc_bytes(c, 38, value_lsb),
                cc_bytes(c, 6, value_msb),
            ],
        ).1 == seq![
            None,
            None,
            None,
            Some(
                pn_14_bit(
                    c,
                    join_7_bit(number_msb as int, number_lsb as int) as u16,
                    join_7_bit(value_msb as int, value_lsb as int) as u16,
                    true,
                ),
            ),
        ],
{
    let msgs = seq![
        cc_bytes(c, 101, number_msb),
        cc_bytes(c, 100, number_lsb),
        cc_bytes(c, 38, value_lsb),
        cc_bytes(c, 6, value_msb),
    ];
    assert(((0xb0 + c) as u8) % 16 == c);
    let (s1, o1) = pn_feed(states, msgs[0]);
    let (s2, o2) = pn_feed(s1, msgs[1]);
    let (s3, o3) = pn_feed(s2, msgs[2]);
    let (s4, o4) = pn_feed(s3, msgs[3]);
    let m1 = msgs.drop_first();
    let m2 = m1.drop_first();
    let m3 = m2.drop_first();
    assert(m3.drop_first() =~= Seq::<Bytes>::empty());
    assert(pn_run(s4, m3.drop_first()).1 =~= Seq::empty());
    assert(pn_run(s3, m3).1 =~= seq![o4]);
    assert(pn_run(s2, m2).1 =~= seq![o3, o4]);
    assert(pn_run(s1, m1).1 =~= seq![o2, o3, o4]);
    assert(pn_run(states, msgs).1 =~= seq![o1, o2, o3, o4]);
}

} // verus!
