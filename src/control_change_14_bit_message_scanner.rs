//! Detection of 14-bit Control Change messages in a stream of short messages.
use crate::bits::{build_14_bit_value_from_two_7_bit_values, join_7_bit, opt_view};
use crate::channels::{
    lemma_interleaving_is_irrelevant, on_channel, outputs_on_channel, route, run, Bytes,
};
use crate::channel::Channel;
use crate::control_change_14_bit_message::ControlChange14BitMessage;
use crate::controller_number::ControllerNumber;
use crate::parameter_number_message::cc_bytes;
use crate::short_message::{channel_of, controller_number_of, is_status_byte, ShortMessage};
use crate::u7::U7;
use vstd::prelude::*;

verus! {

/// What the scanner remembers for one channel: the controller number and the value of the last
/// most significant byte.
pub type Cc14State = (Option<u8>, Option<u8>);

/// The state of a channel that has seen nothing yet.
pub open spec fn cc14_empty() -> Cc14State {
    (None, None)
}

/// The state of a fresh scanner: one empty state per channel.
pub open spec fn cc14_initial() -> Seq<Cc14State> {
    Seq::new(16, |i: int| cc14_empty())
}

/// One step of the scanner for channel `c` on a Control Change message with controller number
/// `cn` and value `v`: a controller number from 0 to 31 records a most significant byte (the
/// last one wins), its partner 32 above completes a message with the recorded byte.
pub open spec fn cc14_step(s: Cc14State, c: u8, cn: u8, v: u8) -> (Cc14State, Option<
    (u8, u8, u16),
>) {
    if cn < 32 {
        ((Some(cn), Some(v)), None)
    } else if cn < 64 {
        match s {
            (Some(m), Some(vm)) => if cn == m + 32 {
                (s, Some((c, m, join_7_bit(vm as int, v as int) as u16)))
            } else {
                (s, None)
            },
            _ => (s, None),
        }
    } else {
        (s, None)
    }
}

/// One step of the scanner for one channel on the message with bytes `b`: anything but a
/// Control Change message changes nothing.
pub open spec fn cc14_channel_feed(s: Cc14State, b: (u8, u8, u8)) -> (Cc14State, Option<
    (u8, u8, u16),
>) {
    match controller_number_of(b.0, b.1) {
        Some(cn) => cc14_step(s, b.0 % 16, cn, b.2),
        None => (s, None),
    }
}

/// The step of the scanner for one channel, as a function.
pub open spec fn cc14_channel_step() -> spec_fn(Cc14State, Bytes) -> (Cc14State, Option<
    (u8, u8, u16),
>) {
    |s: Cc14State, b: Bytes| cc14_channel_feed(s, b)
}

/// One step of the whole scanner: the message goes to the state of its channel, and a message
/// without channel changes nothing.
pub open spec fn cc14_feed(states: Seq<Cc14State>, b: Bytes) -> (Seq<Cc14State>, Option<
    (u8, u8, u16),
>) {
    route(cc14_channel_step(), None, states, b)
}

/// Feeding the messages `msgs` one after the other to a scanner in the states `states`.
pub open spec fn cc14_run(states: Seq<Cc14State>, msgs: Seq<Bytes>) -> (Seq<Cc14State>, Seq<
    Option<(u8, u8, u16)>,
>) {
    run(cc14_channel_step(), None, states, msgs)
}

/// Scanner for detecting 14-bit Control Change messages in a stream of short MIDI messages.
///
/// Each of the 16 channels is scanned independently.
#[derive(Copy, Clone, Debug)]
pub struct ControlChange14BitMessageScanner {
    scanner_by_channel: [ScannerForOneChannel; 16],
}

impl View for ControlChange14BitMessageScanner {
    type V = Seq<Cc14State>;

    closed spec fn view(&self) -> Seq<Cc14State> {
        self.scanner_by_channel@.map_values(|s: ScannerForOneChannel| s@)
    }
}

impl ControlChange14BitMessageScanner {
    /// The scanner has one state per channel.
    pub proof fn lemma_one_state_per_channel(&self)
        ensures
            self@.len() == 16,
    {
    }

    /// Creates a new scanner.
    pub fn new() -> (r: ControlChange14BitMessageScanner)
        ensures
            r@ == cc14_initial(),
    {
        let channel_scanner = ScannerForOneChannel::new();
        let r = ControlChange14BitMessageScanner { scanner_by_channel: [channel_scanner; 16] };
        assert(r.scanner_by_channel == vstd::array::spec_array_fill_for_copy_type::<
            ScannerForOneChannel,
            16,
        >(channel_scanner));
        assert(r@ =~= cc14_initial());
        r
    }

    /// Feeds the scanner a single short message.
    ///
    /// Returns the 14-bit Control Change message if one has been detected.
    pub fn feed<M: ShortMessage>(&mut self, msg: &M) -> (r: Option<ControlChange14BitMessage>)
        ensures
            (final(self)@, opt_view(r)) == cc14_feed(
                old(self)@,
                (msg.spec_status_byte(), msg.spec_data_byte_1(), msg.spec_data_byte_2()),
            ),
    {
        let channel = match msg.channel() {
            Some(c) => c,
            None => return None,
        };
        let i = channel.get() as usize;
        let mut s = self.scanner_by_channel[i];
        let r = s.feed(msg);
        self.scanner_by_channel[i] = s;
        assert(self@ =~= old(self)@.update(i as int, s@));
        r
    }

    /// Resets the scanner, discarding all intermediate scanning progress.
    pub fn reset(&mut self)
        ensures
            final(self)@ == cc14_initial(),
    {
        let mut i: usize = 0;
        while i < 16
            invariant
                0 <= i <= 16,
                forall|j: int| 0 <= j < i ==> self.scanner_by_channel@[j]@ == cc14_empty(),
            decreases 16 - i,
        {
            let mut s = self.scanner_by_channel[i];
            s.reset();
            self.scanner_by_channel[i] = s;
            i = i + 1;
        }
        assert(self@ =~= cc14_initial());
    }
}

impl Default for ControlChange14BitMessageScanner {
    fn default() -> (r: ControlChange14BitMessageScanner)
        ensures
            r@ == cc14_initial(),
    {
        ControlChange14BitMessageScanner::new()
    }
}

/// The scanner state of one channel.
#[derive(Copy, Clone, Debug)]
struct ScannerForOneChannel {
    msb_controller_number: Option<ControllerNumber>,
    value_msb: Option<U7>,
}

impl View for ScannerForOneChannel {
    type V = Cc14State;

    closed spec fn view(&self) -> Cc14State {
        (opt_view(self.msb_controller_number), opt_view(self.value_msb))
    }
}

impl ScannerForOneChannel {
    fn new() -> (r: ScannerForOneChannel)
        ensures
            r@ == cc14_empty(),
    {
        ScannerForOneChannel { msb_controller_number: None, value_msb: None }
    }

    fn feed<M: ShortMessage>(&mut self, msg: &M) -> (r: Option<ControlChange14BitMessage>)
        requires
            channel_of(msg.spec_status_byte()) is Some,
        ensures
            (final(self)@, opt_view(r)) == cc14_channel_feed(
                old(self)@,
                (msg.spec_status_byte(), msg.spec_data_byte_1(), msg.spec_data_byte_2()),
            ),
    {
        let controller_number = match msg.controller_number() {
            Some(cn) => cn,
            None => return None,
        };
        let control_value = match msg.control_value() {
            Some(v) => v,
            None => return None,
        };
        let channel = match msg.channel() {
            Some(c) => c,
            None => return None,
        };
        let n = controller_number.get();
        if n < 32 {
            self.process_value_msb(controller_number, control_value)
        } else if n < 64 {
            self.process_value_lsb(channel, controller_number, control_value)
        } else {
            None
        }
    }

    fn reset(&mut self)
        ensures
            final(self)@ == cc14_empty(),
    {
        self.msb_controller_number = None;
        self.value_msb = None;
    }

    fn process_value_msb(&mut self, msb_controller_number: ControllerNumber, value_msb: U7) -> (r:
        Option<ControlChange14BitMessage>)
        requires
            msb_controller_number@ < 32,
        ensures
            final(self)@ == (Some(msb_controller_number@), Some(value_msb@)),
            r is None,
    {
        self.msb_controller_number = Some(msb_controller_number);
        self.value_msb = Some(value_msb);
        None
    }

    fn process_value_lsb(
        &mut self,
        channel: Channel,
        lsb_controller_number: ControllerNumber,
        value_lsb: U7,
    ) -> (r: Option<ControlChange14BitMessage>)
        requires
            32 <= lsb_controller_number@ < 64,
        ensures
            (final(self)@, opt_view(r)) == cc14_step(
                old(self)@,
                channel@,
                lsb_controller_number@,
                value_lsb@,
            ),
    {
        let msb_controller_number = match self.msb_controller_number {
            Some(cn) => cn,
            None => return None,
        };
        let value_msb = match self.value_msb {
            Some(v) => v,
            None => return None,
        };
        let expected = match msb_controller_number.corresponding_14_bit_lsb_controller_number() {
            Some(cn) => cn,
            None => return None,
        };
        if lsb_controller_number.get() != expected.get() {
            return None;
        }
        let value = build_14_bit_value_from_two_7_bit_values(value_msb, value_lsb);
        Some(ControlChange14BitMessage::new(channel, msb_controller_number, value))
    }
}

/// Channel independence: for each channel, feeding a stream yields the same outputs in the
/// same order as feeding only that channel's messages to a separate scanner in the same state.
pub proof fn cc14_channels_are_independent(states: Seq<Cc14State>, msgs: Seq<Bytes>, c: u8)
    requires
        states.len() == 16,
        c < 16,
    ensures
        outputs_on_channel(msgs, cc14_run(states, msgs).1, c) == cc14_run(
            states,
            on_channel(msgs, c),
        ).1,
{
    lemma_interleaving_is_irrelevant(cc14_channel_step(), None, states, msgs, c);
}

/// A reset scanner behaves like a fresh one: after `reset`, feeding any messages yields the
/// same outputs as feeding them to a scanner made by `new`.
pub proof fn cc14_reset_is_fresh(reset: Seq<Cc14State>, fresh: Seq<Cc14State>, msgs: Seq<Bytes>)
    requires
        reset == cc14_initial(),
        fresh == cc14_initial(),
    ensures
        cc14_run(reset, msgs).1 == cc14_run(fresh, msgs).1,
{
}

/// Round trip: the most significant 7 bits of a value on a controller number from 0 to 31,
/// then its least significant 7 bits on the controller number 32 above, yield nothing and then
/// the 14-bit message with that value, whatever the scanner saw before.
pub proof fn cc14_round_trip(states: Seq<Cc14State>, c: u8, n: u8, v: u16)
    requires
        states.len() == 16,
        c < 16,
        n < 32,
        v < 16384,
    ensures
        cc14_run(
            states,
            seq![cc_bytes(c, n, (v / 128) as u8), cc_bytes(c, (n + 32) as u8, (v % 128) as u8)],
        ).1 == seq![None, Some((c, n, v))],
{
    let msgs = seq![cc_bytes(c, n, (v / 128) as u8), cc_bytes(c, (n + 32) as u8, (v % 128) as u8)];
    assert(((0xb0 + c) as u8) % 16 == c);
    let (s1, o1) = cc14_feed(states, msgs[0]);
    let (s2, o2) = cc14_feed(s1, msgs[1]);
    assert(msgs.drop_first().drop_first() =~= Seq::<Bytes>::empty());
    assert(cc14_run(s2, msgs.drop_first().drop_first()).1 =~= Seq::empty());
    assert(cc14_run(s1, msgs.drop_first()).1 =~= seq![o2]);
    assert(join_7_bit((v / 128) as u8 as int, (v % 128) as u8 as int) == v);
    assert(cc14_run(states, msgs).1 =~= seq![o1, o2]);
}

/// The last most significant byte wins: of two most significant bytes on different controller
/// numbers, only the second pairs with the least significant byte that follows.
pub proof fn cc14_last_msb_wins(
    states: Seq<Cc14State>,
    c: u8,
    n1: u8,
    a: u8,
    n2: u8,
    b: u8,
    d: u8,
)
    requires
        states.len() == 16,
        c < 16,
        n1 < 32,
        n2 < 32,
        n1 != n2,
    ensures
        cc14_run(
            states,
            seq![cc_bytes(c, n1, a), cc_bytes(c, n2, b), cc_bytes(c, (n2 + 32) as u8, d)],
        ).1 == seq![None, None, Some((c, n2, join_7_bit(b as int, d as int) as u16))],
{
    let msgs = seq![cc_bytes(c, n1, a), cc_bytes(c, n2, b), cc_bytes(c, (n2 + 32) as u8, d)];
    assert(((0xb0 + c) as u8) % 16 == c);
    let (s1, o1) = cc14_feed(states, msgs[0]);
    let (s2, o2) = cc14_feed(s1, msgs[1]);
    let (s3, o3) = cc14_feed(s2, msgs[2]);
    assert(msgs.drop_first().drop_first().drop_first() =~= Seq::<Bytes>::empty());
    assert(cc14_run(s3, msgs.drop_first().drop_first().drop_first()).1 =~= Seq::empty());
    assert(cc14_run(s2, msgs.drop_first().drop_first()).1 =~= seq![o3]);
    assert(cc14_run(s1, msgs.drop_first()).1 =~= seq![o2, o3]);
    assert(cc14_run(states, msgs).1 =~= seq![o1, o2, o3]);
}

/// Messages that cannot contribute (anything but a Control Change message, or one whose
/// controller number is 64 or above) change nothing and yield nothing.
pub proof fn cc14_ignores_non_contributing(states: Seq<Cc14State>, b: Bytes)
    requires
        states.len() == 16,
        is_status_byte(b.0),
        controller_number_of(b.0, b.1) is None || b.1 >= 64,
    ensures
        cc14_feed(states, b) == (states, None::<(u8, u8, u16)>),
{
    match channel_of(b.0) {
        Some(c) => {
            assert(states.update(c as int, states[c as int]) =~= states);
        },
        None => {},
    }
}

} // verus!
