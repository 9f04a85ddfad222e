//! Detection of (N)RPN messages in a stream of short messages, with a timeout resolved by
//! polling.
use crate::bits::{build_14_bit_value_from_two_7_bit_values, join_7_bit, opt_view};
use crate::channels::{
    lemma_interleaving_is_irrelevant, on_channel, outputs_on_channel, route, run, Bytes,
};
use crate::channel::Channel;
use crate::clock::{elapsed, nanos, now};
use crate::parameter_number_message::{
    cc_bytes, pn_14_bit, pn_7_bit, DataType, ParameterNumberMessage, PnModel,
};
use crate::short_message::{channel_of, controller_number_of, is_status_byte, ShortMessage};
use crate::u14::U14;
use crate::u7::U7;
use std::time::Instant;
use vstd::prelude::*;

verus! {

/// A complete parameter number.
pub struct NumberModel {
    pub msb: u8,
    pub lsb: u8,
    pub is_registered: bool,
}

/// What the polling scanner remembers for one channel (without the arrival time of a pending
/// value byte).
pub enum PollState {
    /// The parameter number is not complete yet.
    WaitingForNumberCompletion { first_number_byte: Option<u8>, is_registered: bool, is_msb: bool },
    /// The number is complete, no value byte has arrived.
    WaitingForFirstValueByte { number: NumberModel },
    /// One value byte has arrived, and it is not yet known whether a second one follows.
    ValuePending { number: NumberModel, first_value_byte: u8, is_msb: bool },
    /// Both value bytes have arrived.
    FourteenBitValueComplete { number: NumberModel, value_msb: u8, value_lsb: u8 },
}

/// The outputs of one fed message: none, one or two messages.
pub type PollOutputs = (Option<PnModel>, Option<PnModel>);

/// The 14-bit parameter number.
pub open spec fn number_of(n: NumberModel) -> u16 {
    join_7_bit(n.msb as int, n.lsb as int) as u16
}

/// The state of a channel that has seen nothing yet.
pub open spec fn poll_empty() -> PollState {
    PollState::WaitingForNumberCompletion {
        first_number_byte: None,
        is_registered: false,
        is_msb: false,
    }
}

/// The state of a fresh scanner: one empty state per channel.
pub open spec fn poll_initial() -> Seq<PollState> {
    Seq::new(16, |i: int| poll_empty())
}

/// The message that a pending value byte stands for once no second byte is coming: a 7-bit
/// data entry if it is an MSB, nothing if it is an LSB.
pub open spec fn resolved(c: u8, number: NumberModel, byte: u8, is_msb: bool) -> Option<PnModel> {
    if is_msb {
        Some(pn_7_bit(c, number_of(number), byte, number.is_registered, DataType::DataEntry))
    } else {
        None
    }
}

/// `number` with one half replaced by `byte`.
pub open spec fn changed_number(
    number: NumberModel,
    byte: u8,
    is_registered: bool,
    is_msb: bool,
) -> NumberModel {
    NumberModel {
        msb: if is_msb {
            byte
        } else {
            number.msb
        },
        lsb: if is_msb {
            number.lsb
        } else {
            byte
        },
        is_registered,
    }
}

/// A number byte arrives on channel `c`.
pub open spec fn poll_number_byte(
    s: PollState,
    c: u8,
    byte: u8,
    is_registered: bool,
    is_msb: bool,
) -> (PollState, Option<PnModel>) {
    match s {
        PollState::WaitingForNumberCompletion { first_number_byte, is_msb: first_is_msb, .. } => {
            match first_number_byte {
                Some(first) => if first_is_msb == is_msb {
                    (
                        PollState::WaitingForNumberCompletion {
                            first_number_byte: Some(byte),
                            is_registered,
                            is_msb,
                        },
                        None,
                    )
                } else {
                    (
                        PollState::WaitingForFirstValueByte {
                            number: NumberModel {
                                msb: if first_is_msb {
                                    first
                                } else {
                                    byte
                                },
                                lsb: if first_is_msb {
                                    byte
                                } else {
                                    first
                                },
                                is_registered,
                            },
                        },
                        None,
                    )
                },
                None => (
                    PollState::WaitingForNumberCompletion {
                        first_number_byte: Some(byte),
                        is_registered,
                        is_msb,
                    },
                    None,
                ),
            }
        },
        PollState::WaitingForFirstValueByte { number } => (
            PollState::WaitingForFirstValueByte {
                number: changed_number(number, byte, is_registered, is_msb),
            },
            None,
        ),
        PollState::FourteenBitValueComplete { number, .. } => (
            PollState::WaitingForFirstValueByte {
                number: changed_number(number, byte, is_registered, is_msb),
            },
            None,
        ),
        PollState::ValuePending { number, first_value_byte, is_msb: pending_is_msb } => (
            PollState::WaitingForFirstValueByte {
                number: changed_number(number, byte, is_registered, is_msb),
            },
            resolved(c, number, first_value_byte, pending_is_msb),
        ),
    }
}

/// A data entry byte (an MSB if `is_msb`, else an LSB) arrives on channel `c`.
pub open spec fn poll_value_byte(s: PollState, c: u8, byte: u8, is_msb: bool) -> (
    PollState,
    Option<PnModel>,
) {
    match s {
        PollState::WaitingForNumberCompletion { .. } => (s, None),
        PollState::WaitingForFirstValueByte { number } => (
            PollState::ValuePending { number, first_value_byte: byte, is_msb },
            None,
        ),
        PollState::ValuePending { number, first_value_byte, is_msb: pending_is_msb } => {
            if pending_is_msb != is_msb {
                let value_msb = if pending_is_msb {
                    first_value_byte
                } else {
                    byte
                };
                let value_lsb = if pending_is_msb {
                    byte
                } else {
                    first_value_byte
                };
                (
                    PollState::FourteenBitValueComplete { number, value_msb, value_lsb },
                    Some(
                        pn_14_bit(
                            c,
                            number_of(number),
                            join_7_bit(value_msb as int, value_lsb as int) as u16,
                            number.is_registered,
                        ),
                    ),
                )
            } else if is_msb {
                (
                    PollState::ValuePending { number, first_value_byte: byte, is_msb: true },
                    Some(
                        pn_7_bit(
                            c,
                            number_of(number),
                            first_value_byte,
                            number.is_registered,
                            DataType::DataEntry,
                        ),
                    ),
                )
            } else {
                (PollState::WaitingForFirstValueByte { number }, None)
            }
        },
        PollState::FourteenBitValueComplete { number, value_msb, value_lsb } => {
            if is_msb {
                (PollState::ValuePending { number, first_value_byte: byte, is_msb: true }, None)
            } else {
                (
                    PollState::FourteenBitValueComplete { number, value_msb, value_lsb: byte },
                    Some(
                        pn_14_bit(
                            c,
                            number_of(number),
                            join_7_bit(value_msb as int, byte as int) as u16,
                            number.is_registered,
                        ),
                    ),
                )
            }
        },
    }
}

/// An increment or decrement (`data_type`) with value `v` arrives on channel `c`.
pub open spec fn poll_inc_dec(s: PollState, c: u8, data_type: DataType, v: u8) -> (
    PollState,
    PollOutputs,
) {
    match s {
        PollState::WaitingForNumberCompletion { .. } => (s, (None, None)),
        PollState::WaitingForFirstValueByte { number } => (
            s,
            (Some(pn_7_bit(c, number_of(number), v, number.is_registered, data_type)), None),
        ),
        PollState::ValuePending { number, first_value_byte, is_msb } => if is_msb {
            (
                PollState::WaitingForFirstValueByte { number },
                (
                    Some(
                        pn_7_bit(
                            c,
                            number_of(number),
                            first_value_byte,
                            number.is_registered,
                            DataType::DataEntry,
                        ),
                    ),
                    Some(pn_7_bit(c, number_of(number), v, number.is_registered, data_type)),
                ),
            )
        } else {
            (PollState::WaitingForFirstValueByte { number }, (None, None))
        },
        PollState::FourteenBitValueComplete { number, .. } => (
            PollState::WaitingForFirstValueByte { number },
            (Some(pn_7_bit(c, number_of(number), v, number.is_registered, data_type)), None),
        ),
    }
}

/// One step of the scanner for channel `c` on a Control Change message with controller number
/// `cn` and value `v`.
pub open spec fn poll_step(s: PollState, c: u8, cn: u8, v: u8) -> (PollState, PollOutputs) {
    if cn == 98 || cn == 99 || cn == 100 || cn == 101 {
        let (t, out) = poll_number_byte(s, c, v, cn == 100 || cn == 101, cn == 99 || cn == 101);
        (t, (out, None))
    } else if cn == 38 || cn == 6 {
        let (t, out) = poll_value_byte(s, c, v, cn == 6);
        (t, (out, None))
    } else if cn == 96 {
        poll_inc_dec(s, c, DataType::DataIncrement, v)
    } else if cn == 97 {
        poll_inc_dec(s, c, DataType::DataDecrement, v)
    } else {
        (s, (None, None))
    }
}

/// One step of the scanner for one channel on the message with bytes `b`: anything but a
/// Control Change message changes nothing.
pub open spec fn poll_channel_feed(s: PollState, b: (u8, u8, u8)) -> (PollState, PollOutputs) {
    match controller_number_of(b.0, b.1) {
        Some(cn) => poll_step(s, b.0 % 16, cn, b.2),
        None => (s, (None, None)),
    }
}

/// The step of the scanner for one channel, as a function.
pub open spec fn poll_channel_step() -> spec_fn(PollState, Bytes) -> (PollState, PollOutputs) {
    |s: PollState, b: Bytes| poll_channel_feed(s, b)
}

/// One step of the whole scanner: the message goes to the state of its channel, and a message
/// without channel changes nothing.
pub open spec fn poll_feed(states: Seq<PollState>, b: Bytes) -> (Seq<PollState>, PollOutputs) {
    route(poll_channel_step(), (None, None), states, b)
}

/// Feeding the messages `msgs` one after the other to a scanner in the states `states`.
pub open spec fn poll_run(states: Seq<PollState>, msgs: Seq<Bytes>) -> (Seq<PollState>, Seq<
    PollOutputs,
>) {
    run(poll_channel_step(), (None, None), states, msgs)
}

/// What happens on channel `c` once the timeout of a pending value byte has passed: the byte is
/// resolved and the scanner waits for a new value.
pub open spec fn poll_expired(s: PollState, c: u8) -> (PollState, Option<PnModel>) {
    match s {
        PollState::ValuePending { number, first_value_byte, is_msb } => (
            PollState::WaitingForFirstValueByte { number },
            resolved(c, number, first_value_byte, is_msb),
        ),
        _ => (s, None),
    }
}

/// What polling does on channel `c` when its pending value byte (if any) arrived `elapsed`
/// nanoseconds ago and the timeout is `timeout` nanoseconds: before the timeout nothing
/// happens, once it has passed the pending byte is resolved.
pub open spec fn poll_after(s: PollState, c: u8, timeout: u64, elapsed: u128) -> (
    PollState,
    Option<PnModel>,
) {
    if elapsed < timeout as u128 {
        (s, None)
    } else {
        poll_expired(s, c)
    }
}

/// `poll_expired` on channel `c` of the whole scanner.
pub open spec fn poll_channel_expired(states: Seq<PollState>, c: u8) -> (Seq<PollState>, Option<
    PnModel,
>) {
    let (s, out) = poll_expired(states[c as int], c);
    (states.update(c as int, s), out)
}

/// `poll_after` on channel `c` of the whole scanner.
pub open spec fn poll_channel_after(states: Seq<PollState>, c: u8, timeout: u64, elapsed: u128) -> (
    Seq<PollState>,
    Option<PnModel>,
) {
    let (s, out) = poll_after(states[c as int], c, timeout, elapsed);
    (states.update(c as int, s), out)
}

/// No message at all.
pub open spec fn no_output() -> PollOutputs {
    (None, None)
}

/// The views of the two slots of a feed result.
pub open spec fn outputs_view(r: [Option<ParameterNumberMessage>; 2]) -> PollOutputs {
    (opt_view(r[0]), opt_view(r[1]))
}

/// Scanner for detecting (N)RPN messages in a stream of short messages with polling.
///
/// Supports the following message sequences (`x` and `y` are the bytes that make up the
/// parameter number, MSB is a data entry MSB or an increment / decrement value):
///
/// - `[x, y, MSB]`: a 7-bit data entry or increment / decrement message.
/// - `[x, y, MSB, LSB]`: a 14-bit data entry message.
/// - `[x, y, LSB, MSB]`: a 14-bit data entry message.
/// - `[x, y, MSB, MSB, ...]`: 7-bit data entry or increment / decrement messages.
/// - `[x, y, MSB, LSB, MSB, LSB, ...]`: 14-bit data entry messages.
/// - `[x, y, MSB, LSB, LSB, ...]`: 14-bit data entry messages.
///
/// A lone data entry MSB is only emitted by `poll` once the timeout has passed without a second
/// byte, so `poll` must be called regularly.
#[derive(Copy, Clone, Debug)]
pub struct PollingParameterNumberMessageScanner {
    timeout_nanos: u64,
    scanner_by_channel: [ScannerForOneChannel; 16],
}

impl View for PollingParameterNumberMessageScanner {
    type V = Seq<PollState>;

    closed spec fn view(&self) -> Seq<PollState> {
        self.scanner_by_channel@.map_values(|s: ScannerForOneChannel| s@)
    }
}

impl PollingParameterNumberMessageScanner {
    /// How long (in nanoseconds) the scanner waits for the second value byte.
    pub closed spec fn timeout(&self) -> u64 {
        self.timeout_nanos
    }

    /// The scanner has one state per channel.
    pub proof fn lemma_one_state_per_channel(&self)
        ensures
            self@.len() == 16,
    {
    }

    /// Creates a new scanner.
    ///
    /// The timeout (in nanoseconds) determines how long to wait for the second value byte.
    pub fn new(timeout_nanos: u64) -> (r: PollingParameterNumberMessageScanner)
        ensures
            r@ == poll_initial(),
            r.timeout() == timeout_nanos,
    {
        let channel_scanner = ScannerForOneChannel { state: State::initial() };
        let r = PollingParameterNumberMessageScanner {
            timeout_nanos,
            scanner_by_channel: [channel_scanner; 16],
        };
        assert(r.scanner_by_channel == vstd::array::spec_array_fill_for_copy_type::<
            ScannerForOneChannel,
            16,
        >(channel_scanner));
        assert(r@ =~= poll_initial());
        r
    }

    /// Feeds the scanner a single short message.
    ///
    /// Returns zero, one or two (N)RPN messages. Two if the scanner was waiting for a data entry
    /// LSB (after an MSB) and an increment or decrement arrived: then two messages are complete.
    pub fn feed<M: ShortMessage>(&mut self, msg: &M) -> (r: [Option<ParameterNumberMessage>; 2])
        ensures
            (final(self)@, outputs_view(r)) == poll_feed(
                old(self)@,
                (msg.spec_status_byte(), msg.spec_data_byte_1(), msg.spec_data_byte_2()),
            ),
            final(self).timeout() == old(self).timeout(),
    {
        let channel = match msg.channel() {
            Some(c) => c,
            None => return [None, None],
        };
        let i = channel.get() as usize;
        let mut s = self.scanner_by_channel[i];
        let r = s.feed(msg);
        self.scanner_by_channel[i] = s;
        assert(self@ =~= old(self)@.update(i as int, s@));
        r
    }

    /// Returns the (N)RPN message of the given channel as soon as the timeout of waiting for
    /// the second value byte has passed.
    ///
    /// The clock decides: this does what `poll_after` does with the time that has passed since
    /// the pending value byte arrived. So before the timeout nothing changes, after it the
    /// pending byte is resolved as `resolve_pending` does, and with a timeout of zero always the
    /// latter.
    pub fn poll(&mut self, channel: Channel) -> (r: Option<ParameterNumberMessage>)
        ensures
            (final(self)@, opt_view(r)) == poll_channel_expired(old(self)@, channel@)
                || (final(self)@ == old(self)@ && r is None),
            old(self).timeout() == 0 ==> (final(self)@, opt_view(r)) == poll_channel_expired(
                old(self)@,
                channel@,
            ),
            final(self).timeout() == old(self).timeout(),
    {
        let i = channel.get() as usize;
        let mut s = self.scanner_by_channel[i];
        let r = s.poll(channel, self.timeout_nanos);
        self.scanner_by_channel[i] = s;
        assert(self@ =~= old(self)@.update(i as int, s@));
        r
    }

    /// Does what `poll` does if the pending value byte of the given channel (if any) arrived
    /// `elapsed_nanos` nanoseconds ago: before the timeout nothing changes, once it has passed
    /// the pending byte is resolved.
    pub fn poll_after(&mut self, channel: Channel, elapsed_nanos: u128) -> (r: Option<
        ParameterNumberMessage,
    >)
        ensures
            (final(self)@, opt_view(r)) == poll_channel_after(
                old(self)@,
                channel@,
                old(self).timeout(),
                elapsed_nanos,
            ),
            final(self).timeout() == old(self).timeout(),
    {
        let i = channel.get() as usize;
        let mut s = self.scanner_by_channel[i];
        let r = s.poll_after(channel, self.timeout_nanos, elapsed_nanos);
        self.scanner_by_channel[i] = s;
        assert(self@ =~= old(self)@.update(i as int, s@));
        r
    }

    /// Resolves a pending value byte of the given channel as if its timeout had passed: a data
    /// entry MSB becomes a 7-bit message, an LSB is dropped, and the channel waits for a new
    /// value. In any other state nothing changes.
    pub fn resolve_pending(&mut self, channel: Channel) -> (r: Option<ParameterNumberMessage>)
        ensures
            (final(self)@, opt_view(r)) == poll_channel_expired(old(self)@, channel@),
            final(self).timeout() == old(self).timeout(),
    {
        let i = channel.get() as usize;
        let mut s = self.scanner_by_channel[i];
        let r = s.resolve_pending(channel);
        self.scanner_by_channel[i] = s;
        assert(self@ =~= old(self)@.update(i as int, s@));
        r
    }

    /// Resets the scanner, discarding all intermediate scanning progress. The timeout stays.
    pub fn reset(&mut self)
        ensures
            final(self)@ == poll_initial(),
            final(self).timeout() == old(self).timeout(),
    {
        let mut i: usize = 0;
        while i < 16
            invariant
                0 <= i <= 16,
                forall|j: int| 0 <= j < i ==> self.scanner_by_channel@[j]@ == poll_empty(),
                self.timeout_nanos == old(self).timeout_nanos,
            decreases 16 - i,
        {
            let mut s = self.scanner_by_channel[i];
            s.reset();
            self.scanner_by_channel[i] = s;
            i = i + 1;
        }
        assert(self@ =~= poll_initial());
    }
}

impl Default for PollingParameterNumberMessageScanner {
    /// A scanner with a timeout of zero: `poll` resolves a pending value byte at once.
    fn default() -> (r: PollingParameterNumberMessageScanner)
        ensures
            r@ == poll_initial(),
            r.timeout() == 0,
    {
        PollingParameterNumberMessageScanner::new(0)
    }
}

/// The scanner state of one channel.
#[derive(Copy, Clone, Debug)]
struct ScannerForOneChannel {
    state: State,
}

#[derive(Copy, Clone, Debug)]
enum State {
    /// As long as the parameter number is not yet complete.
    WaitingForNumberCompletion(WaitingForNumberCompletionState),
    /// As soon as the number is complete.
    WaitingForFirstValueByte(NumberState),
    /// As soon as the first data entry value byte arrived.
    ValuePending(ValuePendingState),
    /// The sequence is complete already.
    FourteenBitValueComplete(FourteenBitValueCompleteState),
}

#[derive(Copy, Clone, Debug)]
struct WaitingForNumberCompletionState {
    first_number_byte: Option<U7>,
    is_registered: bool,
    is_msb: bool,
}

#[derive(Copy, Clone, Debug)]
struct NumberState {
    msb: U7,
    lsb: U7,
    is_registered: bool,
}

#[derive(Copy, Clone, Debug)]
struct ValuePendingState {
    number_state: NumberState,
    arrival_time: Instant,
    first_value_byte: U7,
    is_msb: bool,
}

#[derive(Copy, Clone, Debug)]
struct FourteenBitValueCompleteState {
    number_state: NumberState,
    value_msb: U7,
    value_lsb: U7,
}

impl View for NumberState {
    type V = NumberModel;

    closed spec fn view(&self) -> NumberModel {
        NumberModel { msb: self.msb@, lsb: self.lsb@, is_registered: self.is_registered }
    }
}

impl View for State {
    type V = PollState;

    closed spec fn view(&self) -> PollState {
        match self {
            State::WaitingForNumberCompletion(s) => PollState::WaitingForNumberCompletion {
                first_number_byte: opt_view(s.first_number_byte),
                is_registered: s.is_registered,
                is_msb: s.is_msb,
            },
            State::WaitingForFirstValueByte(n) => PollState::WaitingForFirstValueByte {
                number: n@,
            },
            State::ValuePending(p) => PollState::ValuePending {
                number: p.number_state@,
                first_value_byte: p.first_value_byte@,
                is_msb: p.is_msb,
            },
            State::FourteenBitValueComplete(f) => PollState::FourteenBitValueComplete {
                number: f.number_state@,
                value_msb: f.value_msb@,
                value_lsb: f.value_lsb@,
            },
        }
    }
}

impl View for ScannerForOneChannel {
    type V = PollState;

    closed spec fn view(&self) -> PollState {
        self.state@
    }
}

impl State {
    fn initial() -> (r: State)
        ensures
            r@ == poll_empty(),
    {
        State::WaitingForNumberCompletion(
            WaitingForNumberCompletionState {
                first_number_byte: None,
                is_registered: false,
                is_msb: false,
            },
        )
    }
}

impl NumberState {
    fn number(&self) -> (r: U14)
        ensures
            r@ == number_of(self@),
    {
        build_14_bit_value_from_two_7_bit_values(self.msb, self.lsb)
    }

    fn process_value_byte_when_waiting_for_value(&self, byte: U7, is_msb: bool) -> (r: (
        State,
        Option<ParameterNumberMessage>,
    ))
        ensures
            r.0@ == (PollState::ValuePending { number: self@, first_value_byte: byte@, is_msb }),
            r.1 is None,
    {
        // This is the first arriving value byte. Wait for the next one.
        (
            State::ValuePending(
                ValuePendingState {
                    number_state: *self,
                    arrival_time: now(),
                    first_value_byte: byte,
                    is_msb,
                },
            ),
            None,
        )
    }
}

impl ValuePendingState {
    fn resolve(&self, channel: Channel) -> (r: Option<ParameterNumberMessage>)
        ensures
            opt_view(r) == resolved(
                channel@,
                self.number_state@,
                self.first_value_byte@,
                self.is_msb,
            ),
    {
        if self.is_msb {
            // [x, y, MSB]: no LSB arrived, so this is a 7-bit value.
            Some(
                ParameterNumberMessage::seven_bit(
                    channel,
                    self.number_state.number(),
                    self.first_value_byte,
                    self.number_state.is_registered,
                    DataType::DataEntry,
                ),
            )
        } else {
            // [x, y, LSB]: no MSB arrived, which is invalid.
            None
        }
    }

    fn process_expected_value_byte_when_pending(&self, channel: Channel, byte: U7) -> (r: (
        State,
        Option<ParameterNumberMessage>,
    ))
        ensures
            (r.0@, opt_view(r.1)) == poll_value_byte(
                State::ValuePending(*self)@,
                channel@,
                byte@,
                !self.is_msb,
            ),
    {
        let value_msb = if self.is_msb {
            self.first_value_byte
        } else {
            byte
        };
        let value_lsb = if self.is_msb {
            byte
        } else {
            self.first_value_byte
        };
        (
            State::FourteenBitValueComplete(
                FourteenBitValueCompleteState {
                    number_state: self.number_state,
                    value_msb,
                    value_lsb,
                },
            ),
            Some(
                ParameterNumberMessage::fourteen_bit(
                    channel,
                    self.number_state.number(),
                    build_14_bit_value_from_two_7_bit_values(value_msb, value_lsb),
                    self.number_state.is_registered,
                ),
            ),
        )
    }
}

impl ScannerForOneChannel {
    pub fn feed<M: ShortMessage>(&mut self, msg: &M) -> (r: [Option<ParameterNumberMessage>; 2])
        requires
            channel_of(msg.spec_status_byte()) is Some,
        ensures
            (final(self)@, outputs_view(r)) == poll_channel_feed(
                old(self)@,
                (msg.spec_status_byte(), msg.spec_data_byte_1(), msg.spec_data_byte_2()),
            ),
    {
        let controller_number = match msg.controller_number() {
            Some(cn) => cn,
            None => return [None, None],
        };
        let control_value = match msg.control_value() {
            Some(v) => v,
            None => return [None, None],
        };
        let channel = match msg.channel() {
            Some(c) => c,
            None => return [None, None],
        };
        match controller_number.get() {
            98 => [self.process_number_lsb(control_value, false, channel), None],
            99 => [self.process_number_msb(control_value, false, channel), None],
            100 => [self.process_number_lsb(control_value, true, channel), None],
            101 => [self.process_number_msb(control_value, true, channel), None],
            38 => [self.process_value_lsb(channel, control_value), None],
            6 => [self.process_value_msb(channel, control_value), None],
            96 => self.process_value_inc_dec(channel, DataType::DataIncrement, control_value),
            97 => self.process_value_inc_dec(channel, DataType::DataDecrement, control_value),
            _ => [None, None],
        }
    }

    pub fn poll(&mut self, channel: Channel, timeout_nanos: u64) -> (r: Option<
        ParameterNumberMessage,
    >)
        ensures
            (final(self)@, opt_view(r)) == poll_expired(old(self)@, channel@) || (final(self)@
                == old(self)@ && r is None),
            timeout_nanos == 0 ==> (final(self)@, opt_view(r)) == poll_expired(
                old(self)@,
                channel@,
            ),
    {
        let state = match self.state {
            State::ValuePending(s) => s,
            _ => return None,
        };
        let elapsed_nanos = nanos(&elapsed(&state.arrival_time));
        self.poll_after(channel, timeout_nanos, elapsed_nanos)
    }

    fn poll_after(&mut self, channel: Channel, timeout_nanos: u64, elapsed_nanos: u128) -> (r:
        Option<ParameterNumberMessage>)
        ensures
            (final(self)@, opt_view(r)) == poll_after(
                old(self)@,
                channel@,
                timeout_nanos,
                elapsed_nanos,
            ),
    {
        if elapsed_nanos < timeout_nanos as u128 {
            return None;
        }
        self.resolve_pending(channel)
    }

    fn resolve_pending(&mut self, channel: Channel) -> (r: Option<ParameterNumberMessage>)
        ensures
            (final(self)@, opt_view(r)) == poll_expired(old(self)@, channel@),
    {
        let state = match self.state {
            State::ValuePending(s) => s,
            _ => return None,
        };
        self.state = State::WaitingForFirstValueByte(state.number_state);
        state.resolve(channel)
    }

    pub fn reset(&mut self)
        ensures
            final(self)@ == poll_empty(),
    {
        self.state = State::initial();
    }

    fn process_number_msb(&mut self, number_msb: U7, is_registered: bool, channel: Channel) -> (r:
        Option<ParameterNumberMessage>)
        ensures
            (final(self)@, opt_view(r)) == poll_number_byte(
                old(self)@,
                channel@,
                number_msb@,
                is_registered,
                true,
            ),
    {
        self.process_number_byte(number_msb, is_registered, true, channel)
    }

    fn process_number_lsb(&mut self, number_lsb: U7, is_registered: bool, channel: Channel) -> (r:
        Option<ParameterNumberMessage>)
        ensures
            (final(self)@, opt_view(r)) == poll_number_byte(
                old(self)@,
                channel@,
                number_lsb@,
                is_registered,
                false,
            ),
    {
        self.process_number_byte(number_lsb, is_registered, false, channel)
    }

    fn process_number_byte(
        &mut self,
        byte: U7,
        is_registered: bool,
        is_msb: bool,
        channel: Channel,
    ) -> (r: Option<ParameterNumberMessage>)
        ensures
            (final(self)@, opt_view(r)) == poll_number_byte(
                old(self)@,
                channel@,
                byte@,
                is_registered,
                is_msb,
            ),
    {
        let (next_state, result) = match self.state {
            State::WaitingForNumberCompletion(state) => {
                match state.first_number_byte {
                    Some(state_byte) => {
                        // One byte has been received already.
                        if state.is_msb == is_msb {
                            // Overwrite it.
                            (
                                State::WaitingForNumberCompletion(
                                    WaitingForNumberCompletionState {
                                        first_number_byte: Some(byte),
                                        is_registered,
                                        is_msb,
                                    },
                                ),
                                None,
                            )
                        } else {
                            // The number is complete.
                            (
                                State::WaitingForFirstValueByte(
                                    NumberState {
                                        msb: if state.is_msb {
                                            state_byte
                                        } else {
                                            byte
                                        },
                                        lsb: if state.is_msb {
                                            byte
                                        } else {
                                            state_byte
                                        },
                                        is_registered,
                                    },
                                ),
                                None,
                            )
                        }
                    },
                    None => {
                        // This is the first byte.
                        (
                            State::WaitingForNumberCompletion(
                                WaitingForNumberCompletionState {
                                    first_number_byte: Some(byte),
                                    is_registered,
                                    is_msb,
                                },
                            ),
                            None,
                        )
                    },
                }
            },
            State::WaitingForFirstValueByte(state) => {
                // No pending value. Change the number and start waiting for a value.
                (
                    State::WaitingForFirstValueByte(
                        NumberState {
                            lsb: if is_msb {
                                state.lsb
                            } else {
                                byte
                            },
                            msb: if is_msb {
                                byte
                            } else {
                                state.msb
                            },
                            is_registered,
                        },
                    ),
                    None,
                )
            },
            State::FourteenBitValueComplete(complete) => {
                // Everything has been delivered already. Change the number and reset the value.
                let state = complete.number_state;
                (
                    State::WaitingForFirstValueByte(
                        NumberState {
                            lsb: if is_msb {
                                state.lsb
                            } else {
                                byte
                            },
                            msb: if is_msb {
                                byte
                            } else {
                                state.msb
                            },
                            is_registered,
                        },
                    ),
                    None,
                )
            },
            State::ValuePending(state) => {
                // A value is pending. Deliver it, change the number and reset the value.
                (
                    State::WaitingForFirstValueByte(
                        NumberState {
                            lsb: if is_msb {
                                state.number_state.lsb
                            } else {
                                byte
                            },
                            msb: if is_msb {
                                byte
                            } else {
                                state.number_state.msb
                            },
                            is_registered,
                        },
                    ),
                    state.resolve(channel),
                )
            },
        };
        self.state = next_state;
        result
    }

    fn process_value_lsb(&mut self, channel: Channel, value_lsb: U7) -> (r: Option<
        ParameterNumberMessage,
    >)
        ensures
            (final(self)@, opt_view(r)) == poll_value_byte(
                old(self)@,
                channel@,
                value_lsb@,
                false,
            ),
    {
        let (next_state, result) = match self.state {
            State::WaitingForNumberCompletion(_) => {
                // Invalid. Ignore.
                return None;
            },
            State::WaitingForFirstValueByte(state) => {
                state.process_value_byte_when_waiting_for_value(value_lsb, false)
            },
            State::ValuePending(state) => {
                if state.is_msb {
                    // This is the awaited byte. The value is complete.
                    state.process_expected_value_byte_when_pending(channel, value_lsb)
                } else {
                    // An MSB was awaited but another LSB arrived, which is invalid. Wait for a
                    // value again.
                    (State::WaitingForFirstValueByte(state.number_state), None)
                }
            },
            State::FourteenBitValueComplete(state) => {
                // The value was complete already. This is a fine adjustment.
                (
                    State::FourteenBitValueComplete(
                        FourteenBitValueCompleteState {
                            number_state: state.number_state,
                            value_msb: state.value_msb,
                            value_lsb,
                        },
                    ),
                    Some(
                        ParameterNumberMessage::fourteen_bit(
                            channel,
                            state.number_state.number(),
                            build_14_bit_value_from_two_7_bit_values(state.value_msb, value_lsb),
                            state.number_state.is_registered,
                        ),
                    ),
                )
            },
        };
        self.state = next_state;
        result
    }

    fn process_value_msb(&mut self, channel: Channel, value_msb: U7) -> (r: Option<
        ParameterNumberMessage,
    >)
        ensures
            (final(self)@, opt_view(r)) == poll_value_byte(
                old(self)@,
                channel@,
                value_msb@,
                true,
            ),
    {
        let (next_state, result) = match self.state {
            State::WaitingForNumberCompletion(_) => {
                // Invalid. Ignore.
                return None;
            },
            State::WaitingForFirstValueByte(state) => {
                state.process_value_byte_when_waiting_for_value(value_msb, true)
            },
            State::ValuePending(state) => {
                if state.is_msb {
                    // An LSB was awaited but another MSB arrived: the pending byte is a complete
                    // 7-bit message, and this one starts the next.
                    (
                        State::ValuePending(
                            ValuePendingState {
                                number_state: state.number_state,
                                arrival_time: now(),
                                first_value_byte: value_msb,
                                is_msb: true,
                            },
                        ),
                        Some(
                            ParameterNumberMessage::seven_bit(
                                channel,
                                state.number_state.number(),
                                state.first_value_byte,
                                state.number_state.is_registered,
                                DataType::DataEntry,
                            ),
                        ),
                    )
                } else {
                    // This is the awaited byte. The value is complete.
                    state.process_expected_value_byte_when_pending(channel, value_msb)
                }
            },
            State::FourteenBitValueComplete(state) => {
                // The beginning of a new [MSB, LSB] sequence for the same parameter number.
                (
                    State::ValuePending(
                        ValuePendingState {
                            number_state: state.number_state,
                            arrival_time: now(),
                            first_value_byte: value_msb,
                            is_msb: true,
                        },
                    ),
                    None,
                )
            },
        };
        self.state = next_state;
        result
    }

    fn process_value_inc_dec(
        &mut self,
        channel: Channel,
        data_type: DataType,
        value: U7,
    ) -> (r: [Option<ParameterNumberMessage>; 2])
        ensures
            (final(self)@, outputs_view(r)) == poll_inc_dec(
                old(self)@,
                channel@,
                data_type,
                value@,
            ),
    {
        let (next_state, result) = match self.state {
            State::WaitingForNumberCompletion(_) => {
                // Invalid. Ignore.
                return [None, None];
            },
            State::WaitingForFirstValueByte(state) => {
                let msg = ParameterNumberMessage::seven_bit(
                    channel,
                    state.number(),
                    value,
                    state.is_registered,
                    data_type,
                );
                (State::WaitingForFirstValueByte(state), [Some(msg), None])
            },
            State::ValuePending(state) => {
                if state.is_msb {
                    // An LSB was awaited but an increment or decrement arrived: a complete 7-bit
                    // data entry message plus a complete increment / decrement message.
                    let entry = ParameterNumberMessage::seven_bit(
                        channel,
                        state.number_state.number(),
                        state.first_value_byte,
                        state.number_state.is_registered,
                        DataType::DataEntry,
                    );
                    let inc_dec = ParameterNumberMessage::seven_bit(
                        channel,
                        state.number_state.number(),
                        value,
                        state.number_state.is_registered,
                        data_type,
                    );
                    (
                        State::WaitingForFirstValueByte(state.number_state),
                        [Some(entry), Some(inc_dec)],
                    )
                } else {
                    // An MSB was awaited but an increment or decrement arrived, which is
                    // invalid. Wait for a value again.
                    (State::WaitingForFirstValueByte(state.number_state), [None, None])
                }
            },
            State::FourteenBitValueComplete(state) => {
                // An increment or decrement for the same parameter number as before.
                let msg = ParameterNumberMessage::seven_bit(
                    channel,
                    state.number_state.number(),
                    value,
                    state.number_state.is_registered,
                    data_type,
                );
                (State::WaitingForFirstValueByte(state.number_state), [Some(msg), None])
            },
        };
        self.state = next_state;
        result
    }
}

/// Channel independence: for each channel, feeding a stream yields the same outputs in the
/// same order as feeding only that channel's messages to a separate scanner in the same state.
pub proof fn poll_channels_are_independent(states: Seq<PollState>, msgs: Seq<Bytes>, c: u8)
    requires
        states.len() == 16,
        c < 16,
    ensures
        outputs_on_channel(msgs, poll_run(states, msgs).1, c) == poll_run(
            states,
            on_channel(msgs, c),
        ).1,
{
    lemma_interleaving_is_irrelevant(poll_channel_step(), (None, None), states, msgs, c);
}

/// A reset scanner behaves like a fresh one: after `reset` (which keeps the timeout), feeding
/// any messages yields the same outputs as feeding them to a scanner made by `new`.
pub proof fn poll_reset_is_fresh(reset: Seq<PollState>, fresh: Seq<PollState>, msgs: Seq<Bytes>)
    requires
        reset == poll_initial(),
        fresh == poll_initial(),
    ensures
        poll_run(reset, msgs) == poll_run(fresh, msgs),
{
}

/// Messages that cannot contribute (anything but a Control Change message, or one whose
/// controller number is none of 6, 38 and 96 to 101) change nothing and yield nothing.
pub proof fn poll_ignores_non_contributing(states: Seq<PollState>, b: Bytes)
    requires
        states.len() == 16,
        is_status_byte(b.0),
        controller_number_of(b.0, b.1) is None || !(b.1 == 6 || b.1 == 38 || (96 <= b.1
            <= 101)),
    ensures
        poll_feed(states, b) == (states, (None::<PnModel>, None::<PnModel>)),
{
    match channel_of(b.0) {
        Some(c) => {
            assert(states.update(c as int, states[c as int]) =~= states);
        },
        None => {},
    }
}

/// A lone data entry MSB waits for the timeout: on a fresh channel, a non-registered number
/// MSB, number LSB and value MSB yield nothing; polling then yields nothing while less than
/// `timeout` nanoseconds have passed since the value byte, and the 7-bit message once they have.
pub proof fn poll_msb_waits_for_timeout(
    states: Seq<PollState>,
    c: u8,
    number_msb: u8,
    number_lsb: u8,
    v: u8,
    timeout: u64,
    elapsed: u128,
)
    requires
        states.len() == 16,
        c < 16,
        states[c as int] == poll_empty(),
    ensures
        ({
            let (last, outs) = poll_run(
                states,
                seq![cc_bytes(c, 99, number_msb), cc_bytes(c, 98, number_lsb), cc_bytes(c, 6, v)],
            );
            &&& outs == seq![no_output(), no_output(), no_output()]
            &&& poll_channel_after(last, c, timeout, elapsed).1 == if elapsed < timeout as u128 {
                None
            } else {
                Some(
                    pn_7_bit(
                        c,
                        join_7_bit(number_msb as int, number_lsb as int) as u16,
                        v,
                        false,
                        DataType::DataEntry,
                    ),
                )
            }
            &&& elapsed < timeout as u128 ==> poll_channel_after(last, c, timeout, elapsed).0
                == last
        }),
{
    let msgs = seq![cc_bytes(c, 99, number_msb), cc_bytes(c, 98, number_lsb), cc_bytes(c, 6, v)];
    assert(((0xb0 + c) as u8) % 16 == c);
    let (s1, o1) = poll_feed(states, msgs[0]);
    let (s2, o2) = poll_feed(s1, msgs[1]);
    let (s3, o3) = poll_feed(s2, msgs[2]);
    let m1 = msgs.drop_first();
    let m2 = m1.drop_first();
    assert(m2.drop_first() =~= Seq::<Bytes>::empty());
    assert(poll_run(s3, m2.drop_first()) == (s3, Seq::<PollOutputs>::empty()));
    assert(poll_run(s2, m2).1 =~= seq![o3]);
    assert(poll_run(s1, m1).1 =~= seq![o2, o3]);
    assert(poll_run(states, msgs).1 =~= seq![o1, o2, o3]);
}

/// Two messages at once: on a fresh channel, a number MSB, number LSB and value MSB followed by
/// an increment yield the pending value as a 7-bit data entry message and the increment, in
/// this order, from the increment.
pub proof fn poll_increment_after_msb_yields_two(
    states: Seq<PollState>,
    c: u8,
    number_msb: u8,
    number_lsb: u8,
    v: u8,
    w: u8,
)
    requires
        states.len() == 16,
        c < 16,
        states[c as int] == poll_empty(),
    ensures
        poll_run(
            states,
            seq![
                cc_bytes(c, 99, number_msb),
                cc_bytes(c, 98, number_lsb),
                cc_bytes(c, 6, v),
                cc_bytes(c, 96, w),
            ],
        ).1 == seq![
            no_output(),
            no_output(),
            no_output(),
            (
                Some(
                    pn_7_bit(
                        c,
                        join_7_bit(number_msb as int, number_lsb as int) as u16,
                        v,
                        false,
                        DataType::DataEntry,
                    ),
                ),
                Some(
                    pn_7_bit(
                        c,
                        join_7_bit(number_msb as int, number_lsb as int) as u16,
                        w,
                        false,
                        DataType::DataIncrement,
                    ),
                ),
            ),
        ],
{
    let msgs = seq![
        cc_bytes(c, 99, number_msb),
        cc_bytes(c, 98, number_lsb),
        cc_bytes(c, 6, v),
        cc_bytes(c, 96, w),
    ];
    assert(((0xb0 + c) as u8) % 16 == c);
    let (s1, o1) = poll_feed(states, msgs[0]);
    let (s2, o2) = poll_feed(s1, msgs[1]);
    let (s3, o3) = poll_feed(s2, msgs[2]);
    let (s4, o4) = poll_feed(s3, msgs[3]);
    let m1 = msgs.drop_first();
    let m2 = m1.drop_first();
    let m3 = m2.drop_first();
    assert(m3.drop_first() =~= Seq::<Bytes>::empty());
    assert(poll_run(s4, m3.drop_first()).1 =~= Seq::empty());
    assert(poll_run(s3, m3).1 =~= seq![o4]);
    assert(poll_run(s2, m2).1 =~= seq![o3, o4]);
    assert(poll_run(s1, m1).1 =~= seq![o2, o3, o4]);
    assert(poll_run(states, msgs).1 =~= seq![o1, o2, o3, o4]);
}

} // verus!
