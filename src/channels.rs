//! Streams of short messages that are scanned channel by channel, and why the channels do not
//! influence each other.
use crate::short_message::channel_of;
use vstd::prelude::*;

verus! {

/// A short message as its status byte and two data bytes.
pub type Bytes = (u8, u8, u8);

/// One step of a scanner with one state per channel: a message with a channel goes to the
/// state of that channel (`step`), a message without one changes nothing and yields `none`.
pub open spec fn route<S, O>(
    step: spec_fn(S, Bytes) -> (S, O),
    none: O,
    states: Seq<S>,
    b: Bytes,
) -> (Seq<S>, O) {
    match channel_of(b.0) {
        Some(c) => {
            let (s, out) = step(states[c as int], b);
            (states.update(c as int, s), out)
        },
        None => (states, none),
    }
}

/// Feeding the messages `msgs` one after the other: the final states and the output of each
/// message.
pub open spec fn run<S, O>(
    step: spec_fn(S, Bytes) -> (S, O),
    none: O,
    states: Seq<S>,
    msgs: Seq<Bytes>,
) -> (Seq<S>, Seq<O>)
    decreases msgs.len(),
{
    if msgs.len() == 0 {
        (states, Seq::empty())
    } else {
        let (next, out) = route(step, none, states, msgs[0]);
        let (last, outs) = run(step, none, next, msgs.drop_first());
        (last, seq![out] + outs)
    }
}

/// Feeding the messages `msgs` one after the other to the state of one channel alone.
pub open spec fn channel_run<S, O>(step: spec_fn(S, Bytes) -> (S, O), s: S, msgs: Seq<Bytes>) -> (
    S,
    Seq<O>,
)
    decreases msgs.len(),
{
    if msgs.len() == 0 {
        (s, Seq::empty())
    } else {
        let (next, out) = step(s, msgs[0]);
        let (last, outs) = channel_run(step, next, msgs.drop_first());
        (last, seq![out] + outs)
    }
}

/// The messages of `msgs` on channel `c`, in their order.
pub open spec fn on_channel(msgs: Seq<Bytes>, c: u8) -> Seq<Bytes>
    decreases msgs.len(),
{
    if msgs.len() == 0 {
        Seq::empty()
    } else if channel_of(msgs[0].0) == Some(c) {
        seq![msgs[0]] + on_channel(msgs.drop_first(), c)
    } else {
        on_channel(msgs.drop_first(), c)
    }
}

/// The outputs `outs` (one per message of `msgs`) of the messages on channel `c`, in their
/// order.
pub open spec fn outputs_on_channel<O>(msgs: Seq<Bytes>, outs: Seq<O>, c: u8) -> Seq<O>
    decreases msgs.len(),
{
    if msgs.len() == 0 {
        Seq::empty()
    } else if channel_of(msgs[0].0) == Some(c) {
        seq![outs[0]] + outputs_on_channel(msgs.drop_first(), outs.drop_first(), c)
    } else {
        outputs_on_channel(msgs.drop_first(), outs.drop_first(), c)
    }
}

/// Feeding a stream to a scanner with one state per channel yields, for each channel, the same
/// outputs in the same order and the same final state as feeding only that channel's messages
/// to that channel's state alone.
pub proof fn lemma_channel_independence<S, O>(
    step: spec_fn(S, Bytes) -> (S, O),
    none: O,
    states: Seq<S>,
    msgs: Seq<Bytes>,
    c: u8,
)
    requires
        states.len() == 16,
        c < 16,
    ensures
        run(step, none, states, msgs).1.len() == msgs.len(),
        run(step, none, states, msgs).0.len() == 16,
        outputs_on_channel(msgs, run(step, none, states, msgs).1, c) == channel_run(
            step,
            states[c as int],
            on_channel(msgs, c),
        ).1,
        run(step, none, states, msgs).0[c as int] == channel_run(
            step,
            states[c as int],
            on_channel(msgs, c),
        ).0,
    decreases msgs.len(),
{
    if msgs.len() > 0 {
        let b = msgs[0];
        let (next, out) = route(step, none, states, b);
        lemma_channel_independence(step, none, next, msgs.drop_first(), c);
        let outs = run(step, none, states, msgs).1;
        assert(outs.drop_first() =~= run(step, none, next, msgs.drop_first()).1);
        if channel_of(b.0) == Some(c) {
            assert(on_channel(msgs, c).drop_first() =~= on_channel(msgs.drop_first(), c));
        } else {
            match channel_of(b.0) {
                Some(d) => {
                    assert(d < 16) by {
                        assert(b.0 % 16 < 16);
                    }
                    assert(next[c as int] == states[c as int]);
                },
                None => {},
            }
        }
    }
}

/// Running only messages of channel `c` through the whole scanner is running them through the
/// state of channel `c`.
proof fn lemma_single_channel_run<S, O>(
    step: spec_fn(S, Bytes) -> (S, O),
    none: O,
    states: Seq<S>,
    msgs: Seq<Bytes>,
    c: u8,
)
    requires
        states.len() == 16,
        c < 16,
        forall|i: int| 0 <= i < msgs.len() ==> channel_of(#[trigger] msgs[i].0) == Some(c),
    ensures
        run(step, none, states, msgs).1 == channel_run(step, states[c as int], msgs).1,
        run(step, none, states, msgs).0[c as int] == channel_run(step, states[c as int], msgs).0,
    decreases msgs.len(),
{
    if msgs.len() > 0 {
        assert(channel_of(msgs[0].0) == Some(c));
        let (next, out) = route(step, none, states, msgs[0]);
        assert forall|i: int| 0 <= i < msgs.drop_first().len() implies channel_of(
            #[trigger] msgs.drop_first()[i].0,
        ) == Some(c) by {
            assert(msgs.drop_first()[i] == msgs[i + 1]);
        }
        lemma_single_channel_run(step, none, next, msgs.drop_first(), c);
    }
}

/// The messages of channel `c` are all on channel `c`.
proof fn lemma_on_channel_is_on_channel(msgs: Seq<Bytes>, c: u8)
    ensures
        forall|i: int|
            0 <= i < on_channel(msgs, c).len() ==> channel_of(#[trigger] on_channel(msgs, c)[i].0)
                == Some(c),
    decreases msgs.len(),
{
    if msgs.len() > 0 {
        lemma_on_channel_is_on_channel(msgs.drop_first(), c);
        if channel_of(msgs[0].0) == Some(c) {
            let rest = on_channel(msgs.drop_first(), c);
            assert forall|i: int| 0 <= i < on_channel(msgs, c).len() implies channel_of(
                #[trigger] on_channel(msgs, c)[i].0,
            ) == Some(c) by {
                if i > 0 {
                    assert(on_channel(msgs, c)[i] == rest[i - 1]);
                }
            }
        }
    }
}

/// Interleaving does not matter: feeding a stream to a scanner yields, for each channel, the
/// same outputs in the same order as feeding only that channel's messages to a separate scanner
/// in the same state.
pub proof fn lemma_interleaving_is_irrelevant<S, O>(
    step: spec_fn(S, Bytes) -> (S, O),
    none: O,
    states: Seq<S>,
    msgs: Seq<Bytes>,
    c: u8,
)
    requires
        states.len() == 16,
        c < 16,
    ensures
        outputs_on_channel(msgs, run(step, none, states, msgs).1, c) == run(
            step,
            none,
            states,
            on_channel(msgs, c),
        ).1,
{
    lemma_channel_independence(step, none, states, msgs, c);
    lemma_on_channel_is_on_channel(msgs, c);
    lemma_single_channel_run(step, none, states, on_channel(msgs, c), c);
}

} // verus!
