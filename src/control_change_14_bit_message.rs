//! 14-bit Control Change messages.
use crate::bits::{
    extract_high_7_bit_value_from_14_bit_value, extract_low_7_bit_value_from_14_bit_value,
};
use crate::channel::Channel;
use crate::controller_number::ControllerNumber;
use crate::parameter_number_message::cc_bytes;
use crate::short_message_factory::{bytes_of, same_message, ShortMessageFactory};
use crate::u14::U14;
use vstd::prelude::*;

verus! {

/// A 14-bit MIDI Control Change message.
///
/// MIDI systems send it as 2 Control Change messages in a row: the most significant 7 bits on
/// a controller number from 0 to 31, the least significant 7 bits on the controller number 32
/// above it.
#[derive(Copy, Clone, Eq, PartialEq, Structural, Hash, Debug)]
pub struct ControlChange14BitMessage {
    channel: Channel,
    msb_controller_number: ControllerNumber,
    value: U14,
}

impl View for ControlChange14BitMessage {
    /// Channel, controller number of the most significant byte, and value.
    type V = (u8, u8, u16);

    closed spec fn view(&self) -> (u8, u8, u16) {
        (self.channel@, self.msb_controller_number@, self.value@)
    }
}

impl ControlChange14BitMessage {
    #[verifier::type_invariant]
    spec fn inv(self) -> bool {
        self.msb_controller_number@ < 32
    }

    /// Creates a 14-bit Control Change message.
    ///
    /// `msb_controller_number` must be able to carry the most significant byte of a 14-bit
    /// Control Change message (0 - 31).
    pub fn new(channel: Channel, msb_controller_number: ControllerNumber, value: U14) -> (r:
        ControlChange14BitMessage)
        requires
            msb_controller_number@ < 32,
        ensures
            r@ == (channel@, msb_controller_number@, value@),
    {
        ControlChange14BitMessage { channel, msb_controller_number, value }
    }

    /// Returns the channel of this message.
    pub fn channel(&self) -> (r: Channel)
        ensures
            r@ == self@.0,
    {
        self.channel
    }

    /// Returns the controller number carrying the most significant byte of this message.
    pub fn msb_controller_number(&self) -> (r: ControllerNumber)
        ensures
            r@ == self@.1,
            r@ < 32,
    {
        proof {
            use_type_invariant(self);
        }
        self.msb_controller_number
    }

    /// Returns the controller number carrying the least significant byte of this message.
    pub fn lsb_controller_number(&self) -> (r: ControllerNumber)
        ensures
            r@ == self@.1 + 32,
    {
        proof {
            use_type_invariant(self);
        }
        let n = self.msb_controller_number.get();
        ControllerNumber::new(n + 32)
    }

    /// Returns the 14-bit value of this message.
    pub fn value(&self) -> (r: U14)
        ensures
            r@ == self@.2,
    {
        self.value
    }

    /// Encodes this message as the 2 Control Change messages which need to be sent in a
    /// row in order to encode it: the most significant 7 bits first.
    pub fn to_short_messages<T: ShortMessageFactory>(&self) -> (r: [T; 2])
        ensures
            same_message(
                bytes_of(&r[0]),
                cc_bytes(self@.0, self@.1, (self@.2 / 128) as u8),
            ),
            same_message(
                bytes_of(&r[1]),
                cc_bytes(self@.0, (self@.1 + 32) as u8, (self@.2 % 128) as u8),
            ),
    {
        [
            T::control_change(
                self.channel,
                self.msb_controller_number(),
                extract_high_7_bit_value_from_14_bit_value(self.value),
            ),
            T::control_change(
                self.channel,
                self.lsb_controller_number(),
                extract_low_7_bit_value_from_14_bit_value(self.value),
            ),
        ]
    }
}

} // verus!
