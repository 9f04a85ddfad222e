//! (N)RPN messages: registered and non-registered parameter number messages.
use crate::bits::{
    extract_high_7_bit_value_from_14_bit_value, extract_low_7_bit_value_from_14_bit_value,
};
use crate::channel::Channel;
use crate::controller_number::ControllerNumber;
use crate::short_message_factory::{bytes_of, same_message, ShortMessageFactory};
use crate::u14::U14;
use crate::u7::U7;
use vstd::prelude::*;

verus! {

/// The desired byte order of a data entry value.
#[derive(Copy, Clone, Eq, PartialEq, Structural, Hash, Debug)]
pub enum DataEntryByteOrder {
    /// Most significant byte first.
    MsbFirst,
    /// Least significant byte first.
    LsbFirst,
}

/// Type of the value that is encoded in a parameter number message.
#[derive(Copy, Clone, Eq, PartialEq, Structural, Hash, Debug)]
pub enum DataType {
    /// An absolute value.
    DataEntry,
    /// An increment relative from the current value.
    DataIncrement,
    /// A decrement relative from the current value.
    DataDecrement,
}

/// The contents of a parameter number message as plain values.
pub struct PnModel {
    pub channel: u8,
    pub number: u16,
    pub value: u16,
    pub is_registered: bool,
    pub is_14_bit: bool,
    pub data_type: DataType,
}

/// A message with a 7-bit value.
pub open spec fn pn_7_bit(
    channel: u8,
    number: u16,
    value: u8,
    is_registered: bool,
    data_type: DataType,
) -> PnModel {
    PnModel {
        channel,
        number,
        value: value as u16,
        is_registered,
        is_14_bit: false,
        data_type,
    }
}

/// A message with a 14-bit data entry value.
pub open spec fn pn_14_bit(channel: u8, number: u16, value: u16, is_registered: bool) -> PnModel {
    PnModel {
        channel,
        number,
        value,
        is_registered,
        is_14_bit: true,
        data_type: DataType::DataEntry,
    }
}

/// The bytes of a Control Change message on channel `c`.
pub open spec fn cc_bytes(c: u8, cn: u8, v: u8) -> (u8, u8, u8) {
    ((0xb0 + c) as u8, cn, v)
}

/// Whether `o` holds a message with the bytes `e` holds, or both hold nothing.
pub open spec fn holds_message<T: ShortMessageFactory>(
    o: Option<T>,
    e: Option<(u8, u8, u8)>,
) -> bool {
    match (o, e) {
        (Some(m), Some(b)) => same_message(bytes_of(&m), b),
        (None, None) => true,
        _ => false,
    }
}

/// The `i`-th of the 4 Control Change messages that encode message `m`: the number MSB, the
/// number LSB, then the value bytes in the given order (data entry), or the increment /
/// decrement. A 7-bit message needs only 3 of them; the 4th is then nothing.
pub open spec fn pn_short_message(m: PnModel, order: DataEntryByteOrder, i: int) -> Option<
    (u8, u8, u8),
> {
    let msb_entry = cc_bytes(
        m.channel,
        6,
        if m.is_14_bit {
            (m.value / 128) as u8
        } else {
            m.value as u8
        },
    );
    let lsb_entry = cc_bytes(m.channel, 38, (m.value % 128) as u8);
    if i == 0 {
        Some(
            cc_bytes(
                m.channel,
                if m.is_registered {
                    101
                } else {
                    99
                },
                (m.number / 128) as u8,
            ),
        )
    } else if i == 1 {
        Some(
            cc_bytes(
                m.channel,
                if m.is_registered {
                    100
                } else {
                    98
                },
                (m.number % 128) as u8,
            ),
        )
    } else {
        match m.data_type {
            DataType::DataEntry => if m.is_14_bit {
                match order {
                    DataEntryByteOrder::MsbFirst => Some(
                        if i == 2 {
                            msb_entry
                        } else {
                            lsb_entry
                        },
                    ),
                    DataEntryByteOrder::LsbFirst => Some(
                        if i == 2 {
                            lsb_entry
                        } else {
                            msb_entry
                        },
                    ),
                }
            } else if i == 2 {
                Some(msb_entry)
            } else {
                None
            },
            DataType::DataIncrement => if i == 2 {
                Some(cc_bytes(m.channel, 96, (m.value % 128) as u8))
            } else {
                None
            },
            DataType::DataDecrement => if i == 2 {
                Some(cc_bytes(m.channel, 97, (m.value % 128) as u8))
            } else {
                None
            },
        }
    }
}

/// A MIDI Parameter Number message, either registered (RPN) or non-registered (NRPN).
///
/// MIDI systems send it as up to 4 Control Change messages in a row. A message with a 14-bit
/// value is always a data entry; a 7-bit value is at most 127.
#[derive(Copy, Clone, Eq, PartialEq, Structural, Hash, Debug)]
pub struct ParameterNumberMessage {
    channel: Channel,
    number: U14,
    value: U14,
    is_registered: bool,
    is_14_bit: bool,
    data_type: DataType,
}

impl View for ParameterNumberMessage {
    type V = PnModel;

    closed spec fn view(&self) -> PnModel {
        PnModel {
            channel: self.channel@,
            number: self.number@,
            value: self.value@,
            is_registered: self.is_registered,
            is_14_bit: self.is_14_bit,
            data_type: self.data_type,
        }
    }
}

impl ParameterNumberMessage {
    #[verifier::type_invariant]
    spec fn inv(self) -> bool {
        &&& !self.is_14_bit ==> self.value@ < 128
        &&& self.is_14_bit ==> self.data_type == DataType::DataEntry
    }

    /// Creates an NRPN message with a 7-bit data-entry value.
    pub fn non_registered_7_bit(channel: Channel, number: U14, value: U7) -> (r:
        ParameterNumberMessage)
        ensures
            r@ == pn_7_bit(channel@, number@, value@, false, DataType::DataEntry),
    {
        Self::seven_bit(channel, number, value, false, DataType::DataEntry)
    }

    /// Creates an NRPN message with a 14-bit data-entry value.
    pub fn non_registered_14_bit(channel: Channel, number: U14, value: U14) -> (r:
        ParameterNumberMessage)
        ensures
            r@ == pn_14_bit(channel@, number@, value@, false),
    {
        Self::fourteen_bit(channel, number, value, false)
    }

    /// Creates an NRPN message with a data decrement value.
    pub fn non_registered_decrement(channel: Channel, number: U14, value: U7) -> (r:
        ParameterNumberMessage)
        ensures
            r@ == pn_7_bit(channel@, number@, value@, false, DataType::DataDecrement),
    {
        Self::seven_bit(channel, number, value, false, DataType::DataDecrement)
    }

    /// Creates an NRPN message with a data increment value.
    pub fn non_registered_increment(channel: Channel, number: U14, value: U7) -> (r:
        ParameterNumberMessage)
        ensures
            r@ == pn_7_bit(channel@, number@, value@, false, DataType::DataIncrement),
    {
        Self::seven_bit(channel, number, value, false, DataType::DataIncrement)
    }

    /// Creates an RPN message with a 7-bit data-entry value.
    pub fn registered_7_bit(channel: Channel, number: U14, value: U7) -> (r:
        ParameterNumberMessage)
        ensures
            r@ == pn_7_bit(channel@, number@, value@, true, DataType::DataEntry),
    {
        Self::seven_bit(channel, number, value, true, DataType::DataEntry)
    }

    /// Creates an RPN message with a 14-bit data-entry value.
    pub fn registered_14_bit(channel: Channel, number: U14, value: U14) -> (r:
        ParameterNumberMessage)
        ensures
            r@ == pn_14_bit(channel@, number@, value@, true),
    {
        Self::fourteen_bit(channel, number, value, true)
    }

    /// Creates an RPN message with a data decrement value.
    pub fn registered_decrement(channel: Channel, number: U14, value: U7) -> (r:
        ParameterNumberMessage)
        ensures
            r@ == pn_7_bit(channel@, number@, value@, true, DataType::DataDecrement),
    {
        Self::seven_bit(channel, number, value, true, DataType::DataDecrement)
    }

    /// Creates an RPN message with a data increment value.
    pub fn registered_increment(channel: Channel, number: U14, value: U7) -> (r:
        ParameterNumberMessage)
        ensures
            r@ == pn_7_bit(channel@, number@, value@, true, DataType::DataIncrement),
    {
        Self::seven_bit(channel, number, value, true, DataType::DataIncrement)
    }

    /// Creates a message with a 7-bit value.
    pub(crate) fn seven_bit(
        channel: Channel,
        number: U14,
        value: U7,
        is_registered: bool,
        data_type: DataType,
    ) -> (r: ParameterNumberMessage)
        ensures
            r@ == pn_7_bit(channel@, number@, value@, is_registered, data_type),
    {
        let v = value.get();
        ParameterNumberMessage {
            channel,
            number,
            value: U14::new(v as u16),
            is_registered,
            is_14_bit: false,
            data_type,
        }
    }

    /// Creates a message with a 14-bit data entry value.
    pub(crate) fn fourteen_bit(
        channel: Channel,
        number: U14,
        value: U14,
        is_registered: bool,
    ) -> (r: ParameterNumberMessage)
        ensures
            r@ == pn_14_bit(channel@, number@, value@, is_registered),
    {
        ParameterNumberMessage {
            channel,
            number,
            value,
            is_registered,
            is_14_bit: true,
            data_type: DataType::DataEntry,
        }
    }

    /// Returns the channel of this message.
    pub fn channel(&self) -> (r: Channel)
        ensures
            r@ == self@.channel,
    {
        self.channel
    }

    /// Returns the parameter number of this message.
    pub fn number(&self) -> (r: U14)
        ensures
            r@ == self@.number,
    {
        self.number
    }

    /// Returns the value of this message (at most 127 if it is only a 7-bit message).
    pub fn value(&self) -> (r: U14)
        ensures
            r@ == self@.value,
            !self@.is_14_bit ==> r@ < 128,
    {
        proof {
            use_type_invariant(self);
        }
        self.value
    }

    /// Returns `true` if this message has a 14-bit value and `false` if only a 7-bit value.
    pub fn is_14_bit(&self) -> (r: bool)
        ensures
            r == self@.is_14_bit,
    {
        self.is_14_bit
    }

    /// Returns whether this message uses a registered parameter number.
    pub fn is_registered(&self) -> (r: bool)
        ensures
            r == self@.is_registered,
    {
        self.is_registered
    }

    /// Returns the data type of the value in this message.
    pub fn data_type(&self) -> (r: DataType)
        ensures
            r == self@.data_type,
            self@.is_14_bit ==> r == DataType::DataEntry,
    {
        proof {
            use_type_invariant(self);
        }
        self.data_type
    }

    /// Encodes this message as up to 4 Control Change messages, which need to be sent in a
    /// row in order to encode this (N)RPN message.
    ///
    /// If this message has a 14-bit value, all 4 are present and the value bytes come in the
    /// given order. Otherwise the last one is `None`.
    pub fn to_short_messages<T: ShortMessageFactory>(
        &self,
        data_entry_byte_order: DataEntryByteOrder,
    ) -> (r: [Option<T>; 4])
        ensures
            forall|i: int|
                0 <= i < 4 ==> holds_message(
                    #[trigger] r@[i],
                    pn_short_message(self@, data_entry_byte_order, i),
                ),
    {
        proof {
            use_type_invariant(self);
        }
        let mut messages: [Option<T>; 4] = [None, None, None, None];
        let mut i: usize = 0;
        // Number MSB
        messages[i] = Some(
            T::control_change(
                self.channel,
                ControllerNumber::new(
                    if self.is_registered {
                        101
                    } else {
                        99
                    },
                ),
                extract_high_7_bit_value_from_14_bit_value(self.number),
            ),
        );
        i += 1;
        // Number LSB
        messages[i] = Some(
            T::control_change(
                self.channel,
                ControllerNumber::new(
                    if self.is_registered {
                        100
                    } else {
                        98
                    },
                ),
                extract_low_7_bit_value_from_14_bit_value(self.number),
            ),
        );
        i += 1;
        // Value bytes
        match self.data_type {
            DataType::DataEntry => {
                match data_entry_byte_order {
                    DataEntryByteOrder::MsbFirst => {
                        // Value MSB
                        messages[i] = Some(self.build_data_entry_msb_msg());
                        i += 1;
                        // Value LSB
                        if self.is_14_bit {
                            messages[i] = Some(self.build_data_entry_lsb_msg());
                        }
                    },
                    DataEntryByteOrder::LsbFirst => {
                        // Value LSB
                        if self.is_14_bit {
                            messages[i] = Some(self.build_data_entry_lsb_msg());
                            i += 1;
                        }
                        // Value MSB
                        messages[i] = Some(self.build_data_entry_msb_msg());
                    },
                }
            },
            DataType::DataIncrement => {
                messages[i] = Some(self.build_data_inc_dec_msg(ControllerNumber::new(96)));
            },
            DataType::DataDecrement => {
                messages[i] = Some(self.build_data_inc_dec_msg(ControllerNumber::new(97)));
            },
        }
        messages
    }

    fn build_data_entry_msb_msg<T: ShortMessageFactory>(&self) -> (r: T)
        ensures
            same_message(
                bytes_of(&r),
                cc_bytes(
                    self@.channel,
                    6,
                    if self@.is_14_bit {
                        (self@.value / 128) as u8
                    } else {
                        self@.value as u8
                    },
                ),
            ),
    {
        proof {
            use_type_invariant(self);
        }
        T::control_change(
            self.channel,
            ControllerNumber::new(6),
            if self.is_14_bit {
                extract_high_7_bit_value_from_14_bit_value(self.value)
            } else {
                U7::new(self.value.get() as u8)
            },
        )
    }

    fn build_data_entry_lsb_msg<T: ShortMessageFactory>(&self) -> (r: T)
        ensures
            same_message(bytes_of(&r), cc_bytes(self@.channel, 38, (self@.value % 128) as u8)),
    {
        T::control_change(
            self.channel,
            ControllerNumber::new(38),
            extract_low_7_bit_value_from_14_bit_value(self.value),
        )
    }

    fn build_data_inc_dec_msg<T: ShortMessageFactory>(&self, cn: ControllerNumber) -> (r: T)
        ensures
            same_message(bytes_of(&r), cc_bytes(self@.channel, cn@, (self@.value % 128) as u8)),
    {
        T::control_change(
            self.channel,
            cn,
            extract_low_7_bit_value_from_14_bit_value(self.value),
        )
    }
}

} // verus!
