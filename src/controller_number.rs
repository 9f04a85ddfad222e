use crate::conversion_error::TryFromGreaterError;
use crate::u7::U7;
use vstd::prelude::*;

verus! {

/// A controller number (0 - 127) of a MIDI Control Change message.
#[derive(Copy, Clone, Debug, Default, Eq, Hash, PartialEq, Structural, PartialOrd, Ord)]
pub struct ControllerNumber(pub(crate) u8);

impl View for ControllerNumber {
    type V = u8;

    closed spec fn view(&self) -> u8 {
        self.0
    }
}

impl ControllerNumber {
    #[verifier::type_invariant]
    spec fn inv(self) -> bool {
        self.0 < 128
    }

    /// The number of representable values.
    pub const COUNT: u8 = 128;

    /// Creates a value.
    ///
    /// The given number must be lower than `128`.
    pub fn new(number: u8) -> (r: ControllerNumber)
        requires
            number < 128,
        ensures
            r@ == number,
    {
        ControllerNumber(number)
    }

    /// Returns the value as a primitive type.
    pub fn get(self) -> (r: u8)
        ensures
            r == self@,
            r < 128,
    {
        proof {
            use_type_invariant(&self);
        }
        self.0
    }

    /// Returns whether this controller number can be used to make up a 14-bit Control Change
    /// message.
    pub fn can_be_part_of_14_bit_control_change_message(&self) -> (r: bool)
        ensures
            r == (self@ < 64),
    {
        self.get() < 64
    }

    /// If this controller number can carry the most significant byte of a 14-bit Control Change
    /// message, returns the controller number that carries its least significant byte.
    pub fn corresponding_14_bit_lsb_controller_number(&self) -> (r: Option<ControllerNumber>)
        ensures
            r is Some <==> self@ < 32,
            r is Some ==> r->0@ == self@ + 32,
    {
        let n = self.get();
        if n >= 32 {
            return None;
        }
        Some(ControllerNumber::new(n + 32))
    }

    /// Returns whether this controller number is intended to carry part of a (N)RPN message.
    pub fn is_parameter_number_message_controller_number(&self) -> (r: bool)
        ensures
            r == is_parameter_number_controller(self@),
    {
        let n = self.get();
        n == 98 || n == 99 || n == 100 || n == 101 || n == 38 || n == 6 || n == 96 || n == 97
    }

    /// Returns whether this controller number is intended to carry Channel Mode messages.
    pub fn is_channel_mode_message_controller_number(&self) -> (r: bool)
        ensures
            r == is_channel_mode_controller(self@),
    {
        self.get() >= 121
    }
}

/// Whether controller number `n` carries part of a (N)RPN message: number bytes (98 - 101),
/// data entry bytes (6, 38) or increment / decrement (96, 97).
pub open spec fn is_parameter_number_controller(n: u8) -> bool {
    n == 98 || n == 99 || n == 100 || n == 101 || n == 38 || n == 6 || n == 96 || n == 97
}

/// Whether controller number `n` carries a Channel Mode message (121 - 127).
pub open spec fn is_channel_mode_controller(n: u8) -> bool {
    n >= 121
}

/// Creates a value (shorthand for `ControllerNumber::new`).
pub fn controller_number(number: u8) -> (r: ControllerNumber)
    requires
        number < 128,
    ensures
        r@ == number,
{
    ControllerNumber::new(number)
}

impl vstd::std_specs::convert::TryFromSpecImpl<u8> for ControllerNumber {
    open spec fn obeys_try_from_spec() -> bool {
        true
    }

    closed spec fn try_from_spec(v: u8) -> Result<ControllerNumber, TryFromGreaterError> {
        if v < 128 {
            Ok(ControllerNumber(v))
        } else {
            Err(TryFromGreaterError(()))
        }
    }
}

impl TryFrom<u8> for ControllerNumber {
    type Error = TryFromGreaterError;

    /// Converts a primitive value, failing if it is 128 or above.
    fn try_from(v: u8) -> (r: Result<ControllerNumber, TryFromGreaterError>)
        ensures
            r is Ok <==> v < 128,
            r is Ok ==> r->Ok_0@ == v,
    {
        if v < 128 {
            Ok(ControllerNumber(v))
        } else {
            Err(TryFromGreaterError(()))
        }
    }
}

impl vstd::std_specs::convert::FromSpecImpl<ControllerNumber> for u8 {
    open spec fn obeys_from_spec() -> bool {
        true
    }

    open spec fn from_spec(v: ControllerNumber) -> u8 {
        v@
    }
}

impl From<ControllerNumber> for u8 {
    fn from(v: ControllerNumber) -> (r: u8) {
        v.get()
    }
}

impl vstd::std_specs::convert::FromSpecImpl<U7> for ControllerNumber {
    open spec fn obeys_from_spec() -> bool {
        true
    }

    closed spec fn from_spec(v: U7) -> ControllerNumber {
        ControllerNumber(v@ as _)
    }
}

impl From<U7> for ControllerNumber {
    fn from(v: U7) -> (r: ControllerNumber)
        ensures
            r@ == v@,
    {
        ControllerNumber(v.get() as _)
    }
}

} // verus!
