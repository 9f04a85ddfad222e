use crate::conversion_error::TryFromGreaterError;
use crate::u4::U4;
use vstd::prelude::*;

verus! {

/// A MIDI channel (0 - 15).
#[derive(Copy, Clone, Debug, Default, Eq, Hash, PartialEq, Structural, PartialOrd, Ord)]
pub struct Channel(pub(crate) u8);

impl View for Channel {
    type V = u8;

    closed spec fn view(&self) -> u8 {
        self.0
    }
}

impl Channel {
    #[verifier::type_invariant]
    spec fn inv(self) -> bool {
        self.0 < 16
    }

    /// The number of representable values.
    pub const COUNT: u8 = 16;

    /// Creates a value.
    ///
    /// The given number must be lower than `16`.
    pub fn new(number: u8) -> (r: Channel)
        requires
            number < 16,
        ensures
            r@ == number,
    {
        Channel(number)
    }

    /// Returns the value as a primitive type.
    pub fn get(self) -> (r: u8)
        ensures
            r == self@,
            r < 16,
    {
        proof {
            use_type_invariant(&self);
        }
        self.0
    }
}

/// Creates a value (shorthand for `Channel::new`).
pub fn ch(number: u8) -> (r: Channel)
    requires
        number < 16,
    ensures
        r@ == number,
{
    Channel::new(number)
}

impl vstd::std_specs::convert::TryFromSpecImpl<u8> for Channel {
    open spec fn obeys_try_from_spec() -> bool {
        true
    }

    closed spec fn try_from_spec(v: u8) -> Result<Channel, TryFromGreaterError> {
        if v < 16 {
            Ok(Channel(v))
        } else {
            Err(TryFromGreaterError(()))
        }
    }
}

impl TryFrom<u8> for Channel {
    type Error = TryFromGreaterError;

    /// Converts a primitive value, failing if it is 16 or above.
    fn try_from(v: u8) -> (r: Result<Channel, TryFromGreaterError>)
        ensures
            r is Ok <==> v < 16,
            r is Ok ==> r->Ok_0@ == v,
    {
        if v < 16 {
            Ok(Channel(v))
        } else {
            Err(TryFromGreaterError(()))
        }
    }
}

impl vstd::std_specs::convert::FromSpecImpl<Channel> for u8 {
    open spec fn obeys_from_spec() -> bool {
        true
    }

    open spec fn from_spec(v: Channel) -> u8 {
        v@
    }
}

impl From<Channel> for u8 {
    fn from(v: Channel) -> (r: u8) {
        v.get()
    }
}

impl vstd::std_specs::convert::FromSpecImpl<U4> for Channel {
    open spec fn obeys_from_spec() -> bool {
        true
    }

    closed spec fn from_spec(v: U4) -> Channel {
        Channel(v@ as _)
    }
}

impl From<U4> for Channel {
    fn from(v: U4) -> (r: Channel)
        ensures
            r@ == v@,
    {
        Channel(v.get() as _)
    }
}

} // verus!
