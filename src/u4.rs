use crate::conversion_error::TryFromGreaterError;
use crate::channel::Channel;
use crate::u7::U7;
use crate::u14::U14;
use vstd::prelude::*;

verus! {

/// A 4-bit integer (0 - 15).
#[derive(Copy, Clone, Debug, Default, Eq, Hash, PartialEq, Structural, PartialOrd, Ord)]
pub struct U4(pub(crate) u8);

impl View for U4 {
    type V = u8;

    closed spec fn view(&self) -> u8 {
        self.0
    }
}

impl U4 {
    #[verifier::type_invariant]
    spec fn inv(self) -> bool {
        self.0 < 16
    }

    /// The number of representable values.
    pub const COUNT: u8 = 16;

    /// Creates a value.
    ///
    /// The given number must be lower than `16`.
    pub fn new(number: u8) -> (r: U4)
        requires
            number < 16,
        ensures
            r@ == number,
    {
        U4(number)
    }

    /// Returns the value as a primitive type.
    pub fn get(self) -> (r: u8)
        ensures
            r == self@,
            r < 16,
    {
        proof {
            use_type_invariant(&self);
        }
        self.0
    }
}

impl vstd::std_specs::convert::TryFromSpecImpl<u8> for U4 {
    open spec fn obeys_try_from_spec() -> bool {
        true
    }

    closed spec fn try_from_spec(v: u8) -> Result<U4, TryFromGreaterError> {
        if v < 16 {
            Ok(U4(v))
        } else {
            Err(TryFromGreaterError(()))
        }
    }
}

impl TryFrom<u8> for U4 {
    type Error = TryFromGreaterError;

    /// Converts a primitive value, failing if it is 16 or above.
    fn try_from(v: u8) -> (r: Result<U4, TryFromGreaterError>)
        ensures
            r is Ok <==> v < 16,
            r is Ok ==> r->Ok_0@ == v,
    {
        if v < 16 {
            Ok(U4(v))
        } else {
            Err(TryFromGreaterError(()))
        }
    }
}

impl vstd::std_specs::convert::FromSpecImpl<U4> for u8 {
    open spec fn obeys_from_spec() -> bool {
        true
    }

    open spec fn from_spec(v: U4) -> u8 {
        v@
    }
}

impl From<U4> for u8 {
    fn from(v: U4) -> (r: u8) {
        v.get()
    }
}

impl vstd::std_specs::convert::FromSpecImpl<Channel> for U4 {
    open spec fn obeys_from_spec() -> bool {
        true
    }

    closed spec fn from_spec(v: Channel) -> U4 {
        U4(v@ as _)
    }
}

impl From<Channel> for U4 {
    fn from(v: Channel) -> (r: U4)
        ensures
            r@ == v@,
    {
        U4(v.get() as _)
    }
}

impl vstd::std_specs::convert::TryFromSpecImpl<U7> for U4 {
    open spec fn obeys_try_from_spec() -> bool {
        true
    }

    closed spec fn try_from_spec(v: U7) -> Result<U4, TryFromGreaterError> {
        if v@ < 16 {
            Ok(U4(v@ as _))
        } else {
            Err(TryFromGreaterError(()))
        }
    }
}

impl TryFrom<U7> for U4 {
    type Error = TryFromGreaterError;

    /// Converts a value, failing if it is 16 or above.
    fn try_from(v: U7) -> (r: Result<U4, TryFromGreaterError>)
        ensures
            r is Ok <==> v@ < 16,
            r is Ok ==> r->Ok_0@ == v@,
    {
        let n = v.get();
        if n < 16 {
            Ok(U4(n as _))
        } else {
            Err(TryFromGreaterError(()))
        }
    }
}

impl vstd::std_specs::convert::TryFromSpecImpl<U14> for U4 {
    open spec fn obeys_try_from_spec() -> bool {
        true
    }

    closed spec fn try_from_spec(v: U14) -> Result<U4, TryFromGreaterError> {
        if v@ < 16 {
            Ok(U4(v@ as _))
        } else {
            Err(TryFromGreaterError(()))
        }
    }
}

impl TryFrom<U14> for U4 {
    type Error = TryFromGreaterError;

    /// Converts a value, failing if it is 16 or above.
    fn try_from(v: U14) -> (r: Result<U4, TryFromGreaterError>)
        ensures
            r is Ok <==> v@ < 16,
            r is Ok ==> r->Ok_0@ == v@,
    {
        let n = v.get();
        if n < 16 {
            Ok(U4(n as _))
        } else {
            Err(TryFromGreaterError(()))
        }
    }
}

} // verus!
