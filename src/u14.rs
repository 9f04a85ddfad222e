use crate::conversion_error::TryFromGreaterError;
use crate::u4::U4;
use crate::u7::U7;
use vstd::prelude::*;

verus! {

/// A 14-bit integer (0 - 16383).
#[derive(Copy, Clone, Debug, Default, Eq, Hash, PartialEq, Structural, PartialOrd, Ord)]
pub struct U14(pub(crate) u16);

impl View for U14 {
    type V = u16;

    closed spec fn view(&self) -> u16 {
        self.0
    }
}

impl U14 {
    #[verifier::type_invariant]
    spec fn inv(self) -> bool {
        self.0 < 16384
    }

    /// The number of representable values.
    pub const COUNT: u16 = 16384;

    /// Creates a value.
    ///
    /// The given number must be lower than `16384`.
    pub fn new(number: u16) -> (r: U14)
        requires
            number < 16384,
        ensures
            r@ == number,
    {
        U14(number)
    }

    /// Returns the value as a primitive type.
    pub fn get(self) -> (r: u16)
        ensures
            r == self@,
            r < 16384,
    {
        proof {
            use_type_invariant(&self);
        }
        self.0
    }
}

/// Creates a value (shorthand for `U14::new`).
pub fn u14(number: u16) -> (r: U14)
    requires
        number < 16384,
    ensures
        r@ == number,
{
    U14::new(number)
}

impl vstd::std_specs::convert::TryFromSpecImpl<u16> for U14 {
    open spec fn obeys_try_from_spec() -> bool {
        true
    }

    closed spec fn try_from_spec(v: u16) -> Result<U14, TryFromGreaterError> {
        if v < 16384 {
            Ok(U14(v))
        } else {
            Err(TryFromGreaterError(()))
        }
    }
}

impl TryFrom<u16> for U14 {
    type Error = TryFromGreaterError;

    /// Converts a primitive value, failing if it is 16384 or above.
    fn try_from(v: u16) -> (r: Result<U14, TryFromGreaterError>)
        ensures
            r is Ok <==> v < 16384,
            r is Ok ==> r->Ok_0@ == v,
    {
        if v < 16384 {
            Ok(U14(v))
        } else {
            Err(TryFromGreaterError(()))
        }
    }
}

impl vstd::std_specs::convert::FromSpecImpl<U14> for u16 {
    open spec fn obeys_from_spec() -> bool {
        true
    }

    open spec fn from_spec(v: U14) -> u16 {
        v@
    }
}

impl From<U14> for u16 {
    fn from(v: U14) -> (r: u16) {
        v.get()
    }
}

impl vstd::std_specs::convert::FromSpecImpl<U4> for U14 {
    open spec fn obeys_from_spec() -> bool {
        true
    }

    closed spec fn from_spec(v: U4) -> U14 {
        U14(v@ as _)
    }
}

impl From<U4> for U14 {
    fn from(v: U4) -> (r: U14)
        ensures
            r@ == v@,
    {
        U14(v.get() as _)
    }
}

impl vstd::std_specs::convert::FromSpecImpl<U7> for U14 {
    open spec fn obeys_from_spec() -> bool {
        true
    }

    closed spec fn from_spec(v: U7) -> U14 {
        U14(v@ as _)
    }
}

impl From<U7> for U14 {
    fn from(v: U7) -> (r: U14)
        ensures
            r@ == v@,
    {
        U14(v.get() as _)
    }
}

} // verus!
