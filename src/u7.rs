use crate::conversion_error::TryFromGreaterError;
use crate::u4::U4;
use crate::key_number::KeyNumber;
use crate::controller_number::ControllerNumber;
use crate::program_number::ProgramNumber;
use crate::u14::U14;
use vstd::prelude::*;

verus! {

/// A 7-bit integer (0 - 127).
#[derive(Copy, Clone, Debug, Default, Eq, Hash, PartialEq, Structural, PartialOrd, Ord)]
pub struct U7(pub(crate) u8);

impl View for U7 {
    type V = u8;

    closed spec fn view(&self) -> u8 {
        self.0
    }
}

impl U7 {
    #[verifier::type_invariant]
    spec fn inv(self) -> bool {
        self.0 < 128
    }

    /// The number of representable values.
    pub const COUNT: u8 = 128;

    /// Creates a value.
    ///
    /// The given number must be lower than `128`.
    pub fn new(number: u8) -> (r: U7)
        requires
            number < 128,
        ensures
            r@ == number,
    {
        U7(number)
    }

    /// Returns the value as a primitive type.
    pub fn get(self) -> (r: u8)
        ensures
            r == self@,
            r < 128,
    {
        proof {
            use_type_invariant(&self);
        }
        self.0
    }
}

/// Creates a value (shorthand for `U7::new`).
pub fn u7(number: u8) -> (r: U7)
    requires
        number < 128,
    ensures
        r@ == number,
{
    U7::new(number)
}

impl vstd::std_specs::convert::TryFromSpecImpl<u8> for U7 {
    open spec fn obeys_try_from_spec() -> bool {
        true
    }

    closed spec fn try_from_spec(v: u8) -> Result<U7, TryFromGreaterError> {
        if v < 128 {
            Ok(U7(v))
        } else {
            Err(TryFromGreaterError(()))
        }
    }
}

impl TryFrom<u8> for U7 {
    type Error = TryFromGreaterError;

    /// Converts a primitive value, failing if it is 128 or above.
    fn try_from(v: u8) -> (r: Result<U7, TryFromGreaterError>)
        ensures
            r is Ok <==> v < 128,
            r is Ok ==> r->Ok_0@ == v,
    {
        if v < 128 {
            Ok(U7(v))
        } else {
            Err(TryFromGreaterError(()))
        }
    }
}

impl vstd::std_specs::convert::FromSpecImpl<U7> for u8 {
    open spec fn obeys_from_spec() -> bool {
        true
    }

    open spec fn from_spec(v: U7) -> u8 {
        v@
    }
}

impl From<U7> for u8 {
    fn from(v: U7) -> (r: u8) {
        v.get()
    }
}

impl vstd::std_specs::convert::FromSpecImpl<U4> for U7 {
    open spec fn obeys_from_spec() -> bool {
        true
    }

    closed spec fn from_spec(v: U4) -> U7 {
        U7(v@ as _)
    }
}

impl From<U4> for U7 {
    fn from(v: U4) -> (r: U7)
        ensures
            r@ == v@,
    {
        U7(v.get() as _)
    }
}

impl vstd::std_specs::convert::FromSpecImpl<KeyNumber> for U7 {
    open spec fn obeys_from_spec() -> bool {
        true
    }

    closed spec fn from_spec(v: KeyNumber) -> U7 {
        U7(v@ as _)
    }
}

impl From<KeyNumber> for U7 {
    fn from(v: KeyNumber) -> (r: U7)
        ensures
            r@ == v@,
    {
        U7(v.get() as _)
    }
}

impl vstd::std_specs::convert::FromSpecImpl<ControllerNumber> for U7 {
    open spec fn obeys_from_spec() -> bool {
        true
    }

    closed spec fn from_spec(v: ControllerNumber) -> U7 {
        U7(v@ as _)
    }
}

impl From<ControllerNumber> for U7 {
    fn from(v: ControllerNumber) -> (r: U7)
        ensures
            r@ == v@,
    {
        U7(v.get() as _)
    }
}

impl vstd::std_specs::convert::FromSpecImpl<ProgramNumber> for U7 {
    open spec fn obeys_from_spec() -> bool {
        true
    }

    closed spec fn from_spec(v: ProgramNumber) -> U7 {
        U7(v@ as _)
    }
}

impl From<ProgramNumber> for U7 {
    fn from(v: ProgramNumber) -> (r: U7)
        ensures
            r@ == v@,
    {
        U7(v.get() as _)
    }
}

impl vstd::std_specs::convert::TryFromSpecImpl<U14> for U7 {
    open spec fn obeys_try_from_spec() -> bool {
        true
    }

    closed spec fn try_from_spec(v: U14) -> Result<U7, TryFromGreaterError> {
        if v@ < 128 {
            Ok(U7(v@ as _))
        } else {
            Err(TryFromGreaterError(()))
        }
    }
}

impl TryFrom<U14> for U7 {
    type Error = TryFromGreaterError;

    /// Converts a value, failing if it is 128 or above.
    fn try_from(v: U14) -> (r: Result<U7, TryFromGreaterError>)
        ensures
            r is Ok <==> v@ < 128,
            r is Ok ==> r->Ok_0@ == v@,
    {
        let n = v.get();
        if n < 128 {
            Ok(U7(n as _))
        } else {
            Err(TryFromGreaterError(()))
        }
    }
}

} // verus!
